//! Behavioral tests for the controller driver, observed at the transport
//! level through a recording port.

use il3820::driver::{DriverError, Il3820};
use il3820::framebuffer::{DisplayRibbonLeft, GetBuf, BUF_BYTES};
use il3820::recorder::{PortRecord, RecordingPort};

/// The framing of one command byte.
fn cmd_frame(c: u8) -> Vec<PortRecord> {
    vec![
        PortRecord::Nss(false),
        PortRecord::Dc(false),
        PortRecord::Bytes(vec![c]),
        PortRecord::Nss(true),
    ]
}

/// The framing of one command with its payload: a single chip-select frame
/// covering the opcode at command level and the payload at data level.
fn cmd_data_frame(c: u8, data: Vec<u8>) -> Vec<PortRecord> {
    vec![
        PortRecord::Nss(false),
        PortRecord::Dc(false),
        PortRecord::Bytes(vec![c]),
        PortRecord::Dc(true),
        PortRecord::Bytes(data),
        PortRecord::Nss(true),
    ]
}

/// The vendor's 30-byte full-refresh waveform table.
fn full_lut() -> Vec<u8> {
    vec![
        0x50, 0xAA, 0x55, 0xAA, 0x11, 0x00, 0x00, 0x00, 0x00, 0x00, 0x00, 0x00, 0x00, 0x00, 0x00,
        0x00, 0x00, 0x00, 0x00, 0x00, 0xFF, 0xFF, 0x1F, 0x00, 0x00, 0x00, 0x00, 0x00, 0x00, 0x00,
    ]
}

/// The vendor's 30-byte partial-refresh waveform table.
fn partial_lut() -> Vec<u8> {
    vec![
        0x10, 0x18, 0x18, 0x08, 0x18, 0x18, 0x08, 0x00, 0x00, 0x00, 0x00, 0x00, 0x00, 0x00, 0x00,
        0x00, 0x00, 0x00, 0x00, 0x00, 0x13, 0x14, 0x44, 0x12, 0x00, 0x00, 0x00, 0x00, 0x00, 0x00,
    ]
}

/// The full initialization sequence for the mode whose waveform table is
/// given: driver output control, soft start, VCOM, dummy line, gate width,
/// data entry mode, RAM window and pointers, the table, power on.
fn init_frames(lut: Vec<u8>) -> Vec<PortRecord> {
    let mut v = Vec::new();
    v.extend(cmd_data_frame(0x01, vec![0x27, 0x01, 0x00]));
    v.extend(cmd_data_frame(0x0c, vec![0xd7, 0xd6, 0x9d]));
    v.extend(cmd_data_frame(0x2c, vec![0xa8]));
    v.extend(cmd_data_frame(0x3a, vec![0x1a]));
    v.extend(cmd_data_frame(0x3b, vec![0x08]));
    v.extend(cmd_data_frame(0x11, vec![0x03]));
    v.extend(cmd_data_frame(0x44, vec![0x00, 0x0f]));
    v.extend(cmd_data_frame(0x45, vec![0x00, 0x00, 0x27, 0x01]));
    v.extend(cmd_data_frame(0x4e, vec![0x00]));
    v.extend(cmd_data_frame(0x4f, vec![0x00, 0x00]));
    v.extend(cmd_data_frame(0x32, lut));
    v.extend(cmd_data_frame(0x22, vec![0xc3]));
    v.extend(cmd_frame(0x20));
    v
}

/// The update trigger: refresh control, master activation, terminator.
fn refresh_frames() -> Vec<PortRecord> {
    let mut v = cmd_data_frame(0x22, vec![0xc4]);
    v.extend(cmd_frame(0x20));
    v.extend(cmd_frame(0xff));
    v
}

/// Everything `clear` emits after the full-mode initialization: one
/// write-RAM frame holding all the background bytes, then the trigger.
fn clear_tail_frames() -> Vec<PortRecord> {
    let mut v = vec![
        PortRecord::Nss(false),
        PortRecord::Dc(false),
        PortRecord::Bytes(vec![0x24]),
        PortRecord::Dc(true),
    ];
    for _ in 0..BUF_BYTES {
        v.push(PortRecord::Bytes(vec![0xFF]));
    }
    v.push(PortRecord::Nss(true));
    v.extend(refresh_frames());
    v
}

#[test]
fn new_emits_reset_handshake() {
    let mut port = RecordingPort::new();
    let drv = Il3820::new(&mut port, 8);
    assert!(drv.is_partial());
    assert!(!drv.is_initialized());
    assert_eq!(
        port.log,
        vec![
            PortRecord::Rst(false),
            PortRecord::DelayMs(1),
            PortRecord::Rst(true),
            PortRecord::DelayMs(1),
        ]
    );
}

#[test]
fn set_partial_twice_leaves_initialized_unchanged() {
    let mut port = RecordingPort::new();
    let mut drv = Il3820::new(&mut port, 8);
    // Initialize the hardware for the partial mode the driver starts in.
    drv.update(&mut port).unwrap();
    assert!(drv.is_initialized());
    // Asking again for the mode already in force invalidates nothing.
    drv.set_partial();
    assert!(drv.is_partial());
    assert!(drv.is_initialized());
    drv.set_partial();
    assert!(drv.is_partial());
    assert!(drv.is_initialized());
}

#[test]
fn set_full_twice_leaves_initialized_unchanged() {
    let mut port = RecordingPort::new();
    let mut drv = Il3820::new(&mut port, 8);
    // The first transition to full mode invalidates the controller state.
    drv.set_full();
    assert!(!drv.is_partial());
    assert!(!drv.is_initialized());
    drv.update(&mut port).unwrap();
    assert!(drv.is_initialized());
    // The second and third calls change nothing.
    drv.set_full();
    assert!(drv.is_initialized());
    drv.set_full();
    assert!(!drv.is_partial());
    assert!(drv.is_initialized());
}

#[test]
fn full_refresh_sequence_emits_init_once_with_full_lut() {
    let mut port = RecordingPort::new();
    let mut drv = Il3820::new(&mut port, 8);
    port.log.clear();

    let display = DisplayRibbonLeft::default();
    drv.set_full();
    drv.set_display(&mut port, &display).unwrap();
    drv.update(&mut port).unwrap();

    let mut expected = init_frames(full_lut());
    expected.extend(cmd_data_frame(0x24, display.get_buf().to_vec()));
    expected.extend(refresh_frames());
    assert_eq!(port.log, expected);
}

#[test]
fn full_refresh_method_matches_explicit_sequence() {
    let mut port = RecordingPort::new();
    let mut drv = Il3820::new(&mut port, 8);
    port.log.clear();

    let display = DisplayRibbonLeft::default();
    drv.full_refresh(&mut port, &display).unwrap();

    let mut expected = init_frames(full_lut());
    expected.extend(cmd_data_frame(0x24, display.get_buf().to_vec()));
    expected.extend(refresh_frames());
    assert_eq!(port.log, expected);
    assert!(!drv.is_partial());
    assert!(drv.is_initialized());
}

#[test]
fn partial_mode_update_uses_partial_lut() {
    let mut port = RecordingPort::new();
    let mut drv = Il3820::new(&mut port, 8);
    port.log.clear();

    drv.update(&mut port).unwrap();

    let mut expected = init_frames(partial_lut());
    expected.extend(refresh_frames());
    assert_eq!(port.log, expected);
}

#[test]
fn clear_restores_partial_mode() {
    let mut port = RecordingPort::new();
    let mut drv = Il3820::new(&mut port, 8);
    assert!(drv.is_partial());
    drv.clear(&mut port).unwrap();
    // The mode survives the forced full-mode cycle, but the controller's
    // registers no longer reflect it.
    assert!(drv.is_partial());
    assert!(!drv.is_initialized());
}

#[test]
fn clear_in_full_mode_stays_initialized() {
    let mut port = RecordingPort::new();
    let mut drv = Il3820::new(&mut port, 8);
    drv.set_full();
    drv.clear(&mut port).unwrap();
    assert!(!drv.is_partial());
    assert!(drv.is_initialized());
}

#[test]
fn clear_streams_one_background_byte_per_buffer_byte() {
    let mut port = RecordingPort::new();
    let mut drv = Il3820::new(&mut port, 8);
    port.log.clear();

    drv.clear(&mut port).unwrap();

    let mut expected = init_frames(full_lut());
    expected.extend(clear_tail_frames());
    assert_eq!(port.log, expected);
}

#[test]
fn end_to_end_clear_then_full_refresh() {
    let mut port = RecordingPort::new();
    let mut drv = Il3820::new(&mut port, 8);
    drv.clear(&mut port).unwrap();
    drv.set_full();
    let display = DisplayRibbonLeft::default();
    drv.set_display(&mut port, &display).unwrap();
    drv.update(&mut port).unwrap();

    // The display RAM received one write-RAM pass of 4736 background bytes
    // from clear, then one pass of the 4736 caller-provided bytes.
    let mut ram_passes: Vec<Vec<u8>> = Vec::new();
    let mut collecting = false;
    let mut dc_high = false;
    for rec in &port.log {
        match rec {
            PortRecord::Dc(level) => dc_high = *level,
            PortRecord::Bytes(data) => {
                if !dc_high {
                    // A byte at command level is an opcode; only write-RAM
                    // opens a RAM pass.
                    collecting = *data == vec![0x24];
                    if collecting {
                        ram_passes.push(Vec::new());
                    }
                } else if collecting {
                    ram_passes.last_mut().unwrap().extend(data.iter().copied());
                }
            }
            _ => {}
        }
    }
    assert_eq!(ram_passes.len(), 2);
    assert_eq!(ram_passes[0].len(), 4736);
    assert!(ram_passes[0].iter().all(|b| *b == 0xFF));
    assert_eq!(ram_passes[1].len(), 4736);
    assert_eq!(ram_passes[1].as_slice(), display.get_buf());
}

#[test]
fn power_off_marks_uninitialized_and_keeps_mode() {
    let mut port = RecordingPort::new();
    let mut drv = Il3820::new(&mut port, 8);
    drv.update(&mut port).unwrap();
    assert!(drv.is_initialized());
    port.log.clear();

    drv.power_off(&mut port).unwrap();
    assert!(!drv.is_initialized());
    assert!(drv.is_partial());

    let mut expected = cmd_data_frame(0x22, vec![0xc3]);
    expected.extend(cmd_frame(0x20));
    assert_eq!(port.log, expected);
}

#[test]
fn stuck_busy_line_reports_device_not_responding() {
    let mut port = RecordingPort::new();
    let mut drv = Il3820::new(&mut port, 8);
    port.busy_level = true;
    assert_eq!(drv.update(&mut port), Err(DriverError::DeviceNotResponding));
}

#[test]
fn zero_poll_budget_never_reports_ready() {
    let mut port = RecordingPort::new();
    let mut drv = Il3820::new(&mut port, 0);
    assert_eq!(drv.update(&mut port), Err(DriverError::DeviceNotResponding));
}

#[test]
fn failed_clear_restores_the_callers_mode() {
    let mut port = RecordingPort::new();
    let mut drv = Il3820::new(&mut port, 8);
    assert!(drv.is_partial());
    port.write_fault = Some(7);
    assert_eq!(drv.clear(&mut port), Err(DriverError::Bus(7)));
    // The internally forced full mode is rolled back on the error path too.
    assert!(drv.is_partial());
    assert!(!drv.is_initialized());
}

#[test]
fn bus_fault_is_propagated_verbatim() {
    let mut port = RecordingPort::new();
    let mut drv = Il3820::new(&mut port, 8);
    port.write_fault = Some(42);
    assert_eq!(drv.clear(&mut port), Err(DriverError::Bus(42)));
    assert_eq!(drv.update(&mut port), Err(DriverError::Bus(42)));
}
