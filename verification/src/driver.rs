//! The controller driver: command framing, busy-wait synchronization,
//! partial-versus-full refresh mode with mode-specific waveform tables, and
//! RAM-window addressing.
//!
//! Every operation's contract states, over the port's ghost history, the
//! exact transport-level traffic it emits on success. A failed transfer is
//! propagated verbatim and leaves the controller's hardware state unknown to
//! the caller, exactly as the error model demands; only the success case is
//! pinned down.

use vstd::prelude::*;

use crate::framebuffer::{BUF_BYTES, GetBuf};
use crate::port::{DisplayPort, PortEvent};

verus! {

/// Why a driver operation failed.
#[derive(Debug, PartialEq, Eq)]
pub enum DriverError<E> {
    /// The transport reported this error; it is passed through verbatim.
    Bus(E),
    /// The busy-sense line never went ready within the configured number of
    /// polls.
    DeviceNotResponding,
}

/// The opening of a command frame: select the chip, command level on the
/// data/command line, the opcode over the transport. The chip stays
/// selected so that a payload can follow in the same frame.
pub open spec fn frame_head(c: u8) -> Seq<PortEvent> {
    seq![PortEvent::Nss(false), PortEvent::Dc(false), PortEvent::Bytes(seq![c])]
}

/// The framing of a command without payload: select the chip, command level
/// on the data/command line, the opcode over the transport, deselect.
pub open spec fn cmd_events(c: u8) -> Seq<PortEvent> {
    frame_head(c).push(PortEvent::Nss(true))
}

/// The framing of a command with its payload, in one chip-select frame:
/// select the chip, the opcode at command level, then the payload at data
/// level, and only then deselect.
pub open spec fn cmd_data_events(c: u8, data: Seq<u8>) -> Seq<PortEvent> {
    frame_head(c) + seq![PortEvent::Dc(true), PortEvent::Bytes(data), PortEvent::Nss(true)]
}

/// The hardware reset handshake: hold reset low for a millisecond, release,
/// wait another millisecond.
pub open spec fn reset_events() -> Seq<PortEvent> {
    seq![
        PortEvent::Rst(false),
        PortEvent::DelayMs(1),
        PortEvent::Rst(true),
        PortEvent::DelayMs(1),
    ]
}

/// The 30-byte waveform table for a full refresh: slower, with a visible
/// flash, but it fully cycles the pixels and clears ghosting.
pub open spec fn lut_full() -> Seq<u8> {
    seq![
        0x50u8, 0xAA, 0x55, 0xAA, 0x11, 0x00, 0x00, 0x00, 0x00, 0x00, 0x00, 0x00, 0x00, 0x00,
        0x00, 0x00, 0x00, 0x00, 0x00, 0x00, 0xFF, 0xFF, 0x1F, 0x00, 0x00, 0x00, 0x00, 0x00,
        0x00, 0x00,
    ]
}

/// The 30-byte waveform table for a partial refresh: fast and flicker-free
/// at the cost of some residual ghosting.
pub open spec fn lut_part() -> Seq<u8> {
    seq![
        0x10u8, 0x18, 0x18, 0x08, 0x18, 0x18, 0x08, 0x00, 0x00, 0x00, 0x00, 0x00, 0x00, 0x00,
        0x00, 0x00, 0x00, 0x00, 0x00, 0x00, 0x13, 0x14, 0x44, 0x12, 0x00, 0x00, 0x00, 0x00,
        0x00, 0x00,
    ]
}

/// Law: both vendor waveform tables are exactly 30 bytes, the length the
/// write-LUT command expects.
pub proof fn lemma_waveform_tables_are_30_bytes()
    ensures
        lut_full().len() == 30,
        lut_part().len() == 30,
{
}

/// The full initialization sequence for the given mode: driver output
/// control, booster soft start, VCOM voltage, dummy line period, gate line
/// width, RAM data-entry mode, the RAM X and Y windows and pointers, the
/// mode's waveform table, and the power-on sequence.
pub open spec fn init_events(partial: bool) -> Seq<PortEvent> {
    cmd_data_events(0x01, seq![0x27u8, 0x01, 0x00]) + cmd_data_events(
        0x0c,
        seq![0xd7u8, 0xd6, 0x9d],
    ) + cmd_data_events(0x2c, seq![0xa8u8]) + cmd_data_events(0x3a, seq![0x1au8])
        + cmd_data_events(0x3b, seq![0x08u8]) + cmd_data_events(0x11, seq![0x03u8])
        + cmd_data_events(0x44, seq![0x00u8, 0x0f]) + cmd_data_events(
        0x45,
        seq![0x00u8, 0x00, 0x27, 0x01],
    ) + cmd_data_events(0x4e, seq![0x00u8]) + cmd_data_events(0x4f, seq![0x00u8, 0x00])
        + cmd_data_events(0x32, if partial { lut_part() } else { lut_full() }) + cmd_data_events(
        0x22,
        seq![0xc3u8],
    ) + cmd_events(0x20)
}

/// The update trigger: display-update control 2 with the refresh control
/// byte, master activation, and the family's terminator command.
pub open spec fn refresh_events() -> Seq<PortEvent> {
    cmd_data_events(0x22, seq![0xc4u8]) + cmd_events(0x20) + cmd_events(0xff)
}

/// The power-off tail: display-update control 2 with the power-sequence
/// control byte, then master activation.
pub open spec fn power_off_events() -> Seq<PortEvent> {
    cmd_data_events(0x22, seq![0xc3u8]) + cmd_events(0x20)
}

/// `n` single-byte background transfers, as `clear` streams them into the
/// display RAM.
pub open spec fn blank_byte_events(n: int) -> Seq<PortEvent>
    decreases n,
{
    if n <= 0 {
        Seq::empty()
    } else {
        blank_byte_events(n - 1).push(PortEvent::Bytes(seq![0xffu8]))
    }
}

/// The single write-RAM frame `clear` emits: the write-RAM opcode at
/// command level, then one background byte per packed buffer byte at data
/// level, all under one chip select.
pub open spec fn clear_frame_events() -> Seq<PortEvent> {
    frame_head(0x24).push(PortEvent::Dc(true)) + blank_byte_events(BUF_BYTES as int) + seq![
        PortEvent::Nss(true),
    ]
}

/// Everything `clear` emits: a full-mode initialization, the write-RAM
/// frame full of background bytes, then the update trigger.
pub open spec fn clear_events() -> Seq<PortEvent> {
    init_events(false) + clear_frame_events() + refresh_events()
}

/// The controller driver. It owns two state flags: `partial` is the refresh
/// mode the caller asked for, and `is_inited` records whether the
/// controller's RAM-window and waveform registers currently reflect that
/// mode. `is_inited` is false whenever the mode has changed since the last
/// hardware initialization, and any operation that needs fresh state re-runs
/// initialization before proceeding.
pub struct Il3820 {
    partial: bool,
    is_inited: bool,
    busy_polls: u32,
}

impl Il3820 {
    /// Whether the driver is set up for partial refresh.
    pub closed spec fn partial_mode(&self) -> bool {
        self.partial
    }

    /// Whether the controller's registers reflect the current mode.
    pub closed spec fn initialized(&self) -> bool {
        self.is_inited
    }

    /// How many times a command may poll the busy-sense line before giving
    /// up with `DeviceNotResponding`.
    pub closed spec fn busy_limit(&self) -> u32 {
        self.busy_polls
    }

    /// Whether the driver is set up for partial refresh.
    pub fn is_partial(&self) -> (r: bool)
        ensures
            r == self.partial_mode(),
    {
        self.partial
    }

    /// Whether the controller's registers reflect the current mode.
    pub fn is_initialized(&self) -> (r: bool)
        ensures
            r == self.initialized(),
    {
        self.is_inited
    }
}

/// The driver state after a `set_partial` call: entering partial mode
/// invalidates the hardware initialization; asking again for the mode
/// already in force changes nothing.
pub closed spec fn spec_set_partial(d: Il3820) -> Il3820 {
    if !d.partial {
        Il3820 { partial: true, is_inited: false, ..d }
    } else {
        d
    }
}

/// The driver state after a `set_full` call, mirror image of
/// `spec_set_partial`.
pub closed spec fn spec_set_full(d: Il3820) -> Il3820 {
    if d.partial {
        Il3820 { partial: false, is_inited: false, ..d }
    } else {
        d
    }
}

/// Law: mode switches are idempotent. A second `set_partial` right after a
/// first leaves the whole driver state, `initialized` included, exactly
/// where the first left it; only an actual mode change invalidates state.
pub proof fn lemma_set_partial_idempotent(d: Il3820)
    ensures
        spec_set_partial(spec_set_partial(d)) == spec_set_partial(d),
{
}

/// Law: mode switches are idempotent, `set_full` side.
pub proof fn lemma_set_full_idempotent(d: Il3820)
    ensures
        spec_set_full(spec_set_full(d)) == spec_set_full(d),
{
}

impl Il3820 {
    /// Switch to partial refresh mode. Only an actual change of mode forces
    /// reinitialization; repeated calls with the same mode are no-ops.
    pub fn set_partial(&mut self)
        ensures
            *final(self) == spec_set_partial(*old(self)),
            final(self).partial_mode(),
            final(self).initialized() == (old(self).partial_mode() && old(self).initialized()),
            final(self).busy_limit() == old(self).busy_limit(),
    {
        if !self.partial {
            self.partial = true;
            self.is_inited = false;
        }
    }

    /// Switch to full refresh mode. Only an actual change of mode forces
    /// reinitialization; repeated calls with the same mode are no-ops.
    pub fn set_full(&mut self)
        ensures
            *final(self) == spec_set_full(*old(self)),
            !final(self).partial_mode(),
            final(self).initialized() == (!old(self).partial_mode() && old(self).initialized()),
            final(self).busy_limit() == old(self).busy_limit(),
    {
        if self.partial {
            self.partial = false;
            self.is_inited = false;
        }
    }

    /// Construct a driver over the given port and perform the hardware reset
    /// handshake. The fresh driver is in partial mode with no controller
    /// state initialized, so the first display operation runs the full
    /// initialization. `busy_polls` bounds how often a command polls the
    /// busy-sense line before failing with `DeviceNotResponding`.
    pub fn new<P: DisplayPort>(port: &mut P, busy_polls: u32) -> (r: Self)
        ensures
            r.partial_mode(),
            !r.initialized(),
            r.busy_limit() == busy_polls,
            final(port).hist() == old(port).hist() + reset_events(),
    {
        let mut res = Il3820 { partial: true, is_inited: false, busy_polls };
        res.reset(port);
        res
    }

    /// Pulse the reset line: hold it low for a millisecond, release it, and
    /// give the controller another millisecond to come up. The driver's own
    /// flags are untouched.
    pub fn reset<P: DisplayPort>(&mut self, port: &mut P)
        ensures
            *final(self) == *old(self),
            final(port).hist() == old(port).hist() + reset_events(),
    {
        port.set_rst(false);
        port.delay_ms(1);
        port.set_rst(true);
        port.delay_ms(1);
        proof {
            assert(port.hist() =~= old(port).hist() + reset_events());
        }
    }

    /// Poll the busy-sense line until the controller reports ready, up to
    /// the configured number of polls. Polling drives no line and transfers
    /// nothing, so the port's history is unchanged. With a zero budget no
    /// poll is made and the controller never counts as ready.
    fn wait_until_ready<P: DisplayPort>(&self, port: &mut P) -> (ready: bool)
        ensures
            final(port).hist() == old(port).hist(),
            self.busy_limit() == 0 ==> !ready,
    {
        let ghost h0 = port.hist();
        let mut polls: u32 = 0;
        while polls < self.busy_polls
            invariant
                port.hist() == h0,
            decreases self.busy_polls - polls,
        {
            if !port.busy() {
                return true;
            }
            polls = polls + 1;
        }
        false
    }

    /// Open a command frame: select the chip, wait for the busy-sense
    /// handshake, drive the data/command line to command level and transfer
    /// the opcode. The chip stays selected so that the caller can put a
    /// payload into the same frame. When the controller never reports
    /// ready, only the chip select has been driven.
    fn begin_cmd<P: DisplayPort>(&self, port: &mut P, c: u8) -> (r: Result<
        (),
        DriverError<P::Error>,
    >)
        ensures
            r is Ok ==> final(port).hist() == old(port).hist() + frame_head(c),
            r matches Err(DriverError::DeviceNotResponding) ==> final(port).hist() == old(
                port,
            ).hist().push(PortEvent::Nss(false)),
            self.busy_limit() == 0 ==> (r matches Err(DriverError::DeviceNotResponding)),
    {
        port.set_nss(false);
        if !self.wait_until_ready(port) {
            return Err(DriverError::DeviceNotResponding);
        }
        port.set_dc(false);
        let opcode: [u8; 1] = [c];
        match port.write(opcode.as_slice()) {
            Ok(()) => {},
            Err(e) => {
                return Err(DriverError::Bus(e));
            },
        }
        proof {
            assert(opcode@ =~= seq![c]);
            assert(port.hist() =~= old(port).hist() + frame_head(c));
        }
        Ok(())
    }

    /// Send one command without payload under the canonical framing: select
    /// the chip, wait for the busy-sense handshake, transfer the opcode at
    /// command level, deselect.
    fn cmd<P: DisplayPort>(&self, port: &mut P, c: u8) -> (r: Result<(), DriverError<P::Error>>)
        ensures
            r is Ok ==> final(port).hist() == old(port).hist() + cmd_events(c),
            r matches Err(DriverError::DeviceNotResponding) ==> final(port).hist() == old(
                port,
            ).hist().push(PortEvent::Nss(false)),
            self.busy_limit() == 0 ==> (r matches Err(DriverError::DeviceNotResponding)),
    {
        match self.begin_cmd(port, c) {
            Ok(()) => {},
            Err(e) => {
                return Err(e);
            },
        }
        port.set_nss(true);
        proof {
            assert(port.hist() =~= old(port).hist() + cmd_events(c));
        }
        Ok(())
    }

    /// Send one command and its payload in a single chip-select frame:
    /// select the chip, wait for the busy-sense handshake, transfer the
    /// opcode at command level, switch the data/command line to data level,
    /// transfer the payload, and only then deselect.
    fn cmd_with_data<P: DisplayPort>(&self, port: &mut P, c: u8, data: &[u8]) -> (r: Result<
        (),
        DriverError<P::Error>,
    >)
        ensures
            r is Ok ==> final(port).hist() == old(port).hist() + cmd_data_events(c, data@),
            self.busy_limit() == 0 ==> r is Err,
    {
        self.begin_cmd(port, c)?;
        port.set_dc(true);
        match port.write(data) {
            Ok(()) => {},
            Err(e) => {
                return Err(DriverError::Bus(e));
            },
        }
        port.set_nss(true);
        proof {
            assert(port.hist() =~= old(port).hist() + cmd_data_events(c, data@));
        }
        Ok(())
    }

    /// Write the controller's mode registers for the current mode: the
    /// opcode-level initialization sequence, the mode's waveform table, and
    /// the power-on sequence. Afterwards the hardware reflects the mode and
    /// `initialized` holds.
    fn init<P: DisplayPort>(&mut self, port: &mut P) -> (r: Result<(), DriverError<P::Error>>)
        ensures
            final(self).partial_mode() == old(self).partial_mode(),
            final(self).busy_limit() == old(self).busy_limit(),
            r is Err ==> *final(self) == *old(self),
            old(self).busy_limit() == 0 ==> r is Err,
            r is Ok ==> ({
                &&& final(self).initialized()
                &&& final(port).hist() == old(port).hist() + init_events(old(self).partial_mode())
            }),
    {
        let out_ctrl: [u8; 3] = [0x27, 0x01, 0x00];
        self.cmd_with_data(port, 0x01, out_ctrl.as_slice())?;
        let soft_start: [u8; 3] = [0xd7, 0xd6, 0x9d];
        self.cmd_with_data(port, 0x0c, soft_start.as_slice())?;
        let vcom: [u8; 1] = [0xa8];
        self.cmd_with_data(port, 0x2c, vcom.as_slice())?;
        let dummy_line: [u8; 1] = [0x1a];
        self.cmd_with_data(port, 0x3a, dummy_line.as_slice())?;
        let gate_width: [u8; 1] = [0x08];
        self.cmd_with_data(port, 0x3b, gate_width.as_slice())?;
        let entry_mode: [u8; 1] = [0x03];
        self.cmd_with_data(port, 0x11, entry_mode.as_slice())?;
        let x_window: [u8; 2] = [0x00, 0x0f];
        self.cmd_with_data(port, 0x44, x_window.as_slice())?;
        let y_window: [u8; 4] = [0x00, 0x00, 0x27, 0x01];
        self.cmd_with_data(port, 0x45, y_window.as_slice())?;
        let x_pointer: [u8; 1] = [0x00];
        self.cmd_with_data(port, 0x4e, x_pointer.as_slice())?;
        let y_pointer: [u8; 2] = [0x00, 0x00];
        self.cmd_with_data(port, 0x4f, y_pointer.as_slice())?;
        if self.partial {
            let lut = lut_part_bytes();
            self.cmd_with_data(port, 0x32, lut.as_slice())?;
        } else {
            let lut = lut_full_bytes();
            self.cmd_with_data(port, 0x32, lut.as_slice())?;
        }
        let power_on: [u8; 1] = [0xc3];
        self.cmd_with_data(port, 0x22, power_on.as_slice())?;
        self.cmd(port, 0x20)?;
        self.is_inited = true;
        proof {
            assert(out_ctrl@ =~= seq![0x27u8, 0x01, 0x00]);
            assert(soft_start@ =~= seq![0xd7u8, 0xd6, 0x9d]);
            assert(vcom@ =~= seq![0xa8u8]);
            assert(dummy_line@ =~= seq![0x1au8]);
            assert(gate_width@ =~= seq![0x08u8]);
            assert(entry_mode@ =~= seq![0x03u8]);
            assert(x_window@ =~= seq![0x00u8, 0x0f]);
            assert(y_window@ =~= seq![0x00u8, 0x00, 0x27, 0x01]);
            assert(x_pointer@ =~= seq![0x00u8]);
            assert(y_pointer@ =~= seq![0x00u8, 0x00]);
            assert(power_on@ =~= seq![0xc3u8]);
            assert(port.hist() =~= old(port).hist() + init_events(old(self).partial_mode()));
        }
        Ok(())
    }

    /// Stream a framebuffer's packed bytes into the display RAM with the
    /// write-RAM command, initializing the controller for the current mode
    /// first if its registers are stale.
    pub fn set_display<P: DisplayPort, D: GetBuf>(
        &mut self,
        port: &mut P,
        display: &D,
    ) -> (r: Result<(), DriverError<P::Error>>)
        ensures
            final(self).partial_mode() == old(self).partial_mode(),
            final(self).busy_limit() == old(self).busy_limit(),
            old(self).busy_limit() == 0 ==> r is Err,
            r is Ok ==> ({
                &&& final(self).initialized()
                &&& final(port).hist() == old(port).hist() + (if old(self).initialized() {
                    Seq::<PortEvent>::empty()
                } else {
                    init_events(old(self).partial_mode())
                }) + cmd_data_events(0x24, display.buf())
            }),
    {
        if !self.is_inited {
            self.init(port)?;
        }
        let r = self.cmd_with_data(port, 0x24, display.get_buf());
        proof {
            if r is Ok {
                assert(port.hist() =~= old(port).hist() + (if old(self).initialized() {
                    Seq::<PortEvent>::empty()
                } else {
                    init_events(old(self).partial_mode())
                }) + cmd_data_events(0x24, display.buf()));
            }
        }
        r
    }

    /// Latch and render what was streamed into the display RAM: the
    /// display-update control sequence, master activation, and the
    /// terminator command, initializing the controller first if its
    /// registers are stale.
    pub fn update<P: DisplayPort>(&mut self, port: &mut P) -> (r: Result<
        (),
        DriverError<P::Error>,
    >)
        ensures
            final(self).partial_mode() == old(self).partial_mode(),
            final(self).busy_limit() == old(self).busy_limit(),
            old(self).busy_limit() == 0 ==> r is Err,
            r is Ok ==> ({
                &&& final(self).initialized()
                &&& final(port).hist() == old(port).hist() + (if old(self).initialized() {
                    Seq::<PortEvent>::empty()
                } else {
                    init_events(old(self).partial_mode())
                }) + refresh_events()
            }),
    {
        if !self.is_inited {
            self.init(port)?;
        }
        let refresh_ctrl: [u8; 1] = [0xc4];
        self.cmd_with_data(port, 0x22, refresh_ctrl.as_slice())?;
        self.cmd(port, 0x20)?;
        let r = self.cmd(port, 0xff);
        proof {
            assert(refresh_ctrl@ =~= seq![0xc4u8]);
            if r is Ok {
                assert(port.hist() =~= old(port).hist() + (if old(self).initialized() {
                    Seq::<PortEvent>::empty()
                } else {
                    init_events(old(self).partial_mode())
                }) + refresh_events());
            }
        }
        r
    }

    /// Put the mode flag back to what the caller had chosen before `clear`
    /// forced full mode. An actual change of mode leaves the controller's
    /// registers stale, so `initialized` then comes out false.
    fn restore_mode(&mut self, was_partial: bool)
        ensures
            final(self).partial_mode() == was_partial,
            final(self).busy_limit() == old(self).busy_limit(),
            final(self).initialized() == (old(self).partial_mode() == was_partial && old(
                self,
            ).initialized()),
    {
        if was_partial != self.partial {
            self.partial = was_partial;
            self.is_inited = false;
        }
    }

    /// Force a known-blank physical display regardless of prior content, at
    /// the cost of a full-refresh cycle: initialize for full mode, stream
    /// one background byte per packed buffer byte into the display RAM in a
    /// single write-RAM frame, and trigger an update. The mode the caller
    /// had chosen is restored on every exit, failure included; when that
    /// mode was partial, the internally forced full-mode cycle leaves the
    /// controller's registers stale, so `initialized` comes out false.
    pub fn clear<P: DisplayPort>(&mut self, port: &mut P) -> (r: Result<
        (),
        DriverError<P::Error>,
    >)
        ensures
            final(self).partial_mode() == old(self).partial_mode(),
            final(self).busy_limit() == old(self).busy_limit(),
            old(self).partial_mode() ==> !final(self).initialized(),
            old(self).busy_limit() == 0 ==> r is Err,
            r is Ok ==> ({
                &&& final(self).initialized() == !old(self).partial_mode()
                &&& final(port).hist() == old(port).hist() + clear_events()
            }),
    {
        let was_partial = self.partial;
        self.partial = false;
        match self.init(port) {
            Ok(()) => {},
            Err(e) => {
                self.restore_mode(was_partial);
                return Err(e);
            },
        }
        match self.begin_cmd(port, 0x24) {
            Ok(()) => {},
            Err(e) => {
                self.restore_mode(was_partial);
                return Err(e);
            },
        }
        port.set_dc(true);
        let ghost mid = port.hist();
        let mut i: usize = 0;
        while i < BUF_BYTES
            invariant
                i <= BUF_BYTES,
                port.hist() == mid + blank_byte_events(i as int),
                !self.partial_mode(),
                self.initialized(),
                self.busy_limit() == old(self).busy_limit(),
                was_partial == old(self).partial_mode(),
            decreases BUF_BYTES - i,
        {
            let blank: [u8; 1] = [0xff];
            match port.write(blank.as_slice()) {
                Ok(()) => {},
                Err(e) => {
                    self.restore_mode(was_partial);
                    return Err(DriverError::Bus(e));
                },
            }
            proof {
                assert(blank@ =~= seq![0xffu8]);
                assert(port.hist() =~= mid + blank_byte_events(i as int + 1));
            }
            i += 1;
        }
        port.set_nss(true);
        match self.update(port) {
            Ok(()) => {},
            Err(e) => {
                self.restore_mode(was_partial);
                return Err(e);
            },
        }
        self.restore_mode(was_partial);
        proof {
            assert(port.hist() =~= old(port).hist() + clear_events());
        }
        Ok(())
    }

    /// Law (transport-level full-refresh transcript): forcing full mode and
    /// then streaming a frame and triggering an update emits the full-mode
    /// initialization sequence — carrying the full-refresh waveform table —
    /// exactly once, before the write-RAM command, followed by the frame's
    /// packed bytes and the update trigger. Only a driver already
    /// initialized for full mode skips the initialization.
    pub fn full_refresh<P: DisplayPort, D: GetBuf>(
        &mut self,
        port: &mut P,
        display: &D,
    ) -> (r: Result<(), DriverError<P::Error>>)
        ensures
            !final(self).partial_mode(),
            final(self).busy_limit() == old(self).busy_limit(),
            old(self).busy_limit() == 0 ==> r is Err,
            r is Ok ==> ({
                &&& final(self).initialized()
                &&& final(port).hist() == old(port).hist() + (if !old(self).partial_mode()
                    && old(self).initialized() {
                    Seq::<PortEvent>::empty()
                } else {
                    init_events(false)
                }) + cmd_data_events(0x24, display.buf()) + refresh_events()
            }),
    {
        self.set_full();
        self.set_display(port, display)?;
        let r = self.update(port);
        proof {
            if r is Ok {
                assert(port.hist() =~= old(port).hist() + (if !old(self).partial_mode()
                    && old(self).initialized() {
                    Seq::<PortEvent>::empty()
                } else {
                    init_events(false)
                }) + cmd_data_events(0x24, display.buf()) + refresh_events());
            }
        }
        r
    }

    /// Run the controller's power-off sequence. The mode is kept, but the
    /// controller state no longer counts as initialized, so the next display
    /// operation re-runs initialization.
    pub fn power_off<P: DisplayPort>(&mut self, port: &mut P) -> (r: Result<
        (),
        DriverError<P::Error>,
    >)
        ensures
            final(self).partial_mode() == old(self).partial_mode(),
            final(self).busy_limit() == old(self).busy_limit(),
            r is Err ==> *final(self) == *old(self),
            old(self).busy_limit() == 0 ==> r is Err,
            r is Ok ==> ({
                &&& !final(self).initialized()
                &&& final(port).hist() == old(port).hist() + power_off_events()
            }),
    {
        let power_seq: [u8; 1] = [0xc3];
        self.cmd_with_data(port, 0x22, power_seq.as_slice())?;
        self.cmd(port, 0x20)?;
        self.is_inited = false;
        proof {
            assert(power_seq@ =~= seq![0xc3u8]);
            assert(port.hist() =~= old(port).hist() + power_off_events());
        }
        Ok(())
    }
}

/// The full-refresh waveform table as bytes ready to transfer.
fn lut_full_bytes() -> (r: [u8; 30])
    ensures
        r@ == lut_full(),
{
    let lut: [u8; 30] = [
        0x50, 0xAA, 0x55, 0xAA, 0x11, 0x00, 0x00, 0x00, 0x00, 0x00, 0x00, 0x00, 0x00, 0x00, 0x00,
        0x00, 0x00, 0x00, 0x00, 0x00, 0xFF, 0xFF, 0x1F, 0x00, 0x00, 0x00, 0x00, 0x00, 0x00, 0x00,
    ];
    proof {
        assert(lut@ =~= lut_full());
    }
    lut
}

/// The partial-refresh waveform table as bytes ready to transfer.
fn lut_part_bytes() -> (r: [u8; 30])
    ensures
        r@ == lut_part(),
{
    let lut: [u8; 30] = [
        0x10, 0x18, 0x18, 0x08, 0x18, 0x18, 0x08, 0x00, 0x00, 0x00, 0x00, 0x00, 0x00, 0x00, 0x00,
        0x00, 0x00, 0x00, 0x00, 0x00, 0x13, 0x14, 0x44, 0x12, 0x00, 0x00, 0x00, 0x00, 0x00, 0x00,
    ];
    proof {
        assert(lut@ =~= lut_part());
    }
    lut
}

} // verus!
