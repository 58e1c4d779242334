//! Driver for an IL3820-class bistable (e-paper) display controller on a
//! synchronous serial bus, together with the packed monochrome framebuffers
//! that feed it.
//!
//! The controller is reached through the capability trait
//! [`port::DisplayPort`]: a byte-write transport, three binary output lines
//! (chip select, data/command select, reset), one binary input line (busy
//! sense) and a millisecond delay provider. Every command the driver emits is
//! recorded in the port's ghost history, so the contracts pin down the exact
//! transport-level byte traffic of each operation.

pub mod framebuffer;
pub mod port;
pub mod driver;
pub mod recorder;
