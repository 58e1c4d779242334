//! The hardware capabilities the driver consumes, as one abstract port.
//!
//! The controller hangs off a synchronous byte-write transport plus three
//! binary output lines (chip select, data/command select, reset), one binary
//! input line (busy sense) and a millisecond delay provider. Rather than
//! naming any concrete peripheral types, the driver sees them as the methods
//! of [`DisplayPort`], and every externally visible action an implementation
//! performs is mirrored in its ghost history, so the driver's contracts can
//! state the exact transport-level traffic of each operation.

use vstd::prelude::*;

verus! {

/// One externally visible action of a display port, as recorded in its
/// history. Line events carry the driven level, `true` for high.
pub enum PortEvent {
    /// The chip-select line was driven to this level (low is active).
    Nss(bool),
    /// The data/command-select line was driven to this level (low selects
    /// command framing, high selects data framing).
    Dc(bool),
    /// The reset line was driven to this level (low asserts reset).
    Rst(bool),
    /// The delay provider blocked for this many milliseconds.
    DelayMs(u8),
    /// These bytes went out over the transport in one transfer.
    Bytes(Seq<u8>),
}

/// The capability set the driver owns: bus write, chip select, data/command
/// select, reset, busy sense and delay. An implementation's `hist` is the
/// ordered record of everything it was asked to do; each method appends
/// exactly its own event, so a verified caller knows the full traffic.
pub trait DisplayPort {
    /// The transport's own error type, propagated verbatim to the driver's
    /// caller when a transfer fails.
    type Error;

    /// Everything this port has been asked to do so far, oldest first.
    spec fn hist(&self) -> Seq<PortEvent>;

    /// Drive the chip-select line (low selects the controller).
    fn set_nss(&mut self, level: bool)
        ensures
            final(self).hist() == old(self).hist().push(PortEvent::Nss(level)),
    ;

    /// Drive the data/command-select line (low for command, high for data).
    fn set_dc(&mut self, level: bool)
        ensures
            final(self).hist() == old(self).hist().push(PortEvent::Dc(level)),
    ;

    /// Drive the reset line (low holds the controller in reset).
    fn set_rst(&mut self, level: bool)
        ensures
            final(self).hist() == old(self).hist().push(PortEvent::Rst(level)),
    ;

    /// Block for the given number of milliseconds.
    fn delay_ms(&mut self, ms: u8)
        ensures
            final(self).hist() == old(self).hist().push(PortEvent::DelayMs(ms)),
    ;

    /// Sample the busy-sense line: `true` while the controller is still
    /// processing. The level is the hardware's to choose, so nothing is
    /// promised about the result.
    fn busy(&self) -> bool;

    /// Transfer the given bytes over the transport. On success exactly these
    /// bytes went out; on failure the traffic is unknown.
    fn write(&mut self, data: &[u8]) -> (r: Result<(), Self::Error>)
        ensures
            r is Ok ==> final(self).hist() == old(self).hist().push(PortEvent::Bytes(data@)),
    ;
}

} // verus!
