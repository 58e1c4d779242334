//! An in-memory port that records everything the driver asks of it.
//!
//! This is the transport-level observer: tests (and any host-side harness)
//! drive the real `Il3820` against a [`RecordingPort`] and then read the
//! recorded traffic back, byte for byte. The implementation is verified
//! against the [`DisplayPort`] contract, so the executable log always
//! matches the ghost history the driver's contracts speak about. The port
//! can also simulate a stuck busy line or a failing transport.

use vstd::prelude::*;

use crate::port::{DisplayPort, PortEvent};

verus! {

/// One recorded port action, the executable mirror of [`PortEvent`].
#[derive(Debug, Clone, PartialEq, Eq)]
pub enum PortRecord {
    /// The chip-select line was driven to this level.
    Nss(bool),
    /// The data/command-select line was driven to this level.
    Dc(bool),
    /// The reset line was driven to this level.
    Rst(bool),
    /// The delay provider was asked for this many milliseconds.
    DelayMs(u8),
    /// These bytes went out over the transport in one transfer.
    Bytes(Vec<u8>),
}

impl View for PortRecord {
    type V = PortEvent;

    open spec fn view(&self) -> PortEvent {
        match self {
            PortRecord::Nss(level) => PortEvent::Nss(*level),
            PortRecord::Dc(level) => PortEvent::Dc(*level),
            PortRecord::Rst(level) => PortEvent::Rst(*level),
            PortRecord::DelayMs(ms) => PortEvent::DelayMs(*ms),
            PortRecord::Bytes(data) => PortEvent::Bytes(data@),
        }
    }
}

/// The history a recorded log stands for.
pub open spec fn record_views(log: Seq<PortRecord>) -> Seq<PortEvent> {
    log.map_values(|e: PortRecord| e@)
}

/// A port whose lines and transport go nowhere but into a log.
pub struct RecordingPort {
    /// Everything the driver asked for, oldest first.
    pub log: Vec<PortRecord>,
    /// The level the busy-sense line reports; `true` simulates a controller
    /// that is stuck busy.
    pub busy_level: bool,
    /// When set, every transfer fails with this error code instead of
    /// recording anything.
    pub write_fault: Option<u8>,
}

impl RecordingPort {
    /// A fresh port: nothing recorded, busy line ready, transfers succeed.
    pub fn new() -> (r: Self)
        ensures
            r.hist() == Seq::<PortEvent>::empty(),
            r.log@ == Seq::<PortRecord>::empty(),
            !r.busy_level,
            r.write_fault is None,
    {
        let r = RecordingPort { log: Vec::new(), busy_level: false, write_fault: None };
        proof {
            assert(record_views(r.log@) =~= Seq::<PortEvent>::empty());
        }
        r
    }
}

impl DisplayPort for RecordingPort {
    type Error = u8;

    open spec fn hist(&self) -> Seq<PortEvent> {
        record_views(self.log@)
    }

    fn set_nss(&mut self, level: bool) {
        self.log.push(PortRecord::Nss(level));
        proof {
            assert(record_views(self.log@) =~= record_views(old(self).log@).push(
                PortEvent::Nss(level),
            ));
        }
    }

    fn set_dc(&mut self, level: bool) {
        self.log.push(PortRecord::Dc(level));
        proof {
            assert(record_views(self.log@) =~= record_views(old(self).log@).push(
                PortEvent::Dc(level),
            ));
        }
    }

    fn set_rst(&mut self, level: bool) {
        self.log.push(PortRecord::Rst(level));
        proof {
            assert(record_views(self.log@) =~= record_views(old(self).log@).push(
                PortEvent::Rst(level),
            ));
        }
    }

    fn delay_ms(&mut self, ms: u8) {
        self.log.push(PortRecord::DelayMs(ms));
        proof {
            assert(record_views(self.log@) =~= record_views(old(self).log@).push(
                PortEvent::DelayMs(ms),
            ));
        }
    }

    fn busy(&self) -> bool {
        self.busy_level
    }

    fn write(&mut self, data: &[u8]) -> (r: Result<(), u8>) {
        match self.write_fault {
            Some(code) => Err(code),
            None => {
                let copied = vstd::slice::slice_to_vec(data);
                self.log.push(PortRecord::Bytes(copied));
                proof {
                    assert(record_views(self.log@) =~= record_views(old(self).log@).push(
                        PortEvent::Bytes(data@),
                    ));
                }
                Ok(())
            },
        }
    }
}

} // verus!
