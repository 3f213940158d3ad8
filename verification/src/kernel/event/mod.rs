//! Events: interrupts and exceptions.
use vstd::prelude::*;

verus! {

pub struct EventManager {}

pub struct Event {}

/// General events; each has a number (see `number`).
#[derive(PartialEq, Eq, Structural, Clone, Copy, Debug)]
pub enum GeneralEventNumber {
    NoneEvent,
    Nmi,
    Ipi,
    TimerInterrupt,
    ExternalInterrupt,
    PageFault,
    UnknownInstruction,
    GeneralEvent,
}

impl GeneralEventNumber {
    /// The event's number: 0 to 6 in order, and 32 for `GeneralEvent`.
    pub fn number(&self) -> (r: usize)
        ensures
            r == match *self {
                GeneralEventNumber::NoneEvent => 0usize,
                GeneralEventNumber::Nmi => 1,
                GeneralEventNumber::Ipi => 2,
                GeneralEventNumber::TimerInterrupt => 3,
                GeneralEventNumber::ExternalInterrupt => 4,
                GeneralEventNumber::PageFault => 5,
                GeneralEventNumber::UnknownInstruction => 6,
                GeneralEventNumber::GeneralEvent => 32,
            },
    {
        match self {
            GeneralEventNumber::NoneEvent => 0,
            GeneralEventNumber::Nmi => 1,
            GeneralEventNumber::Ipi => 2,
            GeneralEventNumber::TimerInterrupt => 3,
            GeneralEventNumber::ExternalInterrupt => 4,
            GeneralEventNumber::PageFault => 5,
            GeneralEventNumber::UnknownInstruction => 6,
            GeneralEventNumber::GeneralEvent => 32,
        }
    }
}

} // verus!
