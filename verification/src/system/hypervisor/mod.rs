//! The hypervisor of the first Violet design.
use vstd::prelude::*;

pub mod arch;
pub mod mm;
pub mod virtdev;

verus! {

/// Settings of the hypervisor.
pub struct Hypervisor {
    sched: i32,
}

impl Hypervisor {
    pub closed spec fn spec_sched(&self) -> i32 {
        self.sched
    }

    pub fn new() -> (r: Hypervisor)
        ensures
            r.spec_sched() == 0,
    {
        Hypervisor { sched: 0 }
    }
}

} // verus!
