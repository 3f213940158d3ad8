//! A virtual register that holds a fixed value.
use vstd::prelude::*;
use super::VirtualRegisterT;

verus! {

/// Reads give the value it was made with; writes are ignored.
pub struct Vreg {
    val: u64,
}

impl Vreg {
    pub closed spec fn value(&self) -> u64 {
        self.val
    }

    pub fn new(vcpuid: u64) -> (r: Self)
        ensures
            r.value() == vcpuid,
    {
        Vreg { val: vcpuid }
    }
}

impl VirtualRegisterT for Vreg {
    open spec fn reg_value(&self) -> u64 {
        self.value()
    }

    /// Writes are ignored.
    open spec fn value_after_write(&self, val: u64) -> u64 {
        self.value()
    }

    open spec fn value_after_read(&self) -> u64 {
        self.value()
    }

    fn write(&mut self, val: u64)
        ensures
            final(self).value() == old(self).value(),
    {
    }

    fn read(&mut self) -> (r: u64)
        ensures
            r == old(self).value(),
            final(self).value() == old(self).value(),
    {
        self.val
    }
}

} // verus!
