//! A virtual PLIC with a threshold and a claim/complete register; every
//! other register reads as zero and ignores writes.
use vstd::prelude::*;

verus! {

/// Offset of the threshold register.
pub const PRIORITY_THRESHOLD: usize = 0x1000;
/// Offset of the claim/complete register.
pub const CLAIM_COMPLETE: usize = 0x1004;

/// A virtual register of 32 bits.
pub trait VirtualRegister {
    /// The value a read gives.
    spec fn reg_value(&self) -> u32;

    /// The register's value after the guest writes `val`.
    spec fn value_after_write(&self, val: u32) -> u32;

    /// The register's value after a read.
    spec fn value_after_read(&self) -> u32;

    fn write(&mut self, val: u32)
        ensures
            final(self).reg_value() == old(self).value_after_write(val),
    ;

    fn read(&mut self) -> (r: u32)
        ensures
            r == old(self).reg_value(),
            final(self).reg_value() == old(self).value_after_read(),
    ;
}

/// Threshold register: keeps the three low bits written.
pub struct PriorityThresholdReg {
    reg: u32,
}

impl PriorityThresholdReg {
    pub closed spec fn value(&self) -> u32 {
        self.reg
    }

    pub fn new() -> (r: Self)
        ensures
            r.value() == 0,
    {
        PriorityThresholdReg { reg: 0 }
    }
}

impl VirtualRegister for PriorityThresholdReg {
    open spec fn reg_value(&self) -> u32 {
        self.value()
    }

    /// The three low bits of `val` are kept.
    open spec fn value_after_write(&self, val: u32) -> u32 {
        val & 0x7
    }

    open spec fn value_after_read(&self) -> u32 {
        self.value()
    }

    fn write(&mut self, val: u32)
        ensures
            final(self).value() == val & 0x7,
    {
        self.reg = val & 0x7;
    }

    fn read(&mut self) -> (r: u32)
        ensures
            r == old(self).value(),
            final(self).value() == old(self).value(),
    {
        self.reg
    }
}

/// Holds the value written until it is read; a read clears it.
pub struct ClaimCompReg {
    reg: u32,
}

impl ClaimCompReg {
    pub closed spec fn value(&self) -> u32 {
        self.reg
    }

    pub fn new() -> (r: Self)
        ensures
            r.value() == 0,
    {
        ClaimCompReg { reg: 0 }
    }
}

impl VirtualRegister for ClaimCompReg {
    open spec fn reg_value(&self) -> u32 {
        self.value()
    }

    /// A write stores `val`.
    open spec fn value_after_write(&self, val: u32) -> u32 {
        val
    }

    /// A read clears the register.
    open spec fn value_after_read(&self) -> u32 {
        0
    }

    fn write(&mut self, val: u32)
        ensures
            final(self).value() == val,
    {
        self.reg = val;
    }

    fn read(&mut self) -> (r: u32)
        ensures
            r == old(self).value(),
            final(self).value() == 0,
    {
        let result = self.reg;
        self.reg = 0;
        result
    }
}

/// Reads as zero and ignores writes.
pub struct ZeroReg {
    reg: u32,
}

impl ZeroReg {
    /// The value held, which reads never show.
    pub closed spec fn value(&self) -> u32 {
        self.reg
    }

    pub fn new() -> (r: Self)
        ensures
            r.value() == 0,
    {
        ZeroReg { reg: 0 }
    }
}

impl VirtualRegister for ZeroReg {
    /// Reads give 0.
    open spec fn reg_value(&self) -> u32 {
        0
    }

    open spec fn value_after_write(&self, val: u32) -> u32 {
        0
    }

    open spec fn value_after_read(&self) -> u32 {
        0
    }

    fn write(&mut self, val: u32) {
    }

    fn read(&mut self) -> (r: u32)
        ensures
            r == 0,
    {
        0
    }
}

pub struct VPlic {
    priority_threshold: PriorityThresholdReg,
    claim_comp: ClaimCompReg,
    zero: ZeroReg,
}

impl VPlic {
    pub closed spec fn threshold_value(&self) -> u32 {
        self.priority_threshold.value()
    }

    pub closed spec fn claim_value(&self) -> u32 {
        self.claim_comp.value()
    }

    pub fn new() -> (r: Self)
        ensures
            r.threshold_value() == 0,
            r.claim_value() == 0,
    {
        VPlic { priority_threshold: PriorityThresholdReg::new(), claim_comp: ClaimCompReg::new(), zero: ZeroReg::new() }
    }

    /// Writes a register. A threshold write returns the threshold to program
    /// in the physical interrupt controller.
    pub fn write32(&mut self, addr: usize, val: u32) -> (r: Option<u32>)
        ensures
            addr == PRIORITY_THRESHOLD ==> final(self).threshold_value() == val & 0x7 && r == Some(val & 0x7)
                && final(self).claim_value() == old(self).claim_value(),
            addr == CLAIM_COMPLETE ==> final(self).claim_value() == val && r is None && final(self).threshold_value()
                == old(self).threshold_value(),
            addr != PRIORITY_THRESHOLD && addr != CLAIM_COMPLETE ==> r is None && final(self).claim_value() == old(self).claim_value() && final(self).threshold_value() == old(self).threshold_value(),
    {
        if addr == PRIORITY_THRESHOLD {
            self.priority_threshold.write(val);
            Some(self.priority_threshold.reg)
        } else if addr == CLAIM_COMPLETE {
            self.claim_comp.write(val);
            None
        } else {
            self.zero.write(val);
            None
        }
    }

    /// Reads a register; a read of the claim/complete register clears it.
    pub fn read32(&mut self, addr: usize) -> (r: u32)
        ensures
            final(self).threshold_value() == old(self).threshold_value(),
            addr == PRIORITY_THRESHOLD ==> r == old(self).threshold_value() && final(self).claim_value() == old(self).claim_value(),
            addr == CLAIM_COMPLETE ==> r == old(self).claim_value() && final(self).claim_value() == 0,
            addr != PRIORITY_THRESHOLD && addr != CLAIM_COMPLETE ==> r == 0 && final(self).claim_value() == old(self).claim_value(),
    {
        if addr == PRIORITY_THRESHOLD {
            self.priority_threshold.read()
        } else if addr == CLAIM_COMPLETE {
            self.claim_comp.read()
        } else {
            self.zero.read()
        }
    }
}

} // verus!
