//! A minimal virtual PLIC: one claim/complete register; every other register
//! reads as zero and ignores writes.
use vstd::prelude::*;

verus! {

/// Offset of the claim/complete register.
pub const CLAIM_COMPLETE: usize = 0x1004;

/// A virtual register of 32 bits.
pub trait VirtualRegister {
    /// The value a read gives.
    spec fn reg_value(&self) -> u32;

    /// The register's value after the guest writes `val`.
    spec fn value_after_write(&self, val: u32) -> u32;

    /// The register's value after a read.
    spec fn value_after_read(&self) -> u32;

    fn write(&mut self, val: u32)
        ensures
            final(self).reg_value() == old(self).value_after_write(val),
    ;

    fn read(&mut self) -> (r: u32)
        ensures
            r == old(self).reg_value(),
            final(self).reg_value() == old(self).value_after_read(),
    ;
}

/// Holds the value written until it is read; a read clears it.
pub struct ClaimCompReg {
    reg: u32,
}

impl ClaimCompReg {
    pub closed spec fn value(&self) -> u32 {
        self.reg
    }

    pub fn new() -> (r: Self)
        ensures
            r.value() == 0,
    {
        ClaimCompReg { reg: 0 }
    }
}

impl VirtualRegister for ClaimCompReg {
    open spec fn reg_value(&self) -> u32 {
        self.value()
    }

    /// A write stores `val`.
    open spec fn value_after_write(&self, val: u32) -> u32 {
        val
    }

    /// A read clears the register.
    open spec fn value_after_read(&self) -> u32 {
        0
    }

    fn write(&mut self, val: u32)
        ensures
            final(self).value() == val,
    {
        self.reg = val;
    }

    fn read(&mut self) -> (r: u32)
        ensures
            r == old(self).value(),
            final(self).value() == 0,
    {
        let result = self.reg;
        self.reg = 0;
        result
    }
}

/// Reads as zero and ignores writes.
pub struct ZeroReg {
    reg: u32,
}

impl ZeroReg {
    /// The value held, which reads never show.
    pub closed spec fn value(&self) -> u32 {
        self.reg
    }

    pub fn new() -> (r: Self)
        ensures
            r.value() == 0,
    {
        ZeroReg { reg: 0 }
    }
}

impl VirtualRegister for ZeroReg {
    /// Reads give 0.
    open spec fn reg_value(&self) -> u32 {
        0
    }

    open spec fn value_after_write(&self, val: u32) -> u32 {
        0
    }

    open spec fn value_after_read(&self) -> u32 {
        0
    }

    fn write(&mut self, val: u32) {
    }

    fn read(&mut self) -> (r: u32)
        ensures
            r == 0,
    {
        0
    }
}

pub struct VPlic {
    claim_comp: ClaimCompReg,
    zero: ZeroReg,
}

impl VPlic {
    /// The value held by the claim/complete register.
    pub closed spec fn claim_value(&self) -> u32 {
        self.claim_comp.value()
    }

    pub fn new() -> (r: Self)
        ensures
            r.claim_value() == 0,
    {
        VPlic { claim_comp: ClaimCompReg::new(), zero: ZeroReg::new() }
    }

    /// A write to the claim/complete register stores `val`; other writes are
    /// ignored.
    pub fn write32(&mut self, addr: usize, val: u32)
        ensures
            addr == CLAIM_COMPLETE ==> final(self).claim_value() == val,
            addr != CLAIM_COMPLETE ==> final(self).claim_value() == old(self).claim_value(),
    {
        if addr == CLAIM_COMPLETE {
            self.claim_comp.write(val)
        } else {
            self.zero.write(val)
        }
    }

    /// A read of the claim/complete register takes its value and clears it;
    /// other reads give 0.
    pub fn read32(&mut self, addr: usize) -> (r: u32)
        ensures
            addr == CLAIM_COMPLETE ==> r == old(self).claim_value() && final(self).claim_value() == 0,
            addr != CLAIM_COMPLETE ==> r == 0 && final(self).claim_value() == old(self).claim_value(),
    {
        if addr == CLAIM_COMPLETE {
            self.claim_comp.read()
        } else {
            self.zero.read()
        }
    }
}

} // verus!
