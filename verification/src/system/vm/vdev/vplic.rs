//! Virtual PLIC of the first design: the claim/complete register of the
//! S-mode context of hart 0 is virtual; every other access goes to the
//! physical PLIC.
use vstd::prelude::*;
use super::{IoAction, IoInput, IoModel, VirtualDevice, VirtualRegister, ZeroReg};
use crate::environment::NUM_OF_CPUS;

verus! {

pub const INT_ENABLE0_CONTEXT0: usize = 0x2000;
pub const PRIO_THRESHOLD_CONTEXT1: usize = 0x20_1000;
pub const CLAIM_COMPLETE_CONTEXT1: usize = 0x20_1004;
pub const BASE_ADDRESS: usize = 0xC00_0000;
pub const ADDRESS_RANGE: usize = 0x400_0000;
pub const MASK: usize = 0x3ff_ffff;

/// Offset between the enable registers of two harts.
pub const ENABLE_HART_OFFSET: usize = 0x80;

/// Threshold register: keeps the three low bits written.
pub struct PriorityThresholdReg {
    reg: u32,
}

impl PriorityThresholdReg {
    pub closed spec fn value(&self) -> u32 {
        self.reg
    }

    pub fn new() -> (r: Self)
        ensures
            r.value() == 0,
    {
        PriorityThresholdReg { reg: 0 }
    }

    /// The threshold to program in the physical interrupt controller.
    pub fn threshold(&self) -> (r: u32)
        ensures
            r == self.value(),
    {
        self.reg
    }
}

impl VirtualRegister for PriorityThresholdReg {
    open spec fn reg_value(&self) -> u32 {
        self.value()
    }

    /// The three low bits of `val` are kept.
    open spec fn value_after_write(&self, val: u32) -> u32 {
        val & 0x7
    }

    open spec fn value_after_read(&self) -> u32 {
        self.value()
    }

    fn write(&mut self, addr: usize, val: u32)
        ensures
            final(self).value() == val & 0x7,
    {
        self.reg = val & 0x7;
    }

    fn read(&mut self, addr: usize) -> (r: u32)
        ensures
            r == old(self).value(),
            final(self).value() == old(self).value(),
    {
        self.reg
    }
}

/// Enable registers: the enable register of a vCPU is that of the physical
/// CPU that runs it.
pub struct EnableReg {
    reg: u32,
    v2p_cpu: [usize; NUM_OF_CPUS],
}

impl EnableReg {
    pub closed spec fn v2p(&self) -> Seq<usize> {
        self.v2p_cpu@
    }

    pub fn new() -> (r: Self)
        ensures
            r.v2p() == Seq::new(NUM_OF_CPUS as nat, |i: int| 0usize),
    {
        let r = EnableReg { reg: 0, v2p_cpu: [0; NUM_OF_CPUS] };
        assert(r.v2p() =~= Seq::new(NUM_OF_CPUS as nat, |i: int| 0usize));
        r
    }

    /// Maps virtual CPU `i` to physical CPU `v2p_cpu[i]`.
    pub fn set_vcpu_config(&mut self, v2p_cpu: [usize; NUM_OF_CPUS])
        ensures
            final(self).v2p() == v2p_cpu@,
    {
        self.v2p_cpu = v2p_cpu;
    }

    /// The physical register for the enable register at `addr`: that of the
    /// physical CPU of the register's vCPU.
    pub fn physical_addr(&self, addr: usize) -> (r: usize)
        requires
            addr >= INT_ENABLE0_CONTEXT0,
            (addr - INT_ENABLE0_CONTEXT0) / (ENABLE_HART_OFFSET as int) < NUM_OF_CPUS,
            addr + self.v2p()[(addr - INT_ENABLE0_CONTEXT0) / (ENABLE_HART_OFFSET as int)] * ENABLE_HART_OFFSET
                <= usize::MAX,
        ensures
            r == addr + self.v2p()[(addr - INT_ENABLE0_CONTEXT0) / (ENABLE_HART_OFFSET as int)]
                * ENABLE_HART_OFFSET,
    {
        let vcpuid = (addr - INT_ENABLE0_CONTEXT0) / ENABLE_HART_OFFSET;
        addr + self.v2p_cpu[vcpuid] * ENABLE_HART_OFFSET
    }
}

/// Claim/complete register: a write of the value held clears it, another
/// write replaces it; a read takes the value and clears it.
pub struct ClaimCompReg {
    reg: u32,
}

impl ClaimCompReg {
    pub closed spec fn value(&self) -> u32 {
        self.reg
    }

    pub fn new() -> (r: Self)
        ensures
            r.value() == 0,
    {
        ClaimCompReg { reg: 0 }
    }
}

impl VirtualRegister for ClaimCompReg {
    open spec fn reg_value(&self) -> u32 {
        self.value()
    }

    /// Writing the value held clears it; another value replaces it.
    open spec fn value_after_write(&self, val: u32) -> u32 {
        if self.value() == val {
            0
        } else {
            val
        }
    }

    /// A read clears the register.
    open spec fn value_after_read(&self) -> u32 {
        0
    }

    fn write(&mut self, addr: usize, val: u32)
        ensures
            old(self).value() == val ==> final(self).value() == 0,
            old(self).value() != val ==> final(self).value() == val,
    {
        if self.reg == val {
            self.reg = 0;
        } else {
            self.reg = val;
        }
    }

    fn read(&mut self, addr: usize) -> (r: u32)
        ensures
            r == old(self).value(),
            final(self).value() == 0,
    {
        let result = self.reg;
        self.reg = 0;
        result
    }
}

/// State of an interrupt: active from its arrival to its completion.
#[derive(Copy, Clone, PartialEq, Eq, Structural, Debug)]
pub enum InterruptState {
    INACTIVE,
    ACTIVE,
}

pub struct VPlic {
    enable: EnableReg,
    priority_threshold: PriorityThresholdReg,
    claim_comp: ClaimCompReg,
    zero: ZeroReg,
    interrupt: [InterruptState; 64],
}

impl VPlic {
    /// The interrupt the claim register offers.
    pub closed spec fn claim_value(&self) -> u32 {
        self.claim_comp.value()
    }

    pub closed spec fn v2p(&self) -> Seq<usize> {
        self.enable.v2p()
    }

    pub fn new() -> (r: Self)
        ensures
            r.claim_value() == 0,
            r.v2p() == Seq::new(NUM_OF_CPUS as nat, |i: int| 0usize),
    {
        VPlic {
            enable: EnableReg::new(),
            priority_threshold: PriorityThresholdReg::new(),
            claim_comp: ClaimCompReg::new(),
            zero: ZeroReg::new(),
            interrupt: [InterruptState::INACTIVE; 64],
        }
    }

    /// Maps virtual CPU `i` to physical CPU `v2p_cpu[i]`.
    pub fn set_vcpu_config(&mut self, v2p_cpu: [usize; NUM_OF_CPUS])
        ensures
            final(self).v2p() == v2p_cpu@,
            final(self).claim_value() == old(self).claim_value(),
    {
        self.enable.set_vcpu_config(v2p_cpu);
    }

    /// A completion from the guest changes nothing.
    fn claim_comp_write(&mut self, addr: usize, val: u32)
        ensures
            final(self).claim_value() == old(self).claim_value(),
            final(self).v2p() == old(self).v2p(),
    {
    }

    /// A claim takes the interrupt offered; the next one offered is
    /// `pending`, the interrupt pending at the physical controller.
    fn claim_comp_read(&mut self, addr: usize, pending: u32) -> (r: u32)
        ensures
            r == old(self).claim_value(),
            final(self).claim_value() == pending,
            final(self).v2p() == old(self).v2p(),
    {
        let result = self.claim_comp.reg;
        self.claim_comp.reg = pending;
        result
    }

    /// An interrupt arrives: it is the one offered.
    fn claim_comp_int(&mut self, intid: u32)
        ensures
            final(self).claim_value() == intid,
            final(self).v2p() == old(self).v2p(),
    {
        self.claim_comp.reg = intid;
    }
}

/// `x` cut to 32 bits.
pub open spec fn spec_low32(x: usize) -> u32 {
    x as u32
}

fn low32(x: usize) -> (r: u32)
    ensures
        r == spec_low32(x),
{
    x as u32
}

impl VirtualDevice for VPlic {
    open spec fn io_model(&self) -> IoModel {
        IoModel::Plic { claim: self.claim_value() }
    }

    /// A write to the claim/complete register is virtual; any other write
    /// goes to the physical register.
    fn write32(&mut self, addr: usize, val: u32) -> (r: IoAction)
        ensures
            final(self).claim_value() == old(self).claim_value(),
            addr & MASK == CLAIM_COMPLETE_CONTEXT1 ==> r == IoAction::NoAction,
            addr & MASK != CLAIM_COMPLETE_CONTEXT1 ==> r == (IoAction::RawWrite32 { addr, val }),
    {
        if addr & MASK == CLAIM_COMPLETE_CONTEXT1 {
            self.claim_comp_write(addr & MASK, val);
            IoAction::NoAction
        } else {
            IoAction::RawWrite32 { addr, val }
        }
    }

    /// A read of the claim/complete register is virtual; any other read
    /// gives the physical register's value.
    fn read32(&mut self, addr: usize, input: &IoInput) -> (r: u32)
        ensures
            addr & MASK == CLAIM_COMPLETE_CONTEXT1 ==> r == old(self).claim_value() && final(self).claim_value()
                == input.pending,
            addr & MASK != CLAIM_COMPLETE_CONTEXT1 ==> r == input.raw && final(self).claim_value() == old(self).claim_value(),
    {
        if addr & MASK == CLAIM_COMPLETE_CONTEXT1 {
            self.claim_comp_read(addr & MASK, input.pending)
        } else {
            input.raw
        }
    }

    fn interrupt(&mut self, intid: usize)
        ensures
            final(self).claim_value() == spec_low32(intid),
    {
        self.claim_comp_int(low32(intid));
    }

    fn forwards_read(&self, addr: usize) -> (r: bool)
        ensures
            r == (addr & MASK != CLAIM_COMPLETE_CONTEXT1),
    {
        addr & MASK != CLAIM_COMPLETE_CONTEXT1
    }
}

} // verus!
