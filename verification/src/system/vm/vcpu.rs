//! Virtual CPU of the first design: its number, the physical CPU that runs
//! it and its saved registers.
use vstd::prelude::*;

verus! {

#[derive(PartialEq, Eq, Structural, Clone, Copy, Debug)]
pub enum VcpuStatus {
    STOPPED,
    RUNNING,
    SUSPENDED,
}

pub struct VirtualCpu<T> {
    vcpuid: usize,
    cpuid: usize,
    pub regs: T,
    status: VcpuStatus,
}

impl<T> VirtualCpu<T> {
    pub closed spec fn spec_vcpuid(&self) -> usize {
        self.vcpuid
    }

    pub closed spec fn spec_cpuid(&self) -> usize {
        self.cpuid
    }

    pub closed spec fn spec_status(&self) -> VcpuStatus {
        self.status
    }

    pub closed spec fn spec_regs(&self) -> T {
        self.regs
    }

    /// A stopped virtual CPU `vcpuid` run by physical CPU `cpuid`, with
    /// registers `regs`.
    pub fn new(vcpuid: usize, cpuid: usize, regs: T) -> (r: Self)
        ensures
            r.spec_vcpuid() == vcpuid,
            r.spec_cpuid() == cpuid,
            r.spec_regs() == regs,
            r.spec_status() == VcpuStatus::STOPPED,
    {
        VirtualCpu { vcpuid, cpuid, regs, status: VcpuStatus::STOPPED }
    }

    /// The registers to restore when the virtual CPU is entered.
    pub fn enter(&self) -> (r: &T)
        ensures
            *r == self.spec_regs(),
    {
        &self.regs
    }
}

} // verus!
