//! Libraries of the hypervisor: bit fields, registers, virtual machines.
pub mod bitfield;
pub mod register;
pub mod vm;
pub mod vshell;
