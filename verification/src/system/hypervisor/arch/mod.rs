//! Architecture support of the hypervisor.
pub mod riscv;
