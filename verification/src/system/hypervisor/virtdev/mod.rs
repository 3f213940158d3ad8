//! Virtual devices of the hypervisor.
pub mod vplic;
