//! Violet: the verified core of a RISC-V hypervisor.
use vstd::prelude::*;

pub mod arch;
pub mod environment;
pub mod kernel;
pub mod library;
pub mod resource;
pub mod system;
pub mod utils;

verus! {

} // verus!
