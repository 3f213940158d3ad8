//! Parameters of the machine the hypervisor is built for.
use vstd::prelude::*;

verus! {

/// Number of physical CPUs (harts).
pub const NUM_OF_CPUS: usize = 2;

} // verus!
