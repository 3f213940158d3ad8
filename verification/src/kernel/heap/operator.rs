//! The selector between the initial heap and the heap of a container.
use vstd::prelude::*;
use crate::kernel::{Kernel, INITIAL_HEAP};

verus! {

/// Chooses the heap to serve an allocation from.
pub struct HeapOperator {}

impl HeapOperator {
    pub fn new() -> (r: HeapOperator) {
        HeapOperator {}
    }

    /// The heap that serves an allocation or a release: the heap of the
    /// kernel of the running container once that container is ready
    /// (`ready_kernel` is its kernel), the initial heap before.
    pub fn select_heap(&self, ready_kernel: Option<&Kernel>) -> (r: usize)
        ensures
            r == match ready_kernel {
                Some(k) => k.spec_heap(),
                None => INITIAL_HEAP,
            },
    {
        match ready_kernel {
            Some(k) => k.heap(),
            None => INITIAL_HEAP,
        }
    }
}

} // verus!
