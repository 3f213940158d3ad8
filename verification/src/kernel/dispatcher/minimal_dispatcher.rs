//! Minimal dispatcher: a task is entered at its entry point.
use vstd::prelude::*;
use crate::kernel::traits::dispatcher::TraitDispatcher;
use crate::kernel::traits::task::TraitTask;

verus! {

pub struct MinimalDispatcher {}

impl MinimalDispatcher {
    pub fn new() -> (r: Self) {
        MinimalDispatcher {}
    }
}

impl<T: TraitTask> TraitDispatcher<T> for MinimalDispatcher {
    fn dispatch(&self, task: &T) -> (r: usize) {
        task.get_entry()
    }
}

} // verus!
