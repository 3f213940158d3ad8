//! Dispatcher trait.
use vstd::prelude::*;
use super::task::TraitTask;

verus! {

/// A dispatcher: where a task is entered.
pub trait TraitDispatcher<T: TraitTask> {
    /// The address at which `task` is entered.
    fn dispatch(&self, task: &T) -> (r: usize)
        ensures
            r == task.spec_entry(),
    ;
}

} // verus!
