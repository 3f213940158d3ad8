//! Tasks.
use vstd::prelude::*;
use crate::kernel::traits::task::TraitTask;

verus! {

/// Priority given to a task when it is created.
pub const DEFAULT_PRIORITY: u64 = 32;

pub struct Task {
    id: u64,
    func: usize,
    prio: u64,
}

impl Task {
    pub closed spec fn spec_id(&self) -> u64 {
        self.id
    }
}

impl TraitTask for Task {
    closed spec fn spec_entry(&self) -> usize {
        self.func
    }

    closed spec fn spec_priority(&self) -> u64 {
        self.prio
    }

    /// Task `id` that enters at `func`, with the default priority.
    fn new(id: u64, func: usize) -> (r: Self)
        ensures
            r.spec_id() == id,
            r.spec_priority() == DEFAULT_PRIORITY,
    {
        Task { id, func, prio: DEFAULT_PRIORITY }
    }

    fn get_entry(&self) -> (r: usize) {
        self.func
    }

    fn set_priority(&mut self, prio: u64)
        ensures
            final(self).spec_id() == old(self).spec_id(),
    {
        self.prio = prio;
    }

    fn get_priority(&self) -> (r: u64) {
        self.prio
    }
}

} // verus!
