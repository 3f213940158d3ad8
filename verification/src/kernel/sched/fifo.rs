//! FIFO scheduler.
use vstd::prelude::*;
use crate::kernel::traits::sched::TraitSched;
use crate::kernel::traits::task::TraitTask;

verus! {

/// Tasks run in the order they were queued.
pub struct FifoScheduler<T: TraitTask> {
    task_queue: Vec<Option<T>>,
}

impl<T: TraitTask> FifoScheduler<T> {
    pub fn new() -> (r: Self)
        ensures
            r.queue() == Seq::<Option<T>>::empty(),
    {
        FifoScheduler { task_queue: Vec::new() }
    }
}

impl<T: TraitTask> TraitSched<T> for FifoScheduler<T> {
    closed spec fn queue(&self) -> Seq<Option<T>> {
        self.task_queue@
    }

    fn next(&self) -> (r: Option<&T>) {
        if self.task_queue.len() == 0 {
            None
        } else {
            match &self.task_queue[0] {
                None => None,
                Some(task) => Some(task),
            }
        }
    }

    fn register(&mut self, task: T) {
        self.task_queue.push(Some(task));
    }

    fn unregister(&mut self) {
        self.task_queue.remove(0);
    }
}

} // verus!
