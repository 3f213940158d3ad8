//! Scheduler trait.
use vstd::prelude::*;
use super::task::TraitTask;

verus! {

/// A scheduler: a queue of tasks.
pub trait TraitSched<T: TraitTask> {
    /// The tasks queued, in the order they will run.
    spec fn queue(&self) -> Seq<Option<T>>;

    /// The task to run next.
    fn next(&self) -> (r: Option<&T>)
        ensures
            self.queue().len() == 0 ==> r is None,
            self.queue().len() > 0 ==> r == match self.queue()[0] {
                Some(t) => Some(&t),
                None => None,
            },
    ;

    /// Queues `task` to run after those already queued.
    fn register(&mut self, task: T)
        ensures
            final(self).queue() == old(self).queue().push(Some(task)),
    ;

    /// Takes the first task off the queue.
    fn unregister(&mut self)
        requires
            old(self).queue().len() > 0,
        ensures
            final(self).queue() == old(self).queue().drop_first(),
    ;
}

} // verus!
