//! Violet system call interface (VSI).
use vstd::prelude::*;
use crate::kernel::task::Task;
use crate::kernel::traits::task::TraitTask;
use crate::kernel::traits::sched::TraitSched;
use crate::kernel::sched::fifo::FifoScheduler;

verus! {

/// Creates task `taskid` entered at `task` and queues it on the scheduler of
/// processor `prcid`, `schedulers[prcid]`.
pub fn create_task(schedulers: &mut Vec<FifoScheduler<Task>>, taskid: u64, task: usize, prcid: usize)
    requires
        prcid < old(schedulers)@.len(),
    ensures
        final(schedulers)@.len() == old(schedulers)@.len(),
        forall|i: int| 0 <= i < old(schedulers)@.len() && i != prcid ==> final(schedulers)@[i] == old(schedulers)@[i],
        final(schedulers)@[prcid as int].queue().len() == old(schedulers)@[prcid as int].queue().len() + 1,
        final(schedulers)@[prcid as int].queue().drop_last() == old(schedulers)@[prcid as int].queue(),
        final(schedulers)@[prcid as int].queue().last() matches Some(t) && t.spec_entry() == task && t.spec_id()
            == taskid,
{
    let t = Task::new(taskid, task);
    schedulers[prcid].register(t);
}

} // verus!
