//! TOPPERS system call interface.
use vstd::prelude::*;
use crate::kernel::task::Task;
use crate::kernel::traits::task::TraitTask;
use crate::kernel::traits::sched::TraitSched;
use crate::kernel::sched::fifo::FifoScheduler;

verus! {

/// Task creation packet: the task's entry point and the processor to run it.
#[allow(non_camel_case_types)]
pub struct T_CTSK {
    pub task: usize,
    pub prcid: usize,
}

/// Creates task `tskid` from `ctsk` and queues it on the scheduler of its
/// processor, `schedulers[ctsk.prcid]`.
pub fn cre_tsk(schedulers: &mut Vec<FifoScheduler<Task>>, tskid: usize, ctsk: &T_CTSK)
    requires
        ctsk.prcid < old(schedulers)@.len(),
    ensures
        final(schedulers)@.len() == old(schedulers)@.len(),
        forall|i: int| 0 <= i < old(schedulers)@.len() && i != ctsk.prcid ==> final(schedulers)@[i] == old(schedulers)@[i],
        final(schedulers)@[ctsk.prcid as int].queue().len() == old(schedulers)@[ctsk.prcid as int].queue().len() + 1,
        final(schedulers)@[ctsk.prcid as int].queue().drop_last() == old(schedulers)@[ctsk.prcid as int].queue(),
        final(schedulers)@[ctsk.prcid as int].queue().last() matches Some(t) && t.spec_entry() == ctsk.task
            && t.spec_id() == tskid as u64,
{
    let task = Task::new(tskid as u64, ctsk.task);
    schedulers[ctsk.prcid].register(task);
}

} // verus!
