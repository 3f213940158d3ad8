//! The kernel of a container: heap, tasks, scheduler and dispatcher.
use vstd::prelude::*;

pub mod container;
pub mod dispatcher;
pub mod event;
pub mod heap;
pub mod sched;
pub mod syscall;
pub mod task;
pub mod traits;

use traits::dispatcher::TraitDispatcher;
use traits::sched::TraitSched;
use traits::task::TraitTask;

verus! {

/// The heap that every kernel uses until it is given one of its own: the
/// initial heap of the root container.
pub const INITIAL_HEAP: usize = 0;

/// A kernel and the heap it allocates from, named by its number.
pub struct Kernel {
    heap: usize,
}

impl Kernel {
    pub closed spec fn spec_heap(&self) -> usize {
        self.heap
    }

    pub fn new(heap: usize) -> (r: Self)
        ensures
            r.spec_heap() == heap,
    {
        Kernel { heap }
    }

    /// The kernel of container `container_id`: for now every container
    /// shares the initial heap.
    pub fn create_custom_kernel(container_id: usize) -> (r: Self)
        ensures
            r.spec_heap() == INITIAL_HEAP,
    {
        Kernel::new(INITIAL_HEAP)
    }

    /// The heap the kernel allocates from.
    pub fn heap(&self) -> (r: usize)
        ensures
            r == self.spec_heap(),
    {
        self.heap
    }
}

/// One turn of a CPU's main loop: the address at which the dispatcher
/// enters the task the scheduler runs next; `None` when no task is queued
/// and the CPU idles. The task stays queued.
pub fn main_loop_step<T: TraitTask, S: TraitSched<T>, D: TraitDispatcher<T>>(sched: &S, disp: &D) -> (r: Option<
    usize,
>)
    ensures
        sched.queue().len() == 0 ==> r is None,
        sched.queue().len() > 0 ==> r == match sched.queue()[0] {
            Some(t) => Some(t.spec_entry()),
            None => None,
        },
{
    match sched.next() {
        None => None,
        Some(t) => Some(disp.dispatch(t)),
    }
}

} // verus!
