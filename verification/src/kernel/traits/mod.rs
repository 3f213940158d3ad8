//! Traits of the kernel: tasks, schedulers, dispatchers.
pub mod dispatcher;
pub mod sched;
pub mod task;
