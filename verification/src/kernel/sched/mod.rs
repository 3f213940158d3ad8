//! Schedulers.
pub mod fifo;
