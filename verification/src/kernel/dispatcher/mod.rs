//! Dispatchers.
pub mod minimal_dispatcher;
