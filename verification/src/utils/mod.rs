//! Utilities.
pub mod error;
pub mod logging;
