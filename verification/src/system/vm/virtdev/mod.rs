//! Virtual devices of the first design, with registers at fixed offsets.
pub mod vplic;
