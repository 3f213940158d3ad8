//! RISC-V.
pub mod sbi;
