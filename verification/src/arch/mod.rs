//! Architecture definitions (RISC-V).
use vstd::prelude::*;

verus! {

/// Privilege modes of a RISC-V hart.
#[derive(PartialEq, Eq, Structural, Clone, Copy, Debug)]
pub enum PrivilegeMode {
    ModeU,
    ModeS,
    ModeM,
    ModeVU,
    ModeVS,
}

} // verus!
