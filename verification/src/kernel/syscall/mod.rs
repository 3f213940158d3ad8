//! System call interfaces.
pub mod toppers;
pub mod vsi;
