//! Virtual machines of the first Violet design.
pub mod vcpu;
pub mod vdev;
pub mod virtdev;
