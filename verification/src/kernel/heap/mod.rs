//! Heap allocators.
pub mod minimum_allocator;
pub mod slab;
pub mod operator;
