//! A single-owner heap pointer over a verified allocator model.
//!
//! `Ptr` packs an address and a one-bit released flag into one word,
//! `Heap` models the allocator interface (allocate, release, place, read),
//! and `Box` owns one value placed in a `Heap`.
pub mod boxed;
pub mod heap;
pub mod laws;
pub mod ptr;

pub use boxed::{Box, Error, TryClone};
pub use heap::{Heap, HeapView};
pub use ptr::{Ptr, PtrView};
