//! Safe wrappers for the enums of a native memory allocator for a graphics
//! API: the generator that turns the enums it finds in the native header
//! into wrapper types, with the rules of that generation proved, and the
//! plain values that the hand-written part of the binding works on.

pub mod allocation;
pub mod allocator;
pub mod config;
pub mod emit;
pub mod enums;
pub mod naming;
pub mod scan;
pub mod text;
pub mod warning;

pub use allocation::{Allocation, AllocationCreateInfo};
pub use allocator::{Allocator, AllocatorCreateInfo};
pub use enums::{AllocationCreateFlags, AllocatorCreateFlags, Discriminant, Flags, MemoryUsage};
