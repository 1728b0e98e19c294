//! One allocation of the native library: its handle, and the parameters
//! with which an allocation is asked for.

use crate::enums::{AllocationCreateFlags, MemoryUsage};
use vstd::prelude::*;

verus! {

/// The handle of one allocation: an identifier as wide as an address, which
/// the native library hands out and takes back.
#[derive(Debug, Clone, Copy, PartialEq, Eq, PartialOrd, Ord, Hash, Structural)]
pub struct Allocation {
    handle: usize,
}

impl Allocation {
    /// The raw identifier behind the handle.
    pub closed spec fn raw(self) -> usize {
        self.handle
    }

    /// Wraps a raw identifier.
    pub fn from_raw(handle: usize) -> (r: Allocation)
        ensures
            r.raw() == handle,
    {
        Allocation { handle }
    }

    /// The raw identifier.
    pub fn as_raw(&self) -> (r: usize)
        ensures
            r == self.raw(),
    {
        self.handle
    }

    /// Two handles of one raw identifier are one handle.
    pub proof fn lemma_raw_round_trip(a: Allocation, b: Allocation)
        ensures
            a.raw() == b.raw() ==> a == b,
    {
    }
}

/// The parameters of a new allocation, as the native library reads them.
/// Every field of the native structure that is not listed here stays zero.
#[derive(Debug, Clone, Copy, PartialEq, Eq, Structural)]
pub struct AllocationCreateInfo {
    /// The raw creation flags.
    pub flags: u32,
    /// The raw intended usage.
    pub usage: i32,
    /// The raw memory property flags that the memory must have.
    pub required_flags: u32,
    /// The raw memory property flags that the memory should have.
    pub preferred_flags: u32,
    /// The memory types that are acceptable, one bit for each.
    pub memory_type_bits: u32,
}

impl AllocationCreateInfo {
    /// The parameters with every field zero.
    pub open spec fn zeroed() -> AllocationCreateInfo {
        AllocationCreateInfo {
            flags: 0,
            usage: 0,
            required_flags: 0,
            preferred_flags: 0,
            memory_type_bits: 0,
        }
    }

    /// The parameters with every field zero.
    pub fn new() -> (r: AllocationCreateInfo)
        ensures
            r == AllocationCreateInfo::zeroed(),
    {
        AllocationCreateInfo {
            flags: 0,
            usage: 0,
            required_flags: 0,
            preferred_flags: 0,
            memory_type_bits: 0,
        }
    }

    /// Sets the intended usage.
    pub fn with_usage(self, usage: MemoryUsage) -> (r: AllocationCreateInfo)
        ensures
            r == (AllocationCreateInfo { usage: usage.raw, ..self }),
    {
        let mut r = self;
        r.usage = usage.as_raw();
        r
    }

    /// Sets the memory property flags that the memory must have, given as
    /// their raw bits.
    pub fn with_required_flags(self, flags: u32) -> (r: AllocationCreateInfo)
        ensures
            r == (AllocationCreateInfo { required_flags: flags, ..self }),
    {
        let mut r = self;
        r.required_flags = flags;
        r
    }

    /// Sets the memory property flags that the memory should have, given as
    /// their raw bits.
    pub fn with_preferred_flags(self, flags: u32) -> (r: AllocationCreateInfo)
        ensures
            r == (AllocationCreateInfo { preferred_flags: flags, ..self }),
    {
        let mut r = self;
        r.preferred_flags = flags;
        r
    }

    /// Sets the creation flags.
    pub fn with_creation_flags(self, flags: AllocationCreateFlags) -> (r: AllocationCreateInfo)
        ensures
            r == (AllocationCreateInfo { flags: flags.bits, ..self }),
    {
        let mut r = self;
        r.flags = flags.bits();
        r
    }

    /// Sets the acceptable memory types.
    pub fn with_memory_type_bits(self, bits: u32) -> (r: AllocationCreateInfo)
        ensures
            r == (AllocationCreateInfo { memory_type_bits: bits, ..self }),
    {
        let mut r = self;
        r.memory_type_bits = bits;
        r
    }
}

} // verus!
