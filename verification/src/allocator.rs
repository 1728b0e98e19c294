//! The allocator of the native library: its handle, the parameters with
//! which it is created, and what the result of a native call amounts to.

use crate::allocation::Allocation;
use crate::enums::AllocatorCreateFlags;
use vstd::prelude::*;

verus! {

/// The result code with which the native library reports success.
pub const VK_SUCCESS: i32 = 0;

/// The handle of an allocator: an identifier as wide as an address, which
/// the native library hands out and takes back.
#[derive(Debug, Clone, Copy, PartialEq, Eq, PartialOrd, Ord, Hash, Structural)]
pub struct Allocator {
    handle: usize,
}

impl Allocator {
    /// The raw identifier behind the handle.
    pub closed spec fn raw(self) -> usize {
        self.handle
    }

    /// Wraps a raw identifier.
    pub fn from_raw(handle: usize) -> (r: Allocator)
        ensures
            r.raw() == handle,
    {
        Allocator { handle }
    }

    /// The raw identifier.
    pub fn as_raw(&self) -> (r: usize)
        ensures
            r == self.raw(),
    {
        self.handle
    }

    /// Two handles of one raw identifier are one handle.
    pub proof fn lemma_raw_round_trip(a: Allocator, b: Allocator)
        ensures
            a.raw() == b.raw() ==> a == b,
    {
    }

    /// What creating an allocator comes to: the handle that the native call
    /// wrote, if the call reported success, and an error if it did not.
    pub fn create_outcome(result: i32, handle: usize) -> (r: Result<Allocator, ()>)
        ensures
            result == VK_SUCCESS ==> r is Ok && r->Ok_0.raw() == handle,
            result != VK_SUCCESS ==> r is Err,
    {
        if result != VK_SUCCESS {
            return Err(());
        }
        Ok(Allocator::from_raw(handle))
    }

    /// What creating a buffer with its memory comes to: the raw buffer and
    /// the allocation that the native call wrote, if the call reported
    /// success, and an error if it did not.
    pub fn create_buffer_outcome(result: i32, buffer: usize, allocation: usize) -> (r: Result<
        (usize, Allocation),
        (),
    >)
        ensures
            result == VK_SUCCESS ==> r is Ok && r->Ok_0.0 == buffer && r->Ok_0.1.raw()
                == allocation,
            result != VK_SUCCESS ==> r is Err,
    {
        if result != VK_SUCCESS {
            return Err(());
        }
        Ok((buffer, Allocation::from_raw(allocation)))
    }

    /// What creating an image with its memory comes to: the raw image and
    /// the allocation that the native call wrote, if the call reported
    /// success, and an error if it did not.
    pub fn create_image_outcome(result: i32, image: usize, allocation: usize) -> (r: Result<
        (usize, Allocation),
        (),
    >)
        ensures
            result == VK_SUCCESS ==> r is Ok && r->Ok_0.0 == image && r->Ok_0.1.raw()
                == allocation,
            result != VK_SUCCESS ==> r is Err,
    {
        if result != VK_SUCCESS {
            return Err(());
        }
        Ok((image, Allocation::from_raw(allocation)))
    }

    /// What mapping an allocation comes to: the address that the native call
    /// wrote, if the call reported success, and an error if it did not. A
    /// call that reports success writes an address that is not null.
    pub fn map_memory_outcome(result: i32, data: usize) -> (r: Result<usize, ()>)
        requires
            result == VK_SUCCESS ==> data != 0,
        ensures
            result == VK_SUCCESS ==> r == Ok::<usize, ()>(data) && data != 0,
            result != VK_SUCCESS ==> r is Err,
    {
        if result != VK_SUCCESS {
            return Err(());
        }
        Ok(data)
    }
}

/// The parameters of a new allocator, as the native library reads them.
/// Every field of the native structure that is not listed here stays zero.
#[derive(Debug, Clone, Copy, PartialEq, Eq, Structural)]
pub struct AllocatorCreateInfo {
    /// The raw creation flags.
    pub flags: u32,
    /// The raw handle of the physical device.
    pub physical_device: usize,
    /// The raw handle of the device.
    pub device: usize,
    /// The preferred size of a block of a large heap, in bytes.
    pub preferred_large_heap_block_size: u64,
    /// The raw handle of the instance.
    pub instance: usize,
    /// The version of the graphics API, in its packed form.
    pub vulkan_api_version: u32,
}

impl AllocatorCreateInfo {
    /// The parameters with every field zero.
    pub open spec fn zeroed() -> AllocatorCreateInfo {
        AllocatorCreateInfo {
            flags: 0,
            physical_device: 0,
            device: 0,
            preferred_large_heap_block_size: 0,
            instance: 0,
            vulkan_api_version: 0,
        }
    }

    /// The parameters with every field zero.
    pub fn new() -> (r: AllocatorCreateInfo)
        ensures
            r == AllocatorCreateInfo::zeroed(),
    {
        AllocatorCreateInfo {
            flags: 0,
            physical_device: 0,
            device: 0,
            preferred_large_heap_block_size: 0,
            instance: 0,
            vulkan_api_version: 0,
        }
    }

    /// Sets the creation flags in place.
    pub fn flags(&mut self, flags: AllocatorCreateFlags)
        ensures
            *final(self) == (AllocatorCreateInfo { flags: flags.bits, ..*old(self) }),
    {
        self.flags = flags.bits();
    }

    /// Sets the physical device, given as its raw handle.
    pub fn with_physical_device(self, physical_device: usize) -> (r: AllocatorCreateInfo)
        ensures
            r == (AllocatorCreateInfo { physical_device, ..self }),
    {
        let mut r = self;
        r.physical_device = physical_device;
        r
    }

    /// Sets the device, given as its raw handle.
    pub fn with_device(self, device: usize) -> (r: AllocatorCreateInfo)
        ensures
            r == (AllocatorCreateInfo { device, ..self }),
    {
        let mut r = self;
        r.device = device;
        r
    }

    /// Sets the preferred size of a block of a large heap in place.
    pub fn preferred_large_heap_block_size(&mut self, size: u64)
        ensures
            *final(self) == (AllocatorCreateInfo {
                preferred_large_heap_block_size: size,
                ..*old(self)
            }),
    {
        self.preferred_large_heap_block_size = size;
    }

    /// Sets the instance, given as its raw handle.
    pub fn with_instance(self, instance: usize) -> (r: AllocatorCreateInfo)
        ensures
            r == (AllocatorCreateInfo { instance, ..self }),
    {
        let mut r = self;
        r.instance = instance;
        r
    }

    /// Sets the version of the graphics API, given in its packed form.
    pub fn vulkan_api_version(self, version: u32) -> (r: AllocatorCreateInfo)
        ensures
            r == (AllocatorCreateInfo { vulkan_api_version: version, ..self }),
    {
        let mut r = self;
        r.vulkan_api_version = version;
        r
    }
}

} // verus!
