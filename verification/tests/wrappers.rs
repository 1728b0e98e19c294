use vma::allocation::{Allocation, AllocationCreateInfo};
use vma::allocator::{Allocator, AllocatorCreateInfo, VK_SUCCESS};
use vma::enums::{AllocationCreateFlags, AllocatorCreateFlags, MemoryUsage};

#[test]
fn handles_round_trip() {
    let a = Allocator::from_raw(0xDEAD_0000);
    assert_eq!(a.as_raw(), 0xDEAD_0000);
    assert_eq!(Allocator::from_raw(a.as_raw()), a);
    let b = Allocation::from_raw(17);
    assert_eq!(b.as_raw(), 17);
    assert_eq!(Allocation::from_raw(b.as_raw()), b);
    assert_ne!(Allocation::from_raw(1), Allocation::from_raw(2));
    assert!(Allocation::from_raw(1) < Allocation::from_raw(2));
    assert_eq!(std::mem::size_of::<Allocator>(), std::mem::size_of::<usize>());
    assert_eq!(std::mem::size_of::<Allocation>(), std::mem::size_of::<usize>());
}

#[test]
fn allocation_create_info_starts_zeroed() {
    let info = AllocationCreateInfo::new();
    assert_eq!(info.flags, 0);
    assert_eq!(info.usage, 0);
    assert_eq!(info.required_flags, 0);
    assert_eq!(info.preferred_flags, 0);
    assert_eq!(info.memory_type_bits, 0);
}

#[test]
fn allocation_builders_set_one_field_each() {
    let info = AllocationCreateInfo::new()
        .with_usage(MemoryUsage::from_raw(7))
        .with_required_flags(0x2)
        .with_preferred_flags(0x4)
        .with_creation_flags(AllocationCreateFlags::from_bits_retain(0x404))
        .with_memory_type_bits(0xF0);
    assert_eq!(
        info,
        AllocationCreateInfo {
            flags: 0x404,
            usage: 7,
            required_flags: 0x2,
            preferred_flags: 0x4,
            memory_type_bits: 0xF0
        }
    );
    let changed = info.with_usage(MemoryUsage::from_raw(1));
    assert_eq!(changed, AllocationCreateInfo { usage: 1, ..info });
    assert_eq!(info.with_required_flags(9), AllocationCreateInfo { required_flags: 9, ..info });
    assert_eq!(info.with_preferred_flags(9), AllocationCreateInfo { preferred_flags: 9, ..info });
    assert_eq!(
        info.with_creation_flags(AllocationCreateFlags::empty()),
        AllocationCreateInfo { flags: 0, ..info }
    );
    assert_eq!(info.with_memory_type_bits(1), AllocationCreateInfo { memory_type_bits: 1, ..info });
}

#[test]
fn allocator_builders_set_one_field_each() {
    let mut info = AllocatorCreateInfo::new()
        .with_physical_device(0x10)
        .with_device(0x20)
        .with_instance(0x30)
        .vulkan_api_version(0x0040_3000);
    assert_eq!(
        info,
        AllocatorCreateInfo {
            flags: 0,
            physical_device: 0x10,
            device: 0x20,
            preferred_large_heap_block_size: 0,
            instance: 0x30,
            vulkan_api_version: 0x0040_3000
        }
    );
    let before = info;
    info.flags(AllocatorCreateFlags::from_bits_retain(0x21));
    assert_eq!(info, AllocatorCreateInfo { flags: 0x21, ..before });
    let before = info;
    info.preferred_large_heap_block_size(256 * 1024 * 1024);
    assert_eq!(
        info,
        AllocatorCreateInfo { preferred_large_heap_block_size: 256 * 1024 * 1024, ..before }
    );
    assert_eq!(AllocatorCreateInfo::new().flags, 0);
    assert_eq!(AllocatorCreateInfo::new().instance, 0);
}

#[test]
fn success_hands_the_handles_on() {
    assert_eq!(VK_SUCCESS, 0);
    assert_eq!(Allocator::create_outcome(VK_SUCCESS, 0x1000), Ok(Allocator::from_raw(0x1000)));
    assert_eq!(
        Allocator::create_buffer_outcome(VK_SUCCESS, 5, 6),
        Ok((5, Allocation::from_raw(6)))
    );
    assert_eq!(
        Allocator::create_image_outcome(VK_SUCCESS, 7, 8),
        Ok((7, Allocation::from_raw(8)))
    );
    assert_eq!(Allocator::map_memory_outcome(VK_SUCCESS, 0x2000), Ok(0x2000));
}

#[test]
fn any_other_result_is_an_error() {
    for code in [1, 5, -1, -2, -1000011001, i32::MIN, i32::MAX] {
        assert_eq!(Allocator::create_outcome(code, 0x1000), Err(()));
        assert_eq!(Allocator::create_buffer_outcome(code, 5, 6), Err(()));
        assert_eq!(Allocator::create_image_outcome(code, 7, 8), Err(()));
        assert_eq!(Allocator::map_memory_outcome(code, 0x2000), Err(()));
        assert_eq!(Allocator::map_memory_outcome(code, 0), Err(()));
    }
}
