use vma::naming::{
    filter_enum_variant, format_enum_name, format_enum_variant_name, format_flag_enum_name,
    format_flag_variant_name,
};

#[test]
fn enum_name_loses_brand_prefix() {
    assert_eq!(format_enum_name("VmaMemoryUsage"), "MemoryUsage");
    assert_eq!(format_enum_name("MemoryUsage"), "MemoryUsage");
    assert_eq!(format_enum_name("VmaVmaPool"), "Pool");
    assert_eq!(format_enum_name("Vma"), "");
    assert_eq!(format_enum_name(""), "");
}

#[test]
fn flag_enum_name_turns_bits_into_flags() {
    assert_eq!(format_flag_enum_name("VmaAllocationCreateFlagBits"), "AllocationCreateFlags");
    assert_eq!(format_flag_enum_name("VmaPoolCreateFlagBits"), "PoolCreateFlags");
    assert_eq!(format_flag_enum_name("VmaMemoryUsage"), "MemoryUsage");
    assert_eq!(format_flag_enum_name("FlagBitsFlagBits"), "FlagsFlags");
}

#[test]
fn variant_name_loses_prefix() {
    assert_eq!(
        format_enum_variant_name("VMA_MEMORY_USAGE_", "VMA_MEMORY_USAGE_GPU_ONLY"),
        Some("GPU_ONLY".to_string())
    );
}

#[test]
fn variant_name_keeps_separator_before_digit() {
    assert_eq!(format_enum_variant_name("FOO_2_", "FOO_2_3BAR"), Some("_3BAR".to_string()));
    assert_eq!(format_flag_variant_name("FOO_2_", "FOO_2_3BAR_BIT"), Some("_3BAR".to_string()));
}

#[test]
fn variant_name_needs_prefix() {
    assert_eq!(format_enum_variant_name("VMA_POOL_", "VMA_MEMORY_USAGE_AUTO"), None);
    assert_eq!(format_flag_variant_name("VMA_POOL_", "VMA_MEMORY_USAGE_AUTO"), None);
}

#[test]
fn variant_name_needs_a_rest() {
    assert_eq!(format_enum_variant_name("VMA_POOL_", "VMA_POOL_"), None);
    assert_eq!(format_enum_variant_name("", "7UP"), None);
    assert_eq!(format_enum_variant_name("", "UP"), Some("UP".to_string()));
}

#[test]
fn flag_variant_name_loses_bit_tag() {
    assert_eq!(
        format_flag_variant_name("VMA_ALLOCATION_CREATE_", "VMA_ALLOCATION_CREATE_MAPPED_BIT"),
        Some("MAPPED".to_string())
    );
    assert_eq!(
        format_flag_variant_name("VMA_ALLOCATOR_CREATE_", "VMA_ALLOCATOR_CREATE_KHR_BIND_MEMORY2_BIT"),
        Some("KHR_BIND_MEMORY2".to_string())
    );
    assert_eq!(format_flag_variant_name("X_", "X_A_BIT_B_BIT"), Some("A_B".to_string()));
    assert_eq!(format_flag_variant_name("X_", "X_STRATEGY_MASK"), Some("STRATEGY_MASK".to_string()));
}

#[test]
fn sentinel_is_filtered() {
    assert!(!filter_enum_variant("VMA_MEMORY_USAGE_MAX_ENUM"));
    assert!(!filter_enum_variant("VMA_ALLOCATOR_CREATE_FLAG_BITS_MAX_ENUM"));
    assert!(filter_enum_variant("VMA_MEMORY_USAGE_AUTO"));
    assert!(filter_enum_variant("MAX_ENU"));
    assert!(!filter_enum_variant("MAX_ENUM"));
}
