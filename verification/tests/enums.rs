use vma::config::EnumConfig;
use vma::emit::GeneratedEnumDef;
use vma::enums::{AllocationCreateFlags, AllocatorCreateFlags, Discriminant, Flags, MemoryUsage};
use vma::scan::{push_enum_variant, EnumVariantValue, RawEnumVariant};

fn def_of(decls: &[(&str, EnumVariantValue)], prefix: &'static str, flags: bool) -> GeneratedEnumDef {
    let mut kept: Vec<RawEnumVariant> = Vec::new();
    for (name, value) in decls {
        push_enum_variant(&mut kept, name, *value);
    }
    let config = EnumConfig { name: "VmaT", custom_name: None, prefix, is_flags: flags };
    GeneratedEnumDef::build(&config, &kept, None, flags).0
}

#[test]
fn wrappers_are_four_bytes_wide() {
    assert_eq!(std::mem::size_of::<Discriminant>(), 4);
    assert_eq!(std::mem::size_of::<Flags>(), 4);
    assert_eq!(std::mem::size_of::<MemoryUsage>(), std::mem::size_of::<i32>());
    assert_eq!(std::mem::size_of::<AllocationCreateFlags>(), std::mem::size_of::<u32>());
    assert_eq!(std::mem::size_of::<AllocatorCreateFlags>(), std::mem::size_of::<u32>());
}

#[test]
fn raw_round_trip_is_total() {
    for raw in [0, 1, 9, -1, 0x7FFFFFFF, i32::MIN, 12345] {
        let d = Discriminant::from_raw(raw);
        assert_eq!(d.as_raw(), raw);
        assert_eq!(Discriminant::from_raw(d.as_raw()), d);
    }
    assert_ne!(Discriminant::from_raw(1), Discriminant::from_raw(2));
}

#[test]
fn named_values_round_trip() {
    let def = def_of(
        &[
            ("VMA_MEMORY_USAGE_UNKNOWN", EnumVariantValue::Signed(0)),
            ("VMA_MEMORY_USAGE_GPU_ONLY", EnumVariantValue::Signed(1)),
            ("VMA_MEMORY_USAGE_ALIAS", EnumVariantValue::Signed(1)),
            ("VMA_MEMORY_USAGE_AUTO", EnumVariantValue::Signed(7)),
            ("VMA_MEMORY_USAGE_MAX_ENUM", EnumVariantValue::Signed(0x7FFFFFFF)),
        ],
        "VMA_MEMORY_USAGE_",
        false,
    );
    assert_eq!(def.variants.len(), 3);
    for i in 0..def.variants.len() {
        let value = def.value_of(i).unwrap();
        assert_eq!(def.variant_of(value), Some(i));
        assert_eq!(def.variant_of(Discriminant::from_raw(value.as_raw())), Some(i));
    }
    assert_eq!(def.value_of(2), Some(Discriminant::from_raw(7)));
    assert_eq!(def.value_of(3), None);
    assert_eq!(def.variant_of(Discriminant::from_raw(5)), None);
    assert_eq!(def.variant_of(Discriminant::from_raw(0x7FFFFFFF)), None);
    assert_eq!(Discriminant::from_raw(5).as_raw(), 5);
}

#[test]
fn values_out_of_range_have_no_raw_form() {
    let def = def_of(
        &[
            ("X_BIG", EnumVariantValue::Unsigned(0x1_0000_0000)),
            ("X_NEG", EnumVariantValue::Signed(-1)),
            ("X_TOP", EnumVariantValue::Unsigned(0xFFFF_FFFF)),
            ("X_MIN", EnumVariantValue::Signed(i32::MIN as i64)),
            ("X_YES", EnumVariantValue::Boolean(true)),
        ],
        "X_",
        false,
    );
    assert_eq!(def.value_of(0), None);
    assert_eq!(def.value_of(1), Some(Discriminant::from_raw(-1)));
    assert_eq!(def.value_of(2), None);
    assert_eq!(def.value_of(3), Some(Discriminant::from_raw(i32::MIN)));
    assert_eq!(def.value_of(4), Some(Discriminant::from_raw(1)));
    assert_eq!(def.flag_of(0), None);
    assert_eq!(def.flag_of(1), None);
    assert_eq!(def.flag_of(2), Some(Flags::from_bits_retain(0xFFFF_FFFF)));
    assert_eq!(def.flag_of(3), None);
    assert_eq!(def.flag_of(4), Some(Flags::from_bits_retain(1)));
    assert_eq!(def.flag_of(5), None);
    assert_eq!(def.all_flags().bits(), 0xFFFF_FFFF);
}

#[test]
fn empty_set_is_zero_and_default() {
    assert_eq!(Flags::empty().bits(), 0);
    assert_eq!(Flags::default(), Flags::empty());
    assert!(Flags::empty().is_empty());
    assert!(!Flags::from_bits_retain(4).is_empty());
}

#[test]
fn set_operations_are_bitwise() {
    let a = Flags::from_bits_retain(0b0110);
    let b = Flags::from_bits_retain(0b0011);
    assert_eq!(a.union(b).bits(), 0b0111);
    assert_eq!(a.union(b).bits(), a.bits() | b.bits());
    assert_eq!(a.intersection(b).bits(), 0b0010);
    assert_eq!(a.difference(b).bits(), 0b0100);
    assert_eq!(b.difference(a).bits(), 0b0001);
    assert!(a.contains(Flags::from_bits_retain(0b0100)));
    assert!(a.contains(Flags::empty()));
    assert!(!a.contains(b));
    assert!(a.union(b).contains(a));
}

#[test]
fn truncating_drops_unknown_bits_and_retaining_keeps_them() {
    let def = def_of(
        &[
            ("VMA_ALLOCATION_CREATE_DEDICATED_MEMORY_BIT", EnumVariantValue::Signed(0x1)),
            ("VMA_ALLOCATION_CREATE_MAPPED_BIT", EnumVariantValue::Signed(0x4)),
            ("VMA_ALLOCATION_CREATE_CAN_ALIAS_BIT", EnumVariantValue::Signed(0x200)),
            ("VMA_ALLOCATION_CREATE_FLAG_BITS_MAX_ENUM", EnumVariantValue::Signed(0x7FFFFFFF)),
        ],
        "VMA_ALLOCATION_CREATE_",
        true,
    );
    assert_eq!(def.all_flags().bits(), 0x205);
    assert_eq!(def.flags_from_raw(0x205).bits(), 0x205);
    assert_eq!(def.flags_from_raw(0x004).bits(), 0x004);
    assert_eq!(def.flags_from_raw(0xFFFF_FFFF).bits(), 0x205);
    assert_eq!(def.flags_from_raw(0x002).bits(), 0);
    assert_eq!(Flags::from_bits_retain(0xFFFF_FFFF).bits(), 0xFFFF_FFFF);
    assert_eq!(Flags::from_bits_truncate(0x0F0F, Flags::from_bits_retain(0x00FF)).bits(), 0x000F);
    for raw in [0u32, 0x1, 0x204, 0x205, 0x7, 0xFFFF_FFFF] {
        let once = def.flags_from_raw(raw);
        assert_eq!(def.flags_from_raw(once.bits()), once);
    }
    let a = def.flag_of(0).unwrap();
    let b = def.flag_of(2).unwrap();
    assert_eq!(a.union(b).bits(), 0x201);
    assert_eq!(def.flags_from_raw(a.union(b).bits()), a.union(b));
}
