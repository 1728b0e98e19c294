use vma::config::{build_config_map, ConfigMap, EnumConfig};
use vma::emit::{generate, write_enum, write_flags, GeneratedEnumDef};
use vma::scan::{EnumMap, EnumVariantValue, RawEnumVariant};
use vma::warning::Warning;

fn raw(name: &str, value: i64) -> RawEnumVariant {
    RawEnumVariant { name: name.to_string(), value: EnumVariantValue::Signed(value) }
}

fn plain(name: &'static str, prefix: &'static str) -> EnumConfig<'static> {
    EnumConfig { name, custom_name: None, prefix, is_flags: false }
}

fn flags(name: &'static str, prefix: &'static str) -> EnumConfig<'static> {
    EnumConfig { name, custom_name: None, prefix, is_flags: true }
}

const PLAIN_TAIL: &str = "    pub const fn from_raw(value: i32) -> Self { unsafe { std::mem::transmute(value) } }\n    pub const fn as_raw(&self) -> i32 { *self as i32 }\n}\n\n";

#[test]
fn plain_enum_text_is_exact() {
    let variants = vec![
        raw("VMA_MEMORY_USAGE_UNKNOWN", 0),
        raw("VMA_MEMORY_USAGE_GPU_ONLY", 1),
        raw("VMA_MEMORY_USAGE_MAX_ENUM", 0x7FFFFFFF),
    ];
    let mut out = String::new();
    let warnings = write_enum(&mut out, &plain("VmaMemoryUsage", "VMA_MEMORY_USAGE_"), &variants, None);
    assert!(warnings.is_empty());
    let expected = format!(
        "{}{}{}{}{}{}{}{}{}",
        "#[derive(Debug, Clone, Copy, PartialEq, Eq)]\n",
        "#[repr(i32)]\n",
        "pub enum MemoryUsage {\n",
        "    UNKNOWN = VMA_MEMORY_USAGE_UNKNOWN,\n",
        "    GPU_ONLY = VMA_MEMORY_USAGE_GPU_ONLY,\n",
        "}\n",
        "assert_eq_size!(MemoryUsage, VmaMemoryUsage);\n",
        "impl MemoryUsage {\n",
        PLAIN_TAIL
    );
    assert_eq!(out, expected);
}

#[test]
fn flags_text_is_exact() {
    let variants = vec![
        raw("VMA_POOL_CREATE_IGNORE_BUFFER_IMAGE_GRANULARITY_BIT", 2),
        raw("VMA_POOL_CREATE_LINEAR_ALGORITHM_BIT", 4),
        raw("VMA_POOL_CREATE_FLAG_BITS_MAX_ENUM", 0x7FFFFFFF),
    ];
    let mut out = String::new();
    let warnings = write_flags(&mut out, &flags("VmaPoolCreateFlagBits", "VMA_POOL_CREATE_"), &variants);
    assert!(warnings.is_empty());
    let expected = format!(
        "{}{}{}{}{}{}{}{}{}",
        "bitflags! {\n",
        "    #[derive(Default, Clone, Copy, PartialEq, Eq)]\n",
        "    pub struct PoolCreateFlags: u32 {\n",
        "        const IGNORE_BUFFER_IMAGE_GRANULARITY = VMA_POOL_CREATE_IGNORE_BUFFER_IMAGE_GRANULARITY_BIT as u32;\n",
        "        const LINEAR_ALGORITHM = VMA_POOL_CREATE_LINEAR_ALGORITHM_BIT as u32;\n",
        "    }\n",
        "}\n",
        "assert_eq_size!(PoolCreateFlags, VmaPoolCreateFlagBits);\n",
        "\n"
    );
    assert_eq!(out, expected);
}

#[test]
fn writing_appends_to_what_is_there() {
    let mut out = String::from("// head\n");
    write_flags(&mut out, &flags("VmaXFlagBits", "X_"), &vec![]);
    assert_eq!(
        out,
        "// head\nbitflags! {\n    #[derive(Default, Clone, Copy, PartialEq, Eq)]\n    pub struct XFlags: u32 {\n    }\n}\nassert_eq_size!(XFlags, VmaXFlagBits);\n\n"
    );
    let before = out.clone();
    write_enum(&mut out, &plain("VmaY", "Y_"), &vec![], None);
    assert!(out.starts_with(&before));
    assert_eq!(
        &out[before.len()..],
        format!(
            "#[derive(Debug, Clone, Copy, PartialEq, Eq)]\n#[repr(i32)]\npub enum Y {{\n}}\nassert_eq_size!(Y, VmaY);\nimpl Y {{\n{}",
            PLAIN_TAIL
        )
    );
}

#[test]
fn custom_name_overrides_the_derived_one() {
    let config = EnumConfig { name: "VmaMemoryUsage", custom_name: Some("Usage"), prefix: "VMA_MEMORY_USAGE_", is_flags: false };
    let (def, warnings) = GeneratedEnumDef::build(&config, &vec![raw("VMA_MEMORY_USAGE_AUTO", 7)], None, false);
    assert!(warnings.is_empty());
    assert_eq!(def.name, "Usage");
    assert_eq!(def.native_name, "VmaMemoryUsage");
    assert!(!def.is_flags);
    assert_eq!(def.variants.len(), 1);
    assert_eq!(def.variants[0].name, "AUTO");
    assert_eq!(def.variants[0].source, "VMA_MEMORY_USAGE_AUTO");
    assert_eq!(def.variants[0].value, EnumVariantValue::Signed(7));
    let text = def.render();
    assert!(text.contains("pub enum Usage {\n    AUTO = VMA_MEMORY_USAGE_AUTO,\n}\n"));
    assert!(text.contains("assert_eq_size!(Usage, VmaMemoryUsage);\n"));
    let (fdef, _) = GeneratedEnumDef::build(&config, &vec![], None, true);
    assert_eq!(fdef.name, "Usage");
    assert!(fdef.is_flags);
}

#[test]
fn sentinel_is_never_emitted() {
    let variants = vec![
        raw("VMA_MEMORY_USAGE_MAX_ENUM", 0x7FFFFFFF),
        raw("VMA_MEMORY_USAGE_AUTO", 7),
        raw("VMA_MEMORY_USAGE_X_MAX_ENUM_Y", 8),
    ];
    let config = plain("VmaMemoryUsage", "VMA_MEMORY_USAGE_");
    for as_flags in [false, true] {
        let (def, warnings) = GeneratedEnumDef::build(&config, &variants, None, as_flags);
        assert!(warnings.is_empty());
        assert_eq!(def.variants.len(), 1);
        assert_eq!(def.variants[0].source, "VMA_MEMORY_USAGE_AUTO");
        assert!(!def.render().contains("MAX_ENUM"));
    }
}

#[test]
fn skipped_names_are_left_out_silently() {
    let variants = vec![raw("VMA_A_ONE", 1), raw("VMA_A_TWO", 2), raw("VMA_A_THREE", 3)];
    let skip: [&str; 2] = ["VMA_A_TWO", "VMA_A_FOUR"];
    let mut out = String::new();
    let warnings = write_enum(&mut out, &plain("VmaA", "VMA_A_"), &variants, Some(&skip));
    assert!(warnings.is_empty());
    assert!(out.contains("    ONE = VMA_A_ONE,\n    THREE = VMA_A_THREE,\n"));
    assert!(!out.contains("TWO"));
}

#[test]
fn failed_strip_is_reported_and_skipped() {
    let variants = vec![
        raw("VMA_A_ONE", 1),
        raw("VMA_B_TWO", 2),
        raw("VMA_A_", 3),
        raw("VMA_A_THREE", 4),
    ];
    let mut out = String::new();
    let warnings = write_enum(&mut out, &plain("VmaA", "VMA_A_"), &variants, None);
    assert_eq!(
        warnings,
        vec![
            Warning::PrefixMismatch("VMA_B_TWO".to_string()),
            Warning::PrefixMismatch("VMA_A_".to_string())
        ]
    );
    assert_eq!(warnings[0].message(), "Failed to strip prefix from enum: VMA_B_TWO");
    assert!(out.contains("    ONE = VMA_A_ONE,\n    THREE = VMA_A_THREE,\n"));
    assert!(!out.contains("TWO"));
    let mut fout = String::new();
    let fwarnings = write_flags(&mut fout, &flags("VmaA", "VMA_A_"), &variants);
    assert_eq!(fwarnings, warnings);
}

#[test]
fn digit_led_variant_keeps_the_separator() {
    let mut out = String::new();
    write_enum(&mut out, &plain("VmaFoo", "FOO_2_"), &vec![raw("FOO_2_3BAR", 1), raw("FOO_2_BAZ", 2)], None);
    assert!(out.contains("    _3BAR = FOO_2_3BAR,\n    BAZ = FOO_2_BAZ,\n"));
}

#[test]
fn only_first_declared_of_a_value_is_emitted() {
    let mut map = EnumMap::new();
    let decls = [
        ("VMA_ALLOCATION_CREATE_STRATEGY_MIN_MEMORY_BIT", 0x10000),
        ("VMA_ALLOCATION_CREATE_STRATEGY_MIN_TIME_BIT", 0x20000),
        ("VMA_ALLOCATION_CREATE_STRATEGY_BEST_FIT_BIT", 0x10000),
        ("VMA_ALLOCATION_CREATE_STRATEGY_FIRST_FIT_BIT", 0x20000),
        ("VMA_ALLOCATION_CREATE_FLAG_BITS_MAX_ENUM", 0x7FFFFFFF),
    ];
    for (name, value) in decls {
        assert_eq!(map.record(Some("VmaAllocationCreateFlagBits"), name, Some(EnumVariantValue::Signed(value))), None);
    }
    let out = generate(&map, &build_config_map());
    assert!(out.warnings.is_empty());
    assert_eq!(
        out.text,
        format!(
            "{}{}{}{}{}{}{}{}{}",
            "bitflags! {\n",
            "    #[derive(Default, Clone, Copy, PartialEq, Eq)]\n",
            "    pub struct AllocationCreateFlags: u32 {\n",
            "        const STRATEGY_MIN_MEMORY = VMA_ALLOCATION_CREATE_STRATEGY_MIN_MEMORY_BIT as u32;\n",
            "        const STRATEGY_MIN_TIME = VMA_ALLOCATION_CREATE_STRATEGY_MIN_TIME_BIT as u32;\n",
            "    }\n",
            "}\n",
            "assert_eq_size!(AllocationCreateFlags, VmaAllocationCreateFlagBits);\n",
            "\n"
        )
    );
}

#[test]
fn unconfigured_enum_gives_one_warning_and_no_type() {
    let mut map = EnumMap::new();
    map.record(Some("VmaSuballocationType"), "VMA_SUBALLOCATION_TYPE_FREE", Some(EnumVariantValue::Signed(0)));
    map.record(Some("VmaSuballocationType"), "VMA_SUBALLOCATION_TYPE_BUFFER", Some(EnumVariantValue::Signed(2)));
    let out = generate(&map, &build_config_map());
    assert_eq!(out.text, "");
    assert_eq!(out.warnings, vec![Warning::Unconfigured("VmaSuballocationType".to_string())]);
    assert_eq!(out.warnings[0].message(), "no configuration found for enum: VmaSuballocationType");
}

#[test]
fn generation_goes_on_past_an_unconfigured_enum() {
    let mut map = EnumMap::new();
    map.record(Some("VmaDefragmentationMoveOperation"), "VMA_DEFRAGMENTATION_MOVE_OPERATION_COPY", Some(EnumVariantValue::Signed(0)));
    map.record(Some("VmaSuballocationType"), "VMA_SUBALLOCATION_TYPE_FREE", Some(EnumVariantValue::Signed(0)));
    map.record(Some("VmaVirtualBlockCreateFlagBits"), "VMA_VIRTUAL_BLOCK_CREATE_LINEAR_ALGORITHM_BIT", Some(EnumVariantValue::Signed(1)));
    map.record(Some("VmaVirtualBlockCreateFlagBits"), "VMA_OTHER_BIT", Some(EnumVariantValue::Signed(2)));
    let out = generate(&map, &build_config_map());
    assert_eq!(
        out.warnings,
        vec![
            Warning::Unconfigured("VmaSuballocationType".to_string()),
            Warning::PrefixMismatch("VMA_OTHER_BIT".to_string())
        ]
    );
    let mut expected = String::new();
    write_enum(
        &mut expected,
        &plain("VmaDefragmentationMoveOperation", "VMA_DEFRAGMENTATION_MOVE_OPERATION_"),
        &vec![raw("VMA_DEFRAGMENTATION_MOVE_OPERATION_COPY", 0)],
        None,
    );
    write_flags(
        &mut expected,
        &flags("VmaVirtualBlockCreateFlagBits", "VMA_VIRTUAL_BLOCK_CREATE_"),
        &vec![raw("VMA_VIRTUAL_BLOCK_CREATE_LINEAR_ALGORITHM_BIT", 1)],
    );
    assert_eq!(out.text, expected);
    assert!(out.text.starts_with("#[derive(Debug, Clone, Copy, PartialEq, Eq)]\n#[repr(i32)]\npub enum DefragmentationMoveOperation {\n    COPY = VMA_DEFRAGMENTATION_MOVE_OPERATION_COPY,\n}\n"));
    assert!(out.text.contains("pub struct VirtualBlockCreateFlags: u32 {\n        const LINEAR_ALGORITHM = VMA_VIRTUAL_BLOCK_CREATE_LINEAR_ALGORITHM_BIT as u32;\n    }\n"));
    assert!(!out.text.contains("Suballocation"));
}

#[test]
fn nothing_scanned_gives_nothing() {
    let out = generate(&EnumMap::new(), &build_config_map());
    assert_eq!(out.text, "");
    assert!(out.warnings.is_empty());
    let mut map = EnumMap::new();
    map.record(Some("VmaMemoryUsage"), "VMA_MEMORY_USAGE_AUTO", Some(EnumVariantValue::Signed(7)));
    let none = generate(&map, &ConfigMap::new());
    assert_eq!(none.text, "");
    assert_eq!(none.warnings, vec![Warning::Unconfigured("VmaMemoryUsage".to_string())]);
}
