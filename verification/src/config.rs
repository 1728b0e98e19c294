//! The configuration: which native enum types get a wrapper, under which
//! name, with which variant prefix, and whether as a bitmask.

use crate::text::same_text;
use crate::warning::{warning_views, Warning, WarningView};
use vstd::prelude::*;

verus! {

/// How one native enum type is to be wrapped.
#[derive(Debug, Clone, Copy)]
pub struct EnumConfig<'a> {
    /// The name of the native type.
    pub name: &'a str,
    /// The name of the wrapper, where it is not derived from `name`.
    pub custom_name: Option<&'a str>,
    /// What every variant's declared name begins with.
    pub prefix: &'a str,
    /// Whether the type lists the bits of a bitmask.
    pub is_flags: bool,
}

/// A configuration entry over sequences of characters.
pub struct ConfigView {
    pub name: Seq<char>,
    pub custom_name: Option<Seq<char>>,
    pub prefix: Seq<char>,
    pub is_flags: bool,
}

impl<'a> View for EnumConfig<'a> {
    type V = ConfigView;

    open spec fn view(&self) -> ConfigView {
        ConfigView {
            name: self.name@,
            custom_name: match self.custom_name {
                Some(n) => Some(n@),
                None => None,
            },
            prefix: self.prefix@,
            is_flags: self.is_flags,
        }
    }
}

impl<'a> Default for EnumConfig<'a> {
    /// The entry of a plain enum with empty names and an empty prefix.
    fn default() -> (config: Self)
        ensures
            config@ == (ConfigView {
                name: ""@,
                custom_name: None,
                prefix: ""@,
                is_flags: false,
            }),
    {
        EnumConfig { name: "", custom_name: None, prefix: "", is_flags: false }
    }
}

/// The views of a list of entries, in order.
pub open spec fn config_views(cs: Seq<EnumConfig>) -> Seq<ConfigView> {
    cs.map_values(|c: EnumConfig| c@)
}

/// The view of an optional entry.
pub open spec fn opt_config_view(c: Option<EnumConfig>) -> Option<ConfigView> {
    match c {
        Some(c) => Some(c@),
        None => None,
    }
}

/// The mapping that a list of entries stands for: each entry under its
/// name, a later entry replacing an earlier one of the same name.
pub open spec fn table_map(entries: Seq<ConfigView>) -> Map<Seq<char>, ConfigView>
    decreases entries.len(),
{
    if entries.len() == 0 {
        Map::empty()
    } else {
        table_map(entries.drop_last()).insert(entries.last().name, entries.last())
    }
}

/// One warning for each entry that replaces an earlier one, in order; each
/// names the type that was configured twice.
pub open spec fn table_warnings(entries: Seq<ConfigView>) -> Seq<WarningView>
    decreases entries.len(),
{
    if entries.len() == 0 {
        Seq::empty()
    } else {
        let earlier = entries.drop_last();
        if table_map(earlier).contains_key(entries.last().name) {
            table_warnings(earlier).push(WarningView::DuplicateConfig(entries.last().name))
        } else {
            table_warnings(earlier)
        }
    }
}

/// What `name` maps to in `map`, if anything.
pub open spec fn lookup(map: Map<Seq<char>, ConfigView>, name: Seq<char>) -> Option<ConfigView> {
    if map.contains_key(name) {
        Some(map[name])
    } else {
        None
    }
}

/// An entry after which no entry of the same name follows is the one that
/// its name maps to; a name that no entry has maps to nothing.
pub proof fn lemma_table_lookup(entries: Seq<ConfigView>, name: Seq<char>, i: int)
    requires
        0 <= i <= entries.len(),
        forall|j: int| i <= j < entries.len() ==> (#[trigger] entries[j]).name != name,
    ensures
        i > 0 && entries[i - 1].name == name ==> lookup(table_map(entries), name) == Some(
            entries[i - 1],
        ),
        i == 0 ==> lookup(table_map(entries), name) is None,
    decreases entries.len(),
{
    if i < entries.len() {
        assert(entries.last().name != name);
        lemma_table_lookup(entries.drop_last(), name, i);
    }
}

/// The configuration table: at most one entry for each native type name.
#[derive(Debug, Clone)]
pub struct ConfigMap<'a> {
    entries: Vec<EnumConfig<'a>>,
}

impl<'a> View for ConfigMap<'a> {
    type V = Map<Seq<char>, ConfigView>;

    closed spec fn view(&self) -> Map<Seq<char>, ConfigView> {
        table_map(config_views(self.entries@))
    }
}

impl<'a> ConfigMap<'a> {
    /// A table without entries.
    pub fn new() -> (map: ConfigMap<'a>)
        ensures
            map@ == Map::<Seq<char>, ConfigView>::empty(),
    {
        ConfigMap { entries: Vec::new() }
    }

    /// The entry for the native type `name`, by exact match.
    pub fn get(&self, name: &str) -> (found: Option<EnumConfig<'a>>)
        ensures
            opt_config_view(found) == lookup(self@, name@),
    {
        let ghost views = config_views(self.entries@);
        let mut i: usize = self.entries.len();
        while i > 0
            invariant
                i <= self.entries.len(),
                views == config_views(self.entries@),
                forall|j: int| i <= j < views.len() ==> (#[trigger] views[j]).name != name@,
            decreases i,
        {
            if same_text(self.entries[i - 1].name, name) {
                proof {
                    lemma_table_lookup(views, name@, i as int);
                }
                return Some(self.entries[i - 1]);
            }
            i -= 1;
        }
        proof {
            lemma_table_lookup(views, name@, 0);
        }
        None
    }

    /// Puts `config` under its name. An entry that was there under that
    /// name is replaced and returned.
    pub fn insert(&mut self, config: EnumConfig<'a>) -> (replaced: Option<EnumConfig<'a>>)
        ensures
            final(self)@ == old(self)@.insert(config.name@, config@),
            opt_config_view(replaced) == lookup(old(self)@, config.name@),
    {
        let replaced = self.get(config.name);
        self.entries.push(config);
        assert(config_views(self.entries@).drop_last() =~= config_views(old(self).entries@));
        replaced
    }

    /// The table that holds `configs`, entered in order, and one warning for
    /// each entry that replaced an earlier one.
    pub fn from_entries(configs: &[EnumConfig<'a>]) -> (r: (ConfigMap<'a>, Vec<Warning>))
        ensures
            r.0@ == table_map(config_views(configs@)),
            warning_views(r.1@) == table_warnings(config_views(configs@)),
    {
        let ghost views = config_views(configs@);
        let mut map = ConfigMap::new();
        let mut warnings: Vec<Warning> = Vec::new();
        let mut i: usize = 0;
        assert(views.take(0) =~= Seq::<ConfigView>::empty());
        while i < configs.len()
            invariant
                i <= configs.len(),
                views == config_views(configs@),
                map@ == table_map(views.take(i as int)),
                warning_views(warnings@) == table_warnings(views.take(i as int)),
            decreases configs.len() - i,
        {
            let config = configs[i];
            assert(views.take(i + 1).drop_last() =~= views.take(i as int));
            assert(views.take(i + 1).last() == config@);
            let ghost before = warning_views(warnings@);
            match map.insert(config) {
                Some(_) => {
                    warnings.push(Warning::DuplicateConfig(config.name.to_owned()));
                    assert(warning_views(warnings@) =~= before.push(
                        WarningView::DuplicateConfig(config.name@),
                    ));
                },
                None => {},
            }
            i += 1;
        }
        assert(views.take(i as int) =~= views);
        (map, warnings)
    }
}

/// The entry of a plain enum whose wrapper's name is derived.
pub open spec fn plain_entry(name: Seq<char>, prefix: Seq<char>) -> ConfigView {
    ConfigView { name, custom_name: None, prefix, is_flags: false }
}

/// The entry of a bitmask whose wrapper's name is derived.
pub open spec fn flags_entry(name: Seq<char>, prefix: Seq<char>) -> ConfigView {
    ConfigView { name, custom_name: None, prefix, is_flags: true }
}

/// The native enum types that get a wrapper.
pub open spec fn default_table() -> Seq<ConfigView> {
    seq![
        plain_entry("VmaMemoryUsage"@, "VMA_MEMORY_USAGE_"@),
        flags_entry("VmaAllocationCreateFlagBits"@, "VMA_ALLOCATION_CREATE_"@),
        flags_entry("VmaPoolCreateFlagBits"@, "VMA_POOL_CREATE_"@),
        flags_entry("VmaAllocatorCreateFlagBits"@, "VMA_ALLOCATOR_CREATE_"@),
        flags_entry("VmaDefragmentationFlagBits"@, "VMA_DEFRAGMENTATION_FLAG_"@),
        plain_entry("VmaDefragmentationMoveOperation"@, "VMA_DEFRAGMENTATION_MOVE_OPERATION_"@),
        flags_entry("VmaVirtualBlockCreateFlagBits"@, "VMA_VIRTUAL_BLOCK_CREATE_"@),
        flags_entry("VmaVirtualAllocationCreateFlagBits"@, "VMA_VIRTUAL_ALLOCATION_CREATE_"@),
    ]
}

/// No two entries have the same name.
pub open spec fn distinct_entry_names(entries: Seq<ConfigView>) -> bool {
    forall|i: int, j: int|
        0 <= i < j < entries.len() ==> (#[trigger] entries[i]).name != (#[trigger] entries[j]).name
}

/// Entries of distinct names replace nothing, so they give no warning.
pub proof fn lemma_distinct_names_no_warnings(entries: Seq<ConfigView>)
    requires
        distinct_entry_names(entries),
    ensures
        table_warnings(entries) == Seq::<WarningView>::empty(),
    decreases entries.len(),
{
    if entries.len() > 0 {
        let earlier = entries.drop_last();
        assert forall|i: int, j: int| 0 <= i < j < earlier.len() implies (#[trigger] earlier[i]).name
            != (#[trigger] earlier[j]).name by {
            assert(entries[i].name != entries[j].name);
        }
        lemma_distinct_names_no_warnings(earlier);
        assert forall|j: int| 0 <= j < earlier.len() implies (#[trigger] earlier[j]).name
            != entries.last().name by {
            assert(entries[j].name != entries[entries.len() - 1].name);
        }
        lemma_table_lookup(earlier, entries.last().name, 0);
    }
}

/// The names in the table of native enum types are distinct.
pub proof fn lemma_default_table_distinct()
    ensures
        distinct_entry_names(default_table()),
{
    reveal_strlit("VmaMemoryUsage");
    reveal_strlit("VmaAllocationCreateFlagBits");
    reveal_strlit("VmaPoolCreateFlagBits");
    reveal_strlit("VmaAllocatorCreateFlagBits");
    reveal_strlit("VmaDefragmentationFlagBits");
    reveal_strlit("VmaDefragmentationMoveOperation");
    reveal_strlit("VmaVirtualBlockCreateFlagBits");
    reveal_strlit("VmaVirtualAllocationCreateFlagBits");
    let t = default_table();
    assert(t[0].name.len() == 14);
    assert(t[1].name.len() == 27);
    assert(t[2].name.len() == 21);
    assert(t[3].name.len() == 26 && t[3].name[3] == 'A');
    assert(t[4].name.len() == 26 && t[4].name[3] == 'D');
    assert(t[5].name.len() == 31);
    assert(t[6].name.len() == 29);
    assert(t[7].name.len() == 34);
}

/// Builds the configuration table of the native enum types. No type is
/// configured twice in it, so building it gives no warning.
pub fn build_config_map() -> (map: ConfigMap<'static>)
    ensures
        map@ == table_map(default_table()),
        table_warnings(default_table()) == Seq::<WarningView>::empty(),
{
    let configs: Vec<EnumConfig<'static>> = vec![
        EnumConfig {
            name: "VmaMemoryUsage",
            custom_name: None,
            prefix: "VMA_MEMORY_USAGE_",
            is_flags: false,
        },
        EnumConfig {
            name: "VmaAllocationCreateFlagBits",
            custom_name: None,
            prefix: "VMA_ALLOCATION_CREATE_",
            is_flags: true,
        },
        EnumConfig {
            name: "VmaPoolCreateFlagBits",
            custom_name: None,
            prefix: "VMA_POOL_CREATE_",
            is_flags: true,
        },
        EnumConfig {
            name: "VmaAllocatorCreateFlagBits",
            custom_name: None,
            prefix: "VMA_ALLOCATOR_CREATE_",
            is_flags: true,
        },
        EnumConfig {
            name: "VmaDefragmentationFlagBits",
            custom_name: None,
            prefix: "VMA_DEFRAGMENTATION_FLAG_",
            is_flags: true,
        },
        EnumConfig {
            name: "VmaDefragmentationMoveOperation",
            custom_name: None,
            prefix: "VMA_DEFRAGMENTATION_MOVE_OPERATION_",
            is_flags: false,
        },
        EnumConfig {
            name: "VmaVirtualBlockCreateFlagBits",
            custom_name: None,
            prefix: "VMA_VIRTUAL_BLOCK_CREATE_",
            is_flags: true,
        },
        EnumConfig {
            name: "VmaVirtualAllocationCreateFlagBits",
            custom_name: None,
            prefix: "VMA_VIRTUAL_ALLOCATION_CREATE_",
            is_flags: true,
        },
    ];
    assert(config_views(configs@) =~= default_table());
    proof {
        lemma_default_table_distinct();
        lemma_distinct_names_no_warnings(default_table());
    }
    let (map, _) = ConfigMap::from_entries(configs.as_slice());
    map
}

} // verus!
