//! The scanner's record: which enum types of the native library were seen in
//! the header, and which variants each one declares.

use crate::naming::brand;
use crate::text::{
    chars_of, found_at, push_from, starts_with, string_from, trim_start, trimmed_len,
};
use crate::warning::{Warning, WarningView};
use vstd::prelude::*;

verus! {

/// The constant that a header assigns to a variant, as the header's parser
/// reports it.
#[derive(Debug, Clone, Copy, PartialEq, Eq)]
pub enum EnumVariantValue {
    /// A boolean constant.
    Boolean(bool),
    /// A signed constant.
    Signed(i64),
    /// An unsigned constant.
    Unsigned(u64),
}

impl EnumVariantValue {
    /// The integer that the constant stands for; `false` is 0 and `true` is 1.
    pub open spec fn as_int(self) -> int {
        match self {
            EnumVariantValue::Boolean(b) => if b {
                1
            } else {
                0
            },
            EnumVariantValue::Signed(v) => v as int,
            EnumVariantValue::Unsigned(v) => v as int,
        }
    }

    /// The constant as a number wide enough for every case.
    pub fn widened(self) -> (r: i128)
        ensures
            r == self.as_int(),
    {
        match self {
            EnumVariantValue::Boolean(b) => if b {
                1
            } else {
                0
            },
            EnumVariantValue::Signed(v) => v as i128,
            EnumVariantValue::Unsigned(v) => v as i128,
        }
    }

    /// Whether two constants stand for the same integer.
    pub fn same_integer(self, other: EnumVariantValue) -> (r: bool)
        ensures
            r == (self.as_int() == other.as_int()),
    {
        self.widened() == other.widened()
    }
}

/// The integer of an optional constant.
pub open spec fn opt_int(value: Option<EnumVariantValue>) -> Option<int> {
    match value {
        Some(v) => Some(v.as_int()),
        None => None,
    }
}

/// The view of an optional string slice.
pub open spec fn opt_str_view(s: Option<&str>) -> Option<Seq<char>> {
    match s {
        Some(s) => Some(s@),
        None => None,
    }
}

/// One variant as the header declares it.
#[derive(Debug, Clone, PartialEq, Eq)]
pub struct RawEnumVariant {
    /// The declared name.
    pub name: String,
    /// The declared value.
    pub value: EnumVariantValue,
}

/// A declared variant: its name and its integer value.
pub struct RawVariantView {
    pub name: Seq<char>,
    pub value: int,
}

impl View for RawEnumVariant {
    type V = RawVariantView;

    open spec fn view(&self) -> RawVariantView {
        RawVariantView { name: self.name@, value: self.value.as_int() }
    }
}

/// The views of a list of variants, in order.
pub open spec fn variant_views(vs: Seq<RawEnumVariant>) -> Seq<RawVariantView> {
    vs.map_values(|v: RawEnumVariant| v@)
}

/// Some variant in `vs` has the value `value`.
pub open spec fn has_value(vs: Seq<RawVariantView>, value: int) -> bool {
    exists|i: int| 0 <= i < vs.len() && #[trigger] vs[i].value == value
}

/// No two variants in `vs` have the same value.
pub open spec fn distinct_values(vs: Seq<RawVariantView>) -> bool {
    forall|i: int, j: int|
        0 <= i < j < vs.len() ==> #[trigger] vs[i].value != #[trigger] vs[j].value
}

/// `vs` after the declaration `v`: `v` comes last, unless its value was
/// already there, in which case nothing changes.
pub open spec fn push_unique(vs: Seq<RawVariantView>, v: RawVariantView) -> Seq<RawVariantView> {
    if has_value(vs, v.value) {
        vs
    } else {
        vs.push(v)
    }
}

/// `vs` after the declarations `decls`, taken in order.
pub open spec fn push_all_unique(vs: Seq<RawVariantView>, decls: Seq<RawVariantView>) -> Seq<
    RawVariantView,
>
    decreases decls.len(),
{
    if decls.len() == 0 {
        vs
    } else {
        push_unique(push_all_unique(vs, decls.drop_last()), decls.last())
    }
}

/// Recording a declaration keeps the values distinct.
pub proof fn lemma_push_unique_distinct(vs: Seq<RawVariantView>, v: RawVariantView)
    requires
        distinct_values(vs),
    ensures
        distinct_values(push_unique(vs, v)),
{
    if !has_value(vs, v.value) {
        let after = vs.push(v);
        assert forall|i: int, j: int| 0 <= i < j < after.len() implies #[trigger] after[i].value
            != #[trigger] after[j].value by {
            if j == vs.len() {
                assert(vs[i].value != v.value);
            }
        }
    }
}

/// The declaration at position `i` is the first in `decls` with its value.
pub open spec fn first_of_its_value(decls: Seq<RawVariantView>, i: int) -> bool {
    0 <= i < decls.len() && forall|j: int|
        0 <= j < i ==> (#[trigger] decls[j]).value != decls[i].value
}

/// `v` is a declaration in `decls`, and the first one with its value.
pub open spec fn first_declared(decls: Seq<RawVariantView>, v: RawVariantView) -> bool {
    exists|i: int| #[trigger] first_of_its_value(decls, i) && decls[i] == v
}

/// Duplicate suppression: of the declarations of one enum, taken in order,
/// exactly the first of each value is kept. No two kept variants share a
/// value, every kept variant is the first declaration of its value, and
/// every declared value is kept.
pub proof fn lemma_first_declaration_wins(decls: Seq<RawVariantView>)
    ensures
        distinct_values(push_all_unique(Seq::empty(), decls)),
        forall|k: int|
            0 <= k < push_all_unique(Seq::empty(), decls).len() ==> first_declared(
                decls,
                #[trigger] push_all_unique(Seq::empty(), decls)[k],
            ),
        forall|i: int|
            0 <= i < decls.len() ==> has_value(
                push_all_unique(Seq::empty(), decls),
                (#[trigger] decls[i]).value,
            ),
    decreases decls.len(),
{
    let kept = push_all_unique(Seq::empty(), decls);
    if decls.len() > 0 {
        let earlier = decls.drop_last();
        let last = decls.last();
        let kept_earlier = push_all_unique(Seq::empty(), earlier);
        lemma_first_declaration_wins(earlier);
        lemma_push_unique_distinct(kept_earlier, last);
        assert forall|i: int| 0 <= i < decls.len() implies has_value(
            kept,
            (#[trigger] decls[i]).value,
        ) by {
            if i < earlier.len() {
                assert(has_value(kept_earlier, earlier[i].value));
                let k = choose|k: int|
                    0 <= k < kept_earlier.len() && #[trigger] kept_earlier[k].value
                        == earlier[i].value;
                assert(kept[k].value == decls[i].value);
            } else if !has_value(kept_earlier, last.value) {
                assert(kept[kept_earlier.len() as int].value == last.value);
            }
        }
        assert forall|k: int| 0 <= k < kept.len() implies first_declared(
            decls,
            #[trigger] kept[k],
        ) by {
            if k < kept_earlier.len() {
                assert(first_declared(earlier, kept_earlier[k]));
                let i = choose|i: int|
                    #[trigger] first_of_its_value(earlier, i) && earlier[i] == kept_earlier[k];
                assert forall|j: int| 0 <= j < i implies (#[trigger] decls[j]).value
                    != decls[i].value by {
                    assert(earlier[j].value != earlier[i].value);
                }
                assert(first_of_its_value(decls, i) && decls[i] == kept[k]);
            } else {
                let i = decls.len() - 1;
                assert forall|j: int| 0 <= j < i implies (#[trigger] decls[j]).value
                    != decls[i].value by {
                    assert(has_value(kept_earlier, earlier[j].value));
                }
                assert(first_of_its_value(decls, i) && decls[i] == kept[k]);
            }
        }
    }
}

/// Records one declared variant in `vec`, unless a variant with the same
/// integer value is already there.
pub fn push_enum_variant(vec: &mut Vec<RawEnumVariant>, variant: &str, value: EnumVariantValue)
    ensures
        variant_views(final(vec)@) == push_unique(
            variant_views(old(vec)@),
            RawVariantView { name: variant@, value: value.as_int() },
        ),
{
    let ghost before = variant_views(vec@);
    let mut i: usize = 0;
    while i < vec.len()
        invariant
            i <= vec.len(),
            vec@ == old(vec)@,
            before == variant_views(vec@),
            forall|k: int| 0 <= k < i ==> #[trigger] before[k].value != value.as_int(),
        decreases vec.len() - i,
    {
        if vec[i].value.same_integer(value) {
            assert(before[i as int].value == value.as_int());
            return ;
        }
        i += 1;
    }
    vec.push(RawEnumVariant { name: variant.to_owned(), value });
    assert(variant_views(vec@) =~= before.push(
        RawVariantView { name: variant@, value: value.as_int() },
    ));
}

/// One scanned enum type: its name and the variants recorded for it.
#[derive(Debug, Clone, PartialEq, Eq)]
pub struct ScannedEnum {
    /// The name of the native type.
    pub name: String,
    /// Its variants, in the order in which they were declared.
    pub variants: Vec<RawEnumVariant>,
}

/// A scanned enum type: its name and its variants.
pub struct ScannedView {
    pub name: Seq<char>,
    pub variants: Seq<RawVariantView>,
}

impl View for ScannedEnum {
    type V = ScannedView;

    open spec fn view(&self) -> ScannedView {
        ScannedView { name: self.name@, variants: variant_views(self.variants@) }
    }
}

/// The views of a list of scanned enums, in order.
pub open spec fn scanned_views(es: Seq<ScannedEnum>) -> Seq<ScannedView> {
    es.map_values(|e: ScannedEnum| e@)
}

/// Some enum in `map` has the name `name`.
pub open spec fn has_enum(map: Seq<ScannedView>, name: Seq<char>) -> bool {
    exists|i: int| 0 <= i < map.len() && #[trigger] map[i].name == name
}

/// No two enums in `map` have the same name.
pub open spec fn distinct_names(map: Seq<ScannedView>) -> bool {
    forall|i: int, j: int| 0 <= i < j < map.len() ==> #[trigger] map[i].name != #[trigger] map[j].name
}

/// Every enum in `map` has variants of distinct values.
pub open spec fn all_distinct_values(map: Seq<ScannedView>) -> bool {
    forall|i: int| 0 <= i < map.len() ==> distinct_values(#[trigger] map[i].variants)
}

/// The keyword that the header's parser may leave in front of a type's name.
pub open spec fn enum_keyword() -> Seq<char> {
    "enum "@
}

/// The name under which a type is recorded: the reported name without the
/// keyword in front of it.
pub open spec fn recorded_name(reported: Seq<char>) -> Seq<char> {
    trim_start(reported, enum_keyword())
}

/// Whether a type with this reported name belongs to the native library.
pub open spec fn is_library_type(reported: Seq<char>) -> bool {
    starts_with(recorded_name(reported), brand())
}

/// `map` after the variant `v` was declared in the enum `name`: the enum of
/// that name records it; if there is none yet, a new enum with that one
/// variant comes last.
pub open spec fn with_variant(map: Seq<ScannedView>, name: Seq<char>, v: RawVariantView) -> Seq<
    ScannedView,
> {
    if has_enum(map, name) {
        map.map_values(
            |e: ScannedView|
                if e.name == name {
                    ScannedView { name: e.name, variants: push_unique(e.variants, v) }
                } else {
                    e
                },
        )
    } else {
        map.push(ScannedView { name: name, variants: seq![v] })
    }
}

/// `map` after one report of the header's parser. A report without a type
/// name, for a type that is not the library's, or without a value changes
/// nothing.
pub open spec fn recorded(
    map: Seq<ScannedView>,
    enum_name: Option<Seq<char>>,
    variant: Seq<char>,
    value: Option<int>,
) -> Seq<ScannedView> {
    match (enum_name, value) {
        (Some(reported), Some(v)) => if is_library_type(reported) {
            with_variant(map, recorded_name(reported), RawVariantView { name: variant, value: v })
        } else {
            map
        },
        _ => map,
    }
}

/// The warning that one report gives rise to, if any: a missing type name
/// always, a missing value where the type is the library's.
pub open spec fn record_warning(
    enum_name: Option<Seq<char>>,
    variant: Seq<char>,
    value: Option<int>,
) -> Option<WarningView> {
    match enum_name {
        None => Some(WarningView::MissingEnumName(variant)),
        Some(reported) => if is_library_type(reported) && value is None {
            Some(WarningView::MissingValue(variant))
        } else {
            None
        },
    }
}

/// The view of an optional warning.
pub open spec fn opt_warning_view(w: Option<Warning>) -> Option<WarningView> {
    match w {
        Some(w) => Some(w@),
        None => None,
    }
}

/// Recording a variant keeps names and values distinct.
pub proof fn lemma_with_variant_distinct(map: Seq<ScannedView>, name: Seq<char>, v: RawVariantView)
    requires
        distinct_names(map),
        all_distinct_values(map),
    ensures
        distinct_names(with_variant(map, name, v)),
        all_distinct_values(with_variant(map, name, v)),
{
    let after = with_variant(map, name, v);
    if has_enum(map, name) {
        assert forall|i: int| 0 <= i < after.len() implies distinct_values(
            #[trigger] after[i].variants,
        ) by {
            assert(distinct_values(map[i].variants));
            lemma_push_unique_distinct(map[i].variants, v);
        }
        assert forall|i: int, j: int| 0 <= i < j < after.len() implies #[trigger] after[i].name
            != #[trigger] after[j].name by {
            assert(map[i].name != map[j].name);
        }
    } else {
        assert forall|i: int| 0 <= i < after.len() implies distinct_values(
            #[trigger] after[i].variants,
        ) by {
            if i < map.len() {
                assert(distinct_values(map[i].variants));
            }
        }
        assert forall|i: int, j: int| 0 <= i < j < after.len() implies #[trigger] after[i].name
            != #[trigger] after[j].name by {
            if j < map.len() {
                assert(map[i].name != map[j].name);
            } else {
                assert(map[i].name != name);
            }
        }
    }
}

/// The enum types seen so far, in the order in which each was first seen.
#[derive(Debug, Clone)]
pub struct EnumMap {
    entries: Vec<ScannedEnum>,
}

impl View for EnumMap {
    type V = Seq<ScannedView>;

    closed spec fn view(&self) -> Seq<ScannedView> {
        scanned_views(self.entries@)
    }
}

impl EnumMap {
    /// No type is recorded twice, and no type has two variants of one value.
    pub open spec fn wf(&self) -> bool {
        distinct_names(self@) && all_distinct_values(self@)
    }

    /// A record in which no type was seen yet.
    pub fn new() -> (map: EnumMap)
        ensures
            map@ == Seq::<ScannedView>::empty(),
            map.wf(),
    {
        let map = EnumMap { entries: Vec::new() };
        assert(map@ =~= Seq::<ScannedView>::empty());
        map
    }

    /// The recorded types with their variants, in the order in which each
    /// type was first seen.
    pub fn entries(&self) -> (r: &Vec<ScannedEnum>)
        ensures
            scanned_views(r@) == self@,
    {
        &self.entries
    }

    /// Takes one report of the header's parser: a variant, the name of the
    /// enum type that declares it, and its value.
    ///
    /// The variant is recorded where the type is the library's and both the
    /// type's name and the value are known. A report without a type name
    /// gives a warning, and so does one for a library type without a value.
    #[verifier::loop_isolation(false)]
    pub fn record(
        &mut self,
        enum_name: Option<&str>,
        original_variant_name: &str,
        variant_value: Option<EnumVariantValue>,
    ) -> (w: Option<Warning>)
        requires
            old(self).wf(),
        ensures
            final(self).wf(),
            final(self)@ == recorded(
                old(self)@,
                opt_str_view(enum_name),
                original_variant_name@,
                opt_int(variant_value),
            ),
            opt_warning_view(w) == record_warning(
                opt_str_view(enum_name),
                original_variant_name@,
                opt_int(variant_value),
            ),
    {
        let reported = match enum_name {
            Some(name) => name,
            None => {
                return Some(Warning::MissingEnumName(original_variant_name.to_owned()));
            },
        };
        let full = chars_of(reported);
        let k = trimmed_len(&full, &chars_of("enum "));
        let mut trimmed: Vec<char> = Vec::new();
        push_from(&mut trimmed, &full, k);
        if !found_at(&trimmed, &chars_of("Vma"), 0) {
            return None;
        }
        let value = match variant_value {
            Some(value) => value,
            None => {
                return Some(Warning::MissingValue(original_variant_name.to_owned()));
            },
        };
        let name = string_from(&trimmed, 0);
        assert(trimmed@.skip(0) =~= trimmed@);
        let ghost v = RawVariantView { name: original_variant_name@, value: value.as_int() };
        let ghost before = self@;
        proof {
            lemma_with_variant_distinct(before, name@, v);
        }
        let mut i: usize = 0;
        while i < self.entries.len()
            invariant
                i <= self.entries.len(),
                self@ == before,
                forall|j: int| 0 <= j < i ==> #[trigger] before[j].name != name@,
            decreases self.entries.len() - i,
        {
            if self.entries[i].name == name {
                assert(before[i as int].name == name@);
                let ghost entries_before = self.entries@;
                push_enum_variant(&mut self.entries[i].variants, original_variant_name, value);
                assert(self@ =~= with_variant(before, name@, v)) by {
                    assert(self.entries@.len() == entries_before.len());
                    assert forall|j: int| 0 <= j < before.len() implies #[trigger] self@[j]
                        == with_variant(before, name@, v)[j] by {
                        if j != i {
                            assert(self.entries@[j] == entries_before[j]);
                            assert(before[j].name != before[i as int].name);
                        } else {
                            assert(self.entries@[j].name == entries_before[j].name);
                        }
                    }
                }
                return None;
            }
            i += 1;
        }
        let mut variants: Vec<RawEnumVariant> = Vec::new();
        push_enum_variant(&mut variants, original_variant_name, value);
        assert(variant_views(variants@) =~= seq![v]);
        self.entries.push(ScannedEnum { name, variants });
        assert(self@ =~= with_variant(before, name@, v));
        None
    }
}

} // verus!
