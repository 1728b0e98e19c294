//! The emitter: from a classified enum to the definition of its wrapper,
//! and from the definition to the source text of the wrapper.

use crate::config::{lookup, ConfigMap, ConfigView, EnumConfig};
use crate::naming::{
    enum_name, filter_enum_variant, flag_enum_name, flag_variant_name, format_enum_name,
    format_enum_variant_name, format_flag_enum_name, format_flag_variant_name, is_sentinel,
    variant_name,
};
use crate::scan::{
    distinct_values, first_declared, first_of_its_value, lemma_first_declaration_wins,
    push_all_unique,
    scanned_views, variant_views, EnumMap, EnumVariantValue, RawEnumVariant, RawVariantView,
    ScannedView,
};
use crate::text::same_text;
use crate::warning::{warning_views, Warning, WarningView};
use vstd::prelude::*;
use vstd::string::StringExecFns;

verus! {

/// One variant of a wrapper.
#[derive(Debug, Clone, PartialEq, Eq)]
pub struct GeneratedVariant {
    /// The variant's name in the wrapper.
    pub name: String,
    /// The declared name, which the wrapper's text names as the value.
    pub source: String,
    /// The declared value.
    pub value: EnumVariantValue,
}

/// A variant of a wrapper: its name, the declared name, the declared value.
pub struct VariantDef {
    pub name: Seq<char>,
    pub source: Seq<char>,
    pub value: int,
}

impl View for GeneratedVariant {
    type V = VariantDef;

    open spec fn view(&self) -> VariantDef {
        VariantDef { name: self.name@, source: self.source@, value: self.value.as_int() }
    }
}

/// The views of a list of variants, in order.
pub open spec fn variant_defs(vs: Seq<GeneratedVariant>) -> Seq<VariantDef> {
    vs.map_values(|v: GeneratedVariant| v@)
}

/// The wrapper of one native enum type, ready to be written out.
#[derive(Debug, Clone, PartialEq, Eq)]
pub struct GeneratedEnumDef {
    /// The wrapper's name.
    pub name: String,
    /// The name of the native type, against which the wrapper's size is
    /// checked.
    pub native_name: String,
    /// The wrapper's variants, in the order of their declaration.
    pub variants: Vec<GeneratedVariant>,
    /// Whether the wrapper is a bitmask.
    pub is_flags: bool,
}

/// The wrapper of a native enum type.
pub struct EnumDef {
    pub name: Seq<char>,
    pub native_name: Seq<char>,
    pub variants: Seq<VariantDef>,
    pub is_flags: bool,
}

impl View for GeneratedEnumDef {
    type V = EnumDef;

    open spec fn view(&self) -> EnumDef {
        EnumDef {
            name: self.name@,
            native_name: self.native_name@,
            variants: variant_defs(self.variants@),
            is_flags: self.is_flags,
        }
    }
}

/// The declared names that a caller asks to leave out.
pub open spec fn skip_view(skip: Option<&[&str]>) -> Seq<Seq<char>> {
    match skip {
        Some(list) => list@.map_values(|s: &str| s@),
        None => Seq::empty(),
    }
}

/// The name of the wrapper: the configured one, or else the one derived from
/// the native name by the rule for its kind.
pub open spec fn def_name(config: ConfigView, flags: bool) -> Seq<char> {
    match config.custom_name {
        Some(name) => name,
        None => if flags {
            flag_enum_name(config.name)
        } else {
            enum_name(config.name)
        },
    }
}

/// The name of a variant in the wrapper, by the rule for the wrapper's kind.
pub open spec fn def_variant_name(prefix: Seq<char>, declared: Seq<char>, flags: bool) -> Option<
    Seq<char>,
> {
    if flags {
        flag_variant_name(prefix, declared)
    } else {
        variant_name(prefix, declared)
    }
}

/// A declared variant that is left out without a word: the sentinel, and
/// what the caller asked to leave out.
pub open spec fn is_left_out(v: RawVariantView, skip: Seq<Seq<char>>) -> bool {
    is_sentinel(v.name) || skip.contains(v.name)
}

/// The variants of the wrapper: each declared variant that is not left out
/// and has a name, in the order of declaration.
pub open spec fn def_variants(
    prefix: Seq<char>,
    vs: Seq<RawVariantView>,
    skip: Seq<Seq<char>>,
    flags: bool,
) -> Seq<VariantDef>
    decreases vs.len(),
{
    if vs.len() == 0 {
        Seq::empty()
    } else {
        let earlier = def_variants(prefix, vs.drop_last(), skip, flags);
        let v = vs.last();
        if is_left_out(v, skip) {
            earlier
        } else {
            match def_variant_name(prefix, v.name, flags) {
                Some(name) => earlier.push(VariantDef { name, source: v.name, value: v.value }),
                None => earlier,
            }
        }
    }
}

/// One warning for each declared variant that is not left out and has no
/// name, in the order of declaration.
pub open spec fn def_warnings(
    prefix: Seq<char>,
    vs: Seq<RawVariantView>,
    skip: Seq<Seq<char>>,
    flags: bool,
) -> Seq<WarningView>
    decreases vs.len(),
{
    if vs.len() == 0 {
        Seq::empty()
    } else {
        let earlier = def_warnings(prefix, vs.drop_last(), skip, flags);
        let v = vs.last();
        if !is_left_out(v, skip) && def_variant_name(prefix, v.name, flags) is None {
            earlier.push(WarningView::PrefixMismatch(v.name))
        } else {
            earlier
        }
    }
}

/// The wrapper that a configuration entry and the declared variants give.
pub open spec fn make_def(
    config: ConfigView,
    vs: Seq<RawVariantView>,
    skip: Seq<Seq<char>>,
    flags: bool,
) -> EnumDef {
    EnumDef {
        name: def_name(config, flags),
        native_name: config.name,
        variants: def_variants(config.prefix, vs, skip, flags),
        is_flags: flags,
    }
}

impl VariantDef {
    /// The line of a plain enum that declares this variant.
    pub open spec fn plain_line(self) -> Seq<char> {
        "    "@ + self.name + " = "@ + self.source + ",\n"@
    }

    /// The line of a bitmask that declares this variant.
    pub open spec fn flag_line(self) -> Seq<char> {
        "        const "@ + self.name + " = "@ + self.source + " as u32;\n"@
    }

    /// The line that declares this variant in a wrapper of the given kind.
    pub open spec fn line(self, flags: bool) -> Seq<char> {
        if flags {
            self.flag_line()
        } else {
            self.plain_line()
        }
    }
}

/// The lines that declare the variants, in order.
pub open spec fn lines(vs: Seq<VariantDef>, flags: bool) -> Seq<char>
    decreases vs.len(),
{
    if vs.len() == 0 {
        Seq::empty()
    } else {
        lines(vs.drop_last(), flags) + vs.last().line(flags)
    }
}

impl EnumDef {
    /// The line that checks the wrapper's size against the native type's.
    pub open spec fn size_check(self) -> Seq<char> {
        "assert_eq_size!("@ + self.name + ", "@ + self.native_name + ");\n"@
    }

    /// The text of a plain enum: a closed set of named values over a signed
    /// 32-bit integer, the size check, and the two conversions.
    pub open spec fn plain_text(self) -> Seq<char> {
        "#[derive(Debug, Clone, Copy, PartialEq, Eq)]\n"@ + "#[repr(i32)]\n"@ + "pub enum "@
            + self.name + " {\n"@ + lines(self.variants, false) + "}\n"@ + self.size_check()
            + "impl "@ + self.name + " {\n"@
            + "    pub const fn from_raw(value: i32) -> Self { unsafe { std::mem::transmute(value) } }\n"@
            + "    pub const fn as_raw(&self) -> i32 { *self as i32 }\n"@ + "}\n"@ + "\n"@
    }

    /// The text of a bitmask: named bits over an unsigned 32-bit integer,
    /// and the size check.
    pub open spec fn flags_text(self) -> Seq<char> {
        "bitflags! {\n"@ + "    #[derive(Default, Clone, Copy, PartialEq, Eq)]\n"@
            + "    pub struct "@ + self.name + ": u32 {\n"@ + lines(self.variants, true)
            + "    }\n"@ + "}\n"@ + self.size_check() + "\n"@
    }

    /// The text of the wrapper.
    pub open spec fn text(self) -> Seq<char> {
        if self.is_flags {
            self.flags_text()
        } else {
            self.plain_text()
        }
    }
}

/// What one scanned enum adds to the output: the text of its wrapper, or
/// nothing where the configuration has no entry for it.
pub open spec fn enum_output(e: ScannedView, configs: Map<Seq<char>, ConfigView>) -> Seq<char> {
    match lookup(configs, e.name) {
        Some(c) => make_def(c, e.variants, Seq::empty(), c.is_flags).text(),
        None => Seq::empty(),
    }
}

/// The warnings that one scanned enum gives: those of its variants, or the
/// one that says that the configuration has no entry for it.
pub open spec fn enum_warnings(e: ScannedView, configs: Map<Seq<char>, ConfigView>) -> Seq<
    WarningView,
> {
    match lookup(configs, e.name) {
        Some(c) => def_warnings(c.prefix, e.variants, Seq::empty(), c.is_flags),
        None => seq![WarningView::Unconfigured(e.name)],
    }
}

/// The output for all scanned enums, in order.
pub open spec fn output_text(map: Seq<ScannedView>, configs: Map<Seq<char>, ConfigView>) -> Seq<
    char,
>
    decreases map.len(),
{
    if map.len() == 0 {
        Seq::empty()
    } else {
        output_text(map.drop_last(), configs) + enum_output(map.last(), configs)
    }
}

/// The warnings for all scanned enums, in order.
pub open spec fn output_warnings(
    map: Seq<ScannedView>,
    configs: Map<Seq<char>, ConfigView>,
) -> Seq<WarningView>
    decreases map.len(),
{
    if map.len() == 0 {
        Seq::empty()
    } else {
        output_warnings(map.drop_last(), configs) + enum_warnings(map.last(), configs)
    }
}

/// The wrapper's variant `d` stems from the declaration at position `i`: it
/// has that declaration's name as its source, its value, and the name that
/// the naming rule gives it, and the declaration is not left out.
pub open spec fn stems_from(
    d: VariantDef,
    prefix: Seq<char>,
    vs: Seq<RawVariantView>,
    skip: Seq<Seq<char>>,
    flags: bool,
    i: int,
) -> bool {
    0 <= i < vs.len() && vs[i].name == d.source && vs[i].value == d.value && !is_left_out(
        vs[i],
        skip,
    ) && def_variant_name(prefix, vs[i].name, flags) == Some(d.name)
}

/// The wrapper's variant `d` stems from one of the declarations `vs`.
pub open spec fn has_origin(
    d: VariantDef,
    prefix: Seq<char>,
    vs: Seq<RawVariantView>,
    skip: Seq<Seq<char>>,
    flags: bool,
) -> bool {
    exists|i: int| stems_from(d, prefix, vs, skip, flags, i)
}

/// The wrapper's variant `d` stems from a declaration in `decls` that is the
/// first one with its value.
pub open spec fn has_first_origin(
    d: VariantDef,
    prefix: Seq<char>,
    decls: Seq<RawVariantView>,
    skip: Seq<Seq<char>>,
    flags: bool,
) -> bool {
    exists|i: int| first_of_its_value(decls, i) && stems_from(d, prefix, decls, skip, flags, i)
}

/// No two variants of a wrapper have the same value.
pub open spec fn distinct_def_values(ds: Seq<VariantDef>) -> bool {
    forall|i: int, j: int|
        0 <= i < j < ds.len() ==> (#[trigger] ds[i]).value != (#[trigger] ds[j]).value
}

/// Every variant of a wrapper stems from a declared variant.
pub proof fn lemma_variants_stem_from_declared(
    prefix: Seq<char>,
    vs: Seq<RawVariantView>,
    skip: Seq<Seq<char>>,
    flags: bool,
)
    ensures
        forall|k: int|
            0 <= k < def_variants(prefix, vs, skip, flags).len() ==> has_origin(
                #[trigger] def_variants(prefix, vs, skip, flags)[k],
                prefix,
                vs,
                skip,
                flags,
            ),
    decreases vs.len(),
{
    let ds = def_variants(prefix, vs, skip, flags);
    if vs.len() > 0 {
        let earlier_vs = vs.drop_last();
        let earlier = def_variants(prefix, earlier_vs, skip, flags);
        lemma_variants_stem_from_declared(prefix, earlier_vs, skip, flags);
        assert forall|k: int| 0 <= k < ds.len() implies has_origin(
            #[trigger] ds[k],
            prefix,
            vs,
            skip,
            flags,
        ) by {
            if k < earlier.len() {
                assert(has_origin(earlier[k], prefix, earlier_vs, skip, flags));
                let i = choose|i: int| stems_from(earlier[k], prefix, earlier_vs, skip, flags, i);
                assert(stems_from(ds[k], prefix, vs, skip, flags, i));
            } else {
                assert(stems_from(ds[k], prefix, vs, skip, flags, vs.len() - 1));
            }
        }
    }
}

/// Sentinel exclusion: no variant of a wrapper stems from a declaration
/// whose name holds the sentinel marker, whatever the configuration.
pub proof fn lemma_sentinel_never_emitted(
    prefix: Seq<char>,
    vs: Seq<RawVariantView>,
    skip: Seq<Seq<char>>,
    flags: bool,
)
    ensures
        forall|k: int|
            0 <= k < def_variants(prefix, vs, skip, flags).len() ==> !is_sentinel(
                (#[trigger] def_variants(prefix, vs, skip, flags)[k]).source,
            ),
{
    lemma_variants_stem_from_declared(prefix, vs, skip, flags);
    let ds = def_variants(prefix, vs, skip, flags);
    assert forall|k: int| 0 <= k < ds.len() implies !is_sentinel((#[trigger] ds[k]).source) by {
        assert(has_origin(ds[k], prefix, vs, skip, flags));
        let i = choose|i: int| stems_from(ds[k], prefix, vs, skip, flags, i);
        assert(stems_from(ds[k], prefix, vs, skip, flags, i));
    }
}

/// Declarations of distinct values give a wrapper whose variants have
/// distinct values.
pub proof fn lemma_def_values_distinct(
    prefix: Seq<char>,
    vs: Seq<RawVariantView>,
    skip: Seq<Seq<char>>,
    flags: bool,
)
    requires
        distinct_values(vs),
    ensures
        distinct_def_values(def_variants(prefix, vs, skip, flags)),
    decreases vs.len(),
{
    let ds = def_variants(prefix, vs, skip, flags);
    if vs.len() > 0 {
        let earlier_vs = vs.drop_last();
        let earlier = def_variants(prefix, earlier_vs, skip, flags);
        assert forall|i: int, j: int| 0 <= i < j < earlier_vs.len() implies #[trigger] earlier_vs[i].value
            != #[trigger] earlier_vs[j].value by {
            assert(vs[i].value != vs[j].value);
        }
        lemma_def_values_distinct(prefix, earlier_vs, skip, flags);
        lemma_variants_stem_from_declared(prefix, earlier_vs, skip, flags);
        assert forall|i: int, j: int| 0 <= i < j < ds.len() implies (#[trigger] ds[i]).value != (
        #[trigger] ds[j]).value by {
            if j < earlier.len() {
                assert(earlier[i].value != earlier[j].value);
            } else {
                assert(has_origin(earlier[i], prefix, earlier_vs, skip, flags));
                let k = choose|k: int| stems_from(earlier[i], prefix, earlier_vs, skip, flags, k);
                assert(vs[k].value != vs[vs.len() - 1].value);
            }
        }
    }
}

/// Duplicate suppression, seen from the output: of the declarations of one
/// enum, recorded in order, a wrapper's variant always stems from the first
/// declaration of its value, and no two of its variants share a value.
pub proof fn lemma_emitted_first_declared(
    prefix: Seq<char>,
    decls: Seq<RawVariantView>,
    skip: Seq<Seq<char>>,
    flags: bool,
)
    ensures
        distinct_def_values(
            def_variants(prefix, push_all_unique(Seq::empty(), decls), skip, flags),
        ),
        forall|k: int|
            0 <= k < def_variants(
                prefix,
                push_all_unique(Seq::empty(), decls),
                skip,
                flags,
            ).len() ==> has_first_origin(
                #[trigger] def_variants(
                    prefix,
                    push_all_unique(Seq::empty(), decls),
                    skip,
                    flags,
                )[k],
                prefix,
                decls,
                skip,
                flags,
            ),
{
    let kept = push_all_unique(Seq::empty(), decls);
    let ds = def_variants(prefix, kept, skip, flags);
    lemma_first_declaration_wins(decls);
    lemma_def_values_distinct(prefix, kept, skip, flags);
    lemma_variants_stem_from_declared(prefix, kept, skip, flags);
    assert forall|k: int| 0 <= k < ds.len() implies has_first_origin(
        #[trigger] ds[k],
        prefix,
        decls,
        skip,
        flags,
    ) by {
        assert(has_origin(ds[k], prefix, kept, skip, flags));
        let m = choose|m: int| stems_from(ds[k], prefix, kept, skip, flags, m);
        assert(first_declared(decls, kept[m]));
        let i = choose|i: int| #[trigger] first_of_its_value(decls, i) && decls[i] == kept[m];
        assert(first_of_its_value(decls, i) && stems_from(ds[k], prefix, decls, skip, flags, i));
    }
}

/// A scanned enum without a configuration entry adds nothing to the text
/// and exactly one warning, which names it.
pub proof fn lemma_unconfigured_enum(
    map: Seq<ScannedView>,
    e: ScannedView,
    configs: Map<Seq<char>, ConfigView>,
)
    requires
        !configs.contains_key(e.name),
    ensures
        output_text(map.push(e), configs) == output_text(map, configs),
        output_warnings(map.push(e), configs) == output_warnings(map, configs).push(
            WarningView::Unconfigured(e.name),
        ),
{
    assert(map.push(e).drop_last() =~= map);
    assert(output_text(map, configs) + Seq::<char>::empty() =~= output_text(map, configs));
    assert(output_warnings(map, configs) + seq![WarningView::Unconfigured(e.name)]
        =~= output_warnings(map, configs).push(WarningView::Unconfigured(e.name)));
}

/// Tests whether the caller asked to leave out the declared name `name`.
fn listed(skip: Option<&[&str]>, name: &str) -> (r: bool)
    ensures
        r == skip_view(skip).contains(name@),
{
    match skip {
        None => false,
        Some(list) => {
            let mut i: usize = 0;
            while i < list.len()
                invariant
                    i <= list.len(),
                    skip_view(skip) == list@.map_values(|s: &str| s@),
                    forall|k: int| 0 <= k < i ==> skip_view(skip)[k] != name@,
                decreases list.len() - i,
            {
                if same_text(list[i], name) {
                    assert(skip_view(skip)[i as int] == name@);
                    return true;
                }
                i += 1;
            }
            false
        },
    }
}

impl GeneratedVariant {
    /// The line that declares this variant in a wrapper of the given kind.
    pub fn line(&self, flags: bool) -> (r: String)
        ensures
            r@ == self@.line(flags),
    {
        if flags {
            let mut r = String::from_str("        const ");
            r.append(self.name.as_str());
            r.append(" = ");
            r.append(self.source.as_str());
            r.append(" as u32;\n");
            r
        } else {
            let mut r = String::from_str("    ");
            r.append(self.name.as_str());
            r.append(" = ");
            r.append(self.source.as_str());
            r.append(",\n");
            r
        }
    }
}

impl GeneratedEnumDef {
    /// Builds the wrapper of one native enum type from its configuration
    /// entry and its declared variants, as a bitmask or as a plain enum.
    ///
    /// The sentinel and the names in `skip` are left out without a word. A
    /// variant that has no name under the entry's prefix is left out with a
    /// warning.
    pub fn build(
        config: &EnumConfig,
        variants: &Vec<RawEnumVariant>,
        skip: Option<&[&str]>,
        flags: bool,
    ) -> (r: (GeneratedEnumDef, Vec<Warning>))
        ensures
            r.0@ == make_def(config@, variant_views(variants@), skip_view(skip), flags),
            warning_views(r.1@) == def_warnings(
                config.prefix@,
                variant_views(variants@),
                skip_view(skip),
                flags,
            ),
    {
        let name = match config.custom_name {
            Some(name) => name.to_owned(),
            None => if flags {
                format_flag_enum_name(config.name)
            } else {
                format_enum_name(config.name)
            },
        };
        let ghost vs = variant_views(variants@);
        let ghost left_out = skip_view(skip);
        let mut out: Vec<GeneratedVariant> = Vec::new();
        let mut warnings: Vec<Warning> = Vec::new();
        let mut i: usize = 0;
        assert(vs.take(0) =~= Seq::<RawVariantView>::empty());
        assert(variant_defs(out@) =~= Seq::<VariantDef>::empty());
        assert(warning_views(warnings@) =~= Seq::<WarningView>::empty());
        while i < variants.len()
            invariant
                i <= variants.len(),
                vs == variant_views(variants@),
                left_out == skip_view(skip),
                variant_defs(out@) == def_variants(config.prefix@, vs.take(i as int), left_out, flags),
                warning_views(warnings@) == def_warnings(
                    config.prefix@,
                    vs.take(i as int),
                    left_out,
                    flags,
                ),
            decreases variants.len() - i,
        {
            let v = &variants[i];
            let ghost defs_before = variant_defs(out@);
            let ghost warnings_before = warning_views(warnings@);
            assert(vs.take(i + 1).drop_last() =~= vs.take(i as int));
            assert(vs.take(i + 1).last() == v@);
            if filter_enum_variant(v.name.as_str()) && !listed(skip, v.name.as_str()) {
                let formatted = if flags {
                    format_flag_variant_name(config.prefix, v.name.as_str())
                } else {
                    format_enum_variant_name(config.prefix, v.name.as_str())
                };
                match formatted {
                    Some(name) => {
                        let ghost d = VariantDef { name: name@, source: v.name@, value: v@.value };
                        out.push(GeneratedVariant { name, source: v.name.clone(), value: v.value });
                        assert(variant_defs(out@) =~= defs_before.push(d));
                    },
                    None => {
                        warnings.push(Warning::PrefixMismatch(v.name.clone()));
                        assert(warning_views(warnings@) =~= warnings_before.push(
                            WarningView::PrefixMismatch(v.name@),
                        ));
                    },
                }
            }
            i += 1;
        }
        assert(vs.take(i as int) =~= vs);
        let def = GeneratedEnumDef {
            name,
            native_name: config.name.to_owned(),
            variants: out,
            is_flags: flags,
        };
        (def, warnings)
    }

    /// The lines that declare the variants.
    fn variant_lines(&self) -> (r: String)
        ensures
            r@ == lines(self@.variants, self.is_flags),
    {
        let ghost defs = self@.variants;
        let mut r = String::new();
        let mut i: usize = 0;
        assert(defs.take(0) =~= Seq::<VariantDef>::empty());
        while i < self.variants.len()
            invariant
                i <= self.variants.len(),
                defs == variant_defs(self.variants@),
                r@ == lines(defs.take(i as int), self.is_flags),
            decreases self.variants.len() - i,
        {
            assert(defs.take(i + 1).drop_last() =~= defs.take(i as int));
            assert(defs.take(i + 1).last() == self.variants[i as int]@);
            let line = self.variants[i].line(self.is_flags);
            r.append(line.as_str());
            i += 1;
        }
        assert(defs.take(i as int) =~= defs);
        r
    }

    /// The line that checks the wrapper's size against the native type's.
    fn size_check(&self) -> (r: String)
        ensures
            r@ == self@.size_check(),
    {
        let mut r = String::from_str("assert_eq_size!(");
        r.append(self.name.as_str());
        r.append(", ");
        r.append(self.native_name.as_str());
        r.append(");\n");
        r
    }

    /// The source text of the wrapper.
    pub fn render(&self) -> (r: String)
        ensures
            r@ == self@.text(),
    {
        let body = self.variant_lines();
        let check = self.size_check();
        if self.is_flags {
            let mut r = String::from_str("bitflags! {\n");
            r.append("    #[derive(Default, Clone, Copy, PartialEq, Eq)]\n");
            r.append("    pub struct ");
            r.append(self.name.as_str());
            r.append(": u32 {\n");
            r.append(body.as_str());
            r.append("    }\n");
            r.append("}\n");
            r.append(check.as_str());
            r.append("\n");
            r
        } else {
            let mut r = String::from_str("#[derive(Debug, Clone, Copy, PartialEq, Eq)]\n");
            r.append("#[repr(i32)]\n");
            r.append("pub enum ");
            r.append(self.name.as_str());
            r.append(" {\n");
            r.append(body.as_str());
            r.append("}\n");
            r.append(check.as_str());
            r.append("impl ");
            r.append(self.name.as_str());
            r.append(" {\n");
            r.append(
                "    pub const fn from_raw(value: i32) -> Self { unsafe { std::mem::transmute(value) } }\n",
            );
            r.append("    pub const fn as_raw(&self) -> i32 { *self as i32 }\n");
            r.append("}\n");
            r.append("\n");
            r
        }
    }
}

/// Writes the wrapper of a plain enum to `writer` and returns the warnings
/// for the variants that were left out for want of a name.
pub fn write_enum(
    writer: &mut String,
    enum_config: &EnumConfig,
    variants: &Vec<RawEnumVariant>,
    skip: Option<&[&str]>,
) -> (warnings: Vec<Warning>)
    ensures
        final(writer)@ == old(writer)@ + make_def(
            enum_config@,
            variant_views(variants@),
            skip_view(skip),
            false,
        ).plain_text(),
        warning_views(warnings@) == def_warnings(
            enum_config.prefix@,
            variant_views(variants@),
            skip_view(skip),
            false,
        ),
{
    let (def, warnings) = GeneratedEnumDef::build(enum_config, variants, skip, false);
    let text = def.render();
    writer.append(text.as_str());
    warnings
}

/// Writes the wrapper of a bitmask to `writer` and returns the warnings for
/// the variants that were left out for want of a name.
pub fn write_flags(
    writer: &mut String,
    enum_config: &EnumConfig,
    variants: &Vec<RawEnumVariant>,
) -> (warnings: Vec<Warning>)
    ensures
        final(writer)@ == old(writer)@ + make_def(
            enum_config@,
            variant_views(variants@),
            Seq::empty(),
            true,
        ).flags_text(),
        warning_views(warnings@) == def_warnings(
            enum_config.prefix@,
            variant_views(variants@),
            Seq::empty(),
            true,
        ),
{
    let (def, warnings) = GeneratedEnumDef::build(enum_config, variants, None, true);
    let text = def.render();
    writer.append(text.as_str());
    warnings
}

/// What generation hands back: the source text, and what there is to report.
#[derive(Debug, Clone, PartialEq, Eq)]
pub struct Generated {
    /// The wrappers of the configured enums, one after the other.
    pub text: String,
    /// The warnings, in the order in which they arose.
    pub warnings: Vec<Warning>,
}

/// Generates the wrappers of all scanned enums, in the order in which the
/// types were first seen.
///
/// A type without a configuration entry gets no wrapper and one warning.
pub fn generate(enum_map: &EnumMap, configs: &ConfigMap) -> (r: Generated)
    ensures
        r.text@ == output_text(enum_map@, configs@),
        warning_views(r.warnings@) == output_warnings(enum_map@, configs@),
{
    let entries = enum_map.entries();
    let ghost map = scanned_views(entries@);
    let mut text = String::new();
    let mut warnings: Vec<Warning> = Vec::new();
    let mut i: usize = 0;
    assert(map.take(0) =~= Seq::<ScannedView>::empty());
    assert(warning_views(warnings@) =~= Seq::<WarningView>::empty());
    while i < entries.len()
        invariant
            i <= entries.len(),
            map == scanned_views(entries@),
            text@ == output_text(map.take(i as int), configs@),
            warning_views(warnings@) == output_warnings(map.take(i as int), configs@),
        decreases entries.len() - i,
    {
        let entry = &entries[i];
        let ghost warnings_before = warning_views(warnings@);
        assert(map.take(i + 1).drop_last() =~= map.take(i as int));
        assert(map.take(i + 1).last() == entry@);
        match configs.get(entry.name.as_str()) {
            None => {
                warnings.push(Warning::Unconfigured(entry.name.clone()));
                assert(warning_views(warnings@) =~= warnings_before + seq![
                    WarningView::Unconfigured(entry.name@),
                ]);
                assert(text@ + Seq::<char>::empty() =~= text@);
            },
            Some(config) => {
                let mut found = if config.is_flags {
                    write_flags(&mut text, &config, &entry.variants)
                } else {
                    write_enum(&mut text, &config, &entry.variants, None)
                };
                let ghost found_views = warning_views(found@);
                warnings.append(&mut found);
                assert(warning_views(warnings@) =~= warnings_before + found_views);
            },
        }
        i += 1;
    }
    assert(map.take(i as int) =~= map);
    Generated { text, warnings }
}

} // verus!
