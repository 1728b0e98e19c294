//! The values of the generated wrappers: what a plain enum and a bitmask are
//! at run time, and how the values that a wrapper names relate to the raw
//! integers of the native library.
//!
//! A plain enum is a signed 32-bit integer and a bitmask an unsigned one.
//! Both conversions of a plain enum are total: a raw value that no variant
//! names is kept as it is, since the native library may hand out values that
//! the header does not list. A bitmask has two conversions from a raw value:
//! `from_bits_retain` keeps every bit, `from_bits_truncate` drops the bits
//! that no variant names. `GeneratedEnumDef::flags_from_raw`, the conversion
//! of a wrapper, truncates.

use crate::emit::{
    def_variants, distinct_def_values, lemma_emitted_first_declared, GeneratedEnumDef, VariantDef,
};
use crate::scan::{push_all_unique, RawVariantView};
use vstd::prelude::*;

verus! {

/// A value of a plain enum.
#[derive(Debug, Clone, Copy, PartialEq, Eq, Structural)]
pub struct Discriminant {
    /// The raw value.
    pub raw: i32,
}

/// A value of a bitmask: a set of bits.
#[derive(Debug, Clone, Copy, PartialEq, Eq, Structural)]
pub struct Flags {
    /// The raw value.
    pub bits: u32,
}

/// How the native library's memory is meant to be used.
pub type MemoryUsage = Discriminant;

/// The flags with which an allocation is made.
pub type AllocationCreateFlags = Flags;

/// The flags with which an allocator is made.
pub type AllocatorCreateFlags = Flags;

impl Discriminant {
    /// Takes a raw value as it is, whether a variant names it or not.
    pub fn from_raw(value: i32) -> (r: Discriminant)
        ensures
            r == (Discriminant { raw: value }),
    {
        Discriminant { raw: value }
    }

    /// The raw value.
    pub fn as_raw(&self) -> (r: i32)
        ensures
            r == self.raw,
    {
        self.raw
    }
}

impl Flags {
    /// The empty set.
    pub fn empty() -> (r: Flags)
        ensures
            r.bits == 0,
    {
        Flags { bits: 0 }
    }

    /// The raw value.
    pub fn bits(&self) -> (r: u32)
        ensures
            r == self.bits,
    {
        self.bits
    }

    /// Takes a raw value with all its bits.
    pub fn from_bits_retain(bits: u32) -> (r: Flags)
        ensures
            r.bits == bits,
    {
        Flags { bits }
    }

    /// Takes the bits of a raw value that are among `known`.
    pub fn from_bits_truncate(bits: u32, known: Flags) -> (r: Flags)
        ensures
            r.bits == bits & known.bits,
    {
        Flags { bits: bits & known.bits }
    }

    /// Whether no bit is set.
    pub fn is_empty(&self) -> (r: bool)
        ensures
            r == (self.bits == 0),
    {
        self.bits == 0
    }

    /// Whether every bit of `other` is set in `self`.
    pub fn contains(&self, other: Flags) -> (r: bool)
        ensures
            r == (self.bits & other.bits == other.bits),
    {
        self.bits & other.bits == other.bits
    }

    /// The bits of either set.
    pub fn union(self, other: Flags) -> (r: Flags)
        ensures
            r.bits == self.bits | other.bits,
    {
        Flags { bits: self.bits | other.bits }
    }

    /// The bits of both sets.
    pub fn intersection(self, other: Flags) -> (r: Flags)
        ensures
            r.bits == self.bits & other.bits,
    {
        Flags { bits: self.bits & other.bits }
    }

    /// The bits of `self` that are not in `other`.
    pub fn difference(self, other: Flags) -> (r: Flags)
        ensures
            r.bits == self.bits & !other.bits,
    {
        Flags { bits: self.bits & !other.bits }
    }
}

impl Default for Flags {
    /// The empty set.
    fn default() -> (r: Flags)
        ensures
            r.bits == 0,
    {
        Flags { bits: 0 }
    }
}

impl VariantDef {
    /// The variant's value as a plain enum holds it, where it fits.
    pub open spec fn discriminant(self) -> Option<Discriminant> {
        if i32::MIN <= self.value <= i32::MAX {
            Some(Discriminant { raw: self.value as i32 })
        } else {
            None
        }
    }

    /// The variant's value as a bitmask holds it, where it fits.
    pub open spec fn flag(self) -> Option<Flags> {
        if 0 <= self.value <= u32::MAX {
            Some(Flags { bits: self.value as u32 })
        } else {
            None
        }
    }
}

/// The position of the first variant with the raw value `raw`, if there is
/// one.
pub open spec fn named_by(vs: Seq<VariantDef>, raw: int) -> Option<int>
    decreases vs.len(),
{
    if vs.len() == 0 {
        None
    } else {
        match named_by(vs.drop_last(), raw) {
            Some(i) => Some(i),
            None => if vs.last().value == raw {
                Some(vs.len() - 1)
            } else {
                None
            },
        }
    }
}

/// The bits that the variants name: the union of those that fit.
pub open spec fn known_bits(vs: Seq<VariantDef>) -> u32
    decreases vs.len(),
{
    if vs.len() == 0 {
        0
    } else {
        match vs.last().flag() {
            Some(f) => known_bits(vs.drop_last()) | f.bits,
            None => known_bits(vs.drop_last()),
        }
    }
}

/// `named_by` finds a variant with the value asked for, and none comes
/// before it; it finds nothing only where no variant has the value.
pub proof fn lemma_named_by(vs: Seq<VariantDef>, raw: int)
    ensures
        match named_by(vs, raw) {
            Some(i) => 0 <= i < vs.len() && vs[i].value == raw && forall|j: int|
                0 <= j < i ==> (#[trigger] vs[j]).value != raw,
            None => forall|j: int| 0 <= j < vs.len() ==> (#[trigger] vs[j]).value != raw,
        },
    decreases vs.len(),
{
    if vs.len() > 0 {
        lemma_named_by(vs.drop_last(), raw);
        match named_by(vs.drop_last(), raw) {
            Some(i) => {
                assert forall|j: int| 0 <= j < i implies (#[trigger] vs[j]).value != raw by {
                    assert(vs.drop_last()[j].value != raw);
                }
            },
            None => {
                assert forall|j: int| 0 <= j < vs.len() - 1 implies (#[trigger] vs[j]).value
                    != raw by {
                    assert(vs.drop_last()[j].value != raw);
                }
            },
        }
    }
}

/// Round trip of a plain enum: the raw value of a named value names that
/// same value again. It holds for every variant of a wrapper whose variants
/// have distinct values, as duplicate suppression leaves them.
pub proof fn lemma_named_round_trip(vs: Seq<VariantDef>, i: int)
    requires
        distinct_def_values(vs),
        0 <= i < vs.len(),
    ensures
        named_by(vs, vs[i].value) == Some(i),
{
    lemma_named_by(vs, vs[i].value);
    match named_by(vs, vs[i].value) {
        Some(k) => {
            if k < i {
                assert(vs[k].value != vs[i].value);
            } else if i < k {
                assert(vs[i].value != vs[k].value);
            }
        },
        None => {
            assert(vs[i].value != vs[i].value);
        },
    }
}

/// Round trip of a generated plain enum: whatever the header declares for
/// an enum and however it is configured, every variant that is left after
/// duplicate suppression is found again from its own raw value.
pub proof fn lemma_retained_round_trip(
    prefix: Seq<char>,
    decls: Seq<RawVariantView>,
    skip: Seq<Seq<char>>,
    flags: bool,
    i: int,
)
    requires
        0 <= i < def_variants(prefix, push_all_unique(Seq::empty(), decls), skip, flags).len(),
    ensures
        named_by(
            def_variants(prefix, push_all_unique(Seq::empty(), decls), skip, flags),
            def_variants(prefix, push_all_unique(Seq::empty(), decls), skip, flags)[i].value,
        ) == Some(i),
        def_variants(
            prefix,
            push_all_unique(Seq::empty(), decls),
            skip,
            flags,
        )[i].discriminant() matches Some(d) ==> named_by(
            def_variants(prefix, push_all_unique(Seq::empty(), decls), skip, flags),
            d.raw as int,
        ) == Some(i),
{
    lemma_emitted_first_declared(prefix, decls, skip, flags);
    lemma_named_round_trip(
        def_variants(prefix, push_all_unique(Seq::empty(), decls), skip, flags),
        i,
    );
}

/// Round trip of the raw value: a raw value taken as it is gives itself
/// back, and a value made from its own raw value is that value, whether a
/// variant names it or not.
pub proof fn lemma_raw_round_trip(value: i32, d: Discriminant)
    ensures
        (Discriminant { raw: value }).raw == value,
        (Discriminant { raw: d.raw }) == d,
{
}

/// The bits of every variant are among the known bits.
pub proof fn lemma_flag_is_known(vs: Seq<VariantDef>, i: int)
    requires
        0 <= i < vs.len(),
        vs[i].flag() is Some,
    ensures
        vs[i].flag()->0.bits & known_bits(vs) == vs[i].flag()->0.bits,
    decreases vs.len(),
{
    let earlier = known_bits(vs.drop_last());
    if i == vs.len() - 1 {
        let b = vs[i].flag()->0.bits;
        assert(b & (earlier | b) == b) by (bit_vector);
    } else {
        lemma_flag_is_known(vs.drop_last(), i);
        let b = vs[i].flag()->0.bits;
        match vs.last().flag() {
            Some(f) => {
                let l = f.bits;
                assert(b & earlier == b ==> b & (earlier | l) == b) by (bit_vector);
            },
            None => {},
        }
    }
}

/// The laws of a bitmask. The empty set is the raw value zero (see
/// `Flags::empty`). The union of two sets has the bitwise or of their raw
/// values as its raw value. Truncating is idempotent, changes nothing in a
/// raw value made of known bits only, and never lets an unknown bit pass.
pub proof fn lemma_flags_laws(a: Flags, b: Flags, raw: u32, known: Flags)
    ensures
        a.bits | b.bits == b.bits | a.bits,
        (a.bits | b.bits) & a.bits == a.bits,
        (raw & known.bits) & known.bits == raw & known.bits,
        raw & !known.bits == 0 ==> raw & known.bits == raw,
        (raw & known.bits) & !known.bits == 0,
{
    let x = a.bits;
    let y = b.bits;
    let k = known.bits;
    assert(x | y == y | x) by (bit_vector);
    assert((x | y) & x == x) by (bit_vector);
    assert((raw & k) & k == raw & k) by (bit_vector);
    assert(raw & !k == 0 ==> raw & k == raw) by (bit_vector);
    assert((raw & k) & !k == 0) by (bit_vector);
}

/// The union of two named bits converts from its raw value to itself:
/// nothing of it is truncated.
pub proof fn lemma_named_union_survives(vs: Seq<VariantDef>, i: int, j: int)
    requires
        0 <= i < vs.len(),
        0 <= j < vs.len(),
        vs[i].flag() is Some,
        vs[j].flag() is Some,
    ensures
        (vs[i].flag()->0.bits | vs[j].flag()->0.bits) & known_bits(vs) == vs[i].flag()->0.bits
            | vs[j].flag()->0.bits,
{
    lemma_flag_is_known(vs, i);
    lemma_flag_is_known(vs, j);
    let x = vs[i].flag()->0.bits;
    let y = vs[j].flag()->0.bits;
    let k = known_bits(vs);
    assert(x & k == x && y & k == y ==> (x | y) & k == x | y) by (bit_vector);
}

impl GeneratedEnumDef {
    /// The value that the variant at `index` names in a plain enum, where
    /// there is such a variant and its value fits.
    pub fn value_of(&self, index: usize) -> (r: Option<Discriminant>)
        ensures
            r == if index < self@.variants.len() {
                self@.variants[index as int].discriminant()
            } else {
                None
            },
    {
        if index >= self.variants.len() {
            return None;
        }
        let wide = self.variants[index].value.widened();
        if -2147483648 <= wide && wide <= 2147483647 {
            Some(Discriminant { raw: wide as i32 })
        } else {
            None
        }
    }

    /// The position of the variant that names `value`, if one does: the
    /// first variant with that raw value.
    pub fn variant_of(&self, value: Discriminant) -> (r: Option<usize>)
        ensures
            match r {
                Some(i) => named_by(self@.variants, value.raw as int) == Some(i as int),
                None => named_by(self@.variants, value.raw as int) is None,
            },
    {
        let ghost vs = self@.variants;
        let mut i: usize = 0;
        assert(vs.take(0) =~= Seq::<VariantDef>::empty());
        while i < self.variants.len()
            invariant
                i <= self.variants.len(),
                vs == self@.variants,
                named_by(vs.take(i as int), value.raw as int) is None,
            decreases self.variants.len() - i,
        {
            assert(vs.take(i + 1).drop_last() =~= vs.take(i as int));
            assert(vs.take(i + 1).last() == self.variants[i as int]@);
            if self.variants[i].value.widened() == value.raw as i128 {
                proof {
                    lemma_named_by(vs, value.raw as int);
                    lemma_named_by(vs.take(i as int), value.raw as int);
                    match named_by(vs, value.raw as int) {
                        Some(k) => {
                            if k < i {
                                assert(vs.take(i as int)[k].value != value.raw);
                            } else if i < k {
                                assert(vs[i as int].value != value.raw);
                            }
                        },
                        None => {
                            assert(vs[i as int].value != value.raw);
                        },
                    }
                }
                return Some(i);
            }
            i += 1;
        }
        assert(vs.take(i as int) =~= vs);
        None
    }

    /// The set that the variant at `index` names in a bitmask, where there
    /// is such a variant and its value fits.
    pub fn flag_of(&self, index: usize) -> (r: Option<Flags>)
        ensures
            r == if index < self@.variants.len() {
                self@.variants[index as int].flag()
            } else {
                None
            },
    {
        if index >= self.variants.len() {
            return None;
        }
        let wide = self.variants[index].value.widened();
        if 0 <= wide && wide <= 4294967295 {
            Some(Flags { bits: wide as u32 })
        } else {
            None
        }
    }

    /// The set of all bits that the variants name.
    pub fn all_flags(&self) -> (r: Flags)
        ensures
            r.bits == known_bits(self@.variants),
    {
        let ghost vs = self@.variants;
        let mut bits: u32 = 0;
        let mut i: usize = 0;
        assert(vs.take(0) =~= Seq::<VariantDef>::empty());
        while i < self.variants.len()
            invariant
                i <= self.variants.len(),
                vs == self@.variants,
                bits == known_bits(vs.take(i as int)),
            decreases self.variants.len() - i,
        {
            assert(vs.take(i + 1).drop_last() =~= vs.take(i as int));
            assert(vs.take(i + 1).last() == self.variants[i as int]@);
            match self.flag_of(i) {
                Some(f) => {
                    bits = bits | f.bits;
                },
                None => {},
            }
            i += 1;
        }
        assert(vs.take(i as int) =~= vs);
        Flags { bits }
    }

    /// Converts a raw value to a set of this bitmask. Bits that no variant
    /// names are dropped.
    pub fn flags_from_raw(&self, raw: u32) -> (r: Flags)
        ensures
            r.bits == raw & known_bits(self@.variants),
    {
        Flags::from_bits_truncate(raw, self.all_flags())
    }
}

} // verus!
