//! The naming rules: how the name of a native enum type and the names of its
//! variants become the names of the wrapper that is generated for it.

use crate::text::{
    chars_of, contains, decimal_digit, found_in, found_at, is_decimal_digit, opt_view, push_from,
    replace_all, replaced, starts_with, string_from, strip_prefix, trim_start, trimmed_len,
};
use vstd::prelude::*;

verus! {

/// The brand prefix that every type of the native library carries.
pub open spec fn brand() -> Seq<char> {
    "Vma"@
}

/// The suffix by which the native library marks the enum that lists the
/// bits of a bitmask.
pub open spec fn bits_suffix() -> Seq<char> {
    "FlagBits"@
}

/// The suffix that a generated bitmask type carries instead.
pub open spec fn flags_suffix() -> Seq<char> {
    "Flags"@
}

/// The tag inside a variant's name which says that the variant is one bit.
pub open spec fn bit_tag() -> Seq<char> {
    "_BIT"@
}

/// The marker of the placeholder variant that only forces the width of the
/// native enum.
pub open spec fn sentinel_marker() -> Seq<char> {
    "MAX_ENUM"@
}

/// The name of the wrapper of a plain enum: the native name without any
/// leading brand prefix.
pub open spec fn enum_name(name: Seq<char>) -> Seq<char> {
    trim_start(name, brand())
}

/// The name of the wrapper of a bitmask: the native name without any leading
/// brand prefix, with the bits suffix turned into the flags suffix.
pub open spec fn flag_enum_name(name: Seq<char>) -> Seq<char> {
    replace_all(trim_start(name, brand()), bits_suffix(), flags_suffix())
}

/// The name of a variant of a plain enum.
///
/// The declared name loses `prefix`. Where what is left begins with a decimal
/// digit, the last character of `prefix` is kept in front of it. There is no
/// name where the declared name does not begin with `prefix`, where nothing
/// is left of it, or where a digit would lead and `prefix` has no character
/// to keep.
pub open spec fn variant_name(prefix: Seq<char>, name: Seq<char>) -> Option<Seq<char>> {
    match strip_prefix(name, prefix) {
        None => None,
        Some(rest) => if rest.len() == 0 {
            None
        } else if !is_decimal_digit(rest[0]) {
            Some(rest)
        } else if prefix.len() == 0 {
            None
        } else {
            strip_prefix(name, prefix.drop_last())
        },
    }
}

/// The name of a variant of a bitmask: that of a plain enum's variant, with
/// every bit tag taken out.
pub open spec fn flag_variant_name(prefix: Seq<char>, name: Seq<char>) -> Option<Seq<char>> {
    match variant_name(prefix, name) {
        None => None,
        Some(plain) => Some(replace_all(plain, bit_tag(), Seq::empty())),
    }
}

/// A declared name that holds the sentinel marker.
pub open spec fn is_sentinel(name: Seq<char>) -> bool {
    contains(name, sentinel_marker())
}

/// What begins with a prefix begins with that prefix less its last character.
pub proof fn lemma_shorter_prefix(prefix: Seq<char>, name: Seq<char>)
    requires
        starts_with(name, prefix),
        prefix.len() > 0,
    ensures
        starts_with(name, prefix.drop_last()),
{
    assert(name.subrange(0, prefix.len() - 1) =~= name.subrange(0, prefix.len() as int).drop_last());
}

/// Where a variant has a name, that name is the declared name from some
/// position on, and that position is the length of `prefix` or one less.
pub proof fn lemma_variant_name_is_suffix(prefix: Seq<char>, name: Seq<char>)
    ensures
        variant_name(prefix, name) matches Some(n) ==> starts_with(name, prefix) && n.len() > 0
            && (n == name.skip(prefix.len() as int) || (prefix.len() > 0 && n == name.skip(
            prefix.len() - 1))),
{
    if starts_with(name, prefix) && prefix.len() > 0 {
        lemma_shorter_prefix(prefix, name);
    }
}

/// A variant's name never begins with a decimal digit, as long as the last
/// character of the prefix (the separator) is not itself a digit.
pub proof fn lemma_variant_name_not_digit_led(prefix: Seq<char>, name: Seq<char>)
    requires
        prefix.len() > 0 ==> !is_decimal_digit(prefix.last()),
    ensures
        variant_name(prefix, name) matches Some(n) ==> n.len() > 0 && !is_decimal_digit(n[0]),
{
    lemma_variant_name_is_suffix(prefix, name);
    if starts_with(name, prefix) && prefix.len() > 0 {
        assert(name.subrange(0, prefix.len() as int)[prefix.len() - 1] == prefix.last());
    }
}

/// Taking the bit tags out leaves the first character of a name in place,
/// unless the name begins with a bit tag.
pub proof fn lemma_flag_variant_name_start(prefix: Seq<char>, name: Seq<char>)
    requires
        variant_name(prefix, name) is Some,
        !starts_with(variant_name(prefix, name)->0, bit_tag()),
    ensures
        flag_variant_name(prefix, name) matches Some(n) && n.len() > 0 && n[0] == variant_name(
            prefix,
            name,
        )->0[0],
{
    lemma_variant_name_is_suffix(prefix, name);
}

/// Names the wrapper of a plain enum.
pub fn format_enum_name(name: &str) -> (r: String)
    ensures
        r@ == enum_name(name@),
{
    let n = chars_of(name);
    let b = chars_of("Vma");
    let k = trimmed_len(&n, &b);
    string_from(&n, k)
}

/// Names the wrapper of a bitmask.
pub fn format_flag_enum_name(name: &str) -> (r: String)
    ensures
        r@ == flag_enum_name(name@),
{
    let n = chars_of(name);
    let b = chars_of("Vma");
    let k = trimmed_len(&n, &b);
    let mut trimmed: Vec<char> = Vec::new();
    push_from(&mut trimmed, &n, k);
    let out = replaced(&trimmed, &chars_of("FlagBits"), &chars_of("Flags"));
    let r = string_from(&out, 0);
    assert(out@.skip(0) =~= out@);
    r
}

/// The position in `name` at which the variant's name begins, if the variant
/// has a name.
fn variant_name_start(prefix: &Vec<char>, name: &Vec<char>) -> (r: Option<usize>)
    ensures
        match r {
            Some(k) => k <= name.len() && variant_name(prefix@, name@) == Some(
                name@.skip(k as int),
            ),
            None => variant_name(prefix@, name@) is None,
        },
{
    if !found_at(name, prefix, 0) {
        return None;
    }
    let k = prefix.len();
    if k == name.len() {
        return None;
    }
    assert(name@.skip(k as int)[0] == name@[k as int]);
    if !decimal_digit(name[k]) {
        return Some(k);
    }
    if k == 0 {
        return None;
    }
    proof {
        lemma_shorter_prefix(prefix@, name@);
    }
    Some(k - 1)
}

/// Names a variant of a plain enum.
pub fn format_enum_variant_name(prefix: &str, name: &str) -> (r: Option<String>)
    ensures
        opt_view(r) == variant_name(prefix@, name@),
{
    let p = chars_of(prefix);
    let n = chars_of(name);
    match variant_name_start(&p, &n) {
        Some(k) => Some(string_from(&n, k)),
        None => None,
    }
}

/// Names a variant of a bitmask.
pub fn format_flag_variant_name(prefix: &str, name: &str) -> (r: Option<String>)
    ensures
        opt_view(r) == flag_variant_name(prefix@, name@),
{
    let p = chars_of(prefix);
    let n = chars_of(name);
    match variant_name_start(&p, &n) {
        Some(k) => {
            let mut plain: Vec<char> = Vec::new();
            push_from(&mut plain, &n, k);
            let out = replaced(&plain, &chars_of("_BIT"), &chars_of(""));
            proof {
                reveal_strlit("");
                assert(""@ =~= Seq::<char>::empty());
                assert(out@.skip(0) =~= out@);
            }
            Some(string_from(&out, 0))
        },
        None => None,
    }
}

/// Whether a variant with this declared name is kept: every one is, but the
/// sentinel.
pub fn filter_enum_variant(name: &str) -> (keep: bool)
    ensures
        keep == !is_sentinel(name@),
{
    let n = chars_of(name);
    let m = chars_of("MAX_ENUM");
    !found_in(&n, &m)
}

} // verus!
