//! Operations on character sequences: the vocabulary in which the naming
//! rules are stated, and the executable functions that compute them.

use vstd::prelude::*;

verus! {

/// `String::push` appends one character to the end of the string and leaves
/// the characters before it as they were.
pub assume_specification[ String::push ](s: &mut String, ch: char)
    ensures
        final(s)@ == old(s)@.push(ch),
;

/// `p` occurs in `s` at position `i`.
pub open spec fn occurs_at(s: Seq<char>, p: Seq<char>, i: int) -> bool {
    0 <= i && i + p.len() <= s.len() && s.subrange(i, i + p.len()) == p
}

/// `s` begins with `p`.
pub open spec fn starts_with(s: Seq<char>, p: Seq<char>) -> bool {
    occurs_at(s, p, 0)
}

/// `p` occurs somewhere in `s`.
pub open spec fn contains(s: Seq<char>, p: Seq<char>) -> bool {
    exists|i: int| occurs_at(s, p, i)
}

/// `s` without its leading `p`, if it begins with `p`.
pub open spec fn strip_prefix(s: Seq<char>, p: Seq<char>) -> Option<Seq<char>> {
    if starts_with(s, p) {
        Some(s.skip(p.len() as int))
    } else {
        None
    }
}

/// `s` with every leading repetition of `p` removed.
pub open spec fn trim_start(s: Seq<char>, p: Seq<char>) -> Seq<char>
    decreases s.len(),
{
    if p.len() > 0 && starts_with(s, p) {
        trim_start(s.skip(p.len() as int), p)
    } else {
        s
    }
}

/// `s` read from left to right, each occurrence of `from` that does not
/// overlap an earlier one replaced by `to`. With an empty `from` nothing is
/// replaced.
pub open spec fn replace_all(s: Seq<char>, from: Seq<char>, to: Seq<char>) -> Seq<char>
    decreases s.len(),
{
    if from.len() == 0 || s.len() < from.len() {
        s
    } else if starts_with(s, from) {
        to + replace_all(s.skip(from.len() as int), from, to)
    } else {
        seq![s[0]] + replace_all(s.skip(1), from, to)
    }
}

/// Whether `c` is one of the ten ASCII decimal digits.
pub open spec fn is_decimal_digit(c: char) -> bool {
    '0' <= c && c <= '9'
}

/// The view of an optional string.
pub open spec fn opt_view(s: Option<String>) -> Option<Seq<char>> {
    match s {
        Some(s) => Some(s@),
        None => None,
    }
}

/// An occurrence at `k` is a prefix of what follows `k`.
pub proof fn lemma_occurs_at_skip(s: Seq<char>, p: Seq<char>, k: int)
    requires
        0 <= k <= s.len(),
    ensures
        occurs_at(s, p, k) == starts_with(s.skip(k), p),
{
    if k + p.len() <= s.len() {
        assert(s.skip(k).subrange(0, p.len() as int) =~= s.subrange(k, k + p.len()));
    }
}

/// The characters of `s`, in order.
pub fn chars_of(s: &str) -> (v: Vec<char>)
    ensures
        v@ == s@,
{
    let mut v: Vec<char> = Vec::new();
    for c in it: s.chars()
        invariant
            v@ == it.seq().take(it.index()),
            it.seq() == s@,
    {
        v.push(c);
    }
    v
}

/// Appends the characters `v[from..]` to `out`.
pub fn push_from(out: &mut Vec<char>, v: &Vec<char>, from: usize)
    requires
        from <= v.len(),
    ensures
        final(out)@ == old(out)@ + v@.skip(from as int),
{
    let mut i: usize = from;
    while i < v.len()
        invariant
            from <= i <= v.len(),
            out@ == old(out)@ + v@.subrange(from as int, i as int),
        decreases v.len() - i,
    {
        out.push(v[i]);
        i += 1;
        assert(out@ =~= old(out)@ + v@.subrange(from as int, i as int));
    }
    assert(v@.subrange(from as int, i as int) =~= v@.skip(from as int));
}

/// The string whose characters are `v[from..]`, in order.
pub fn string_from(v: &Vec<char>, from: usize) -> (s: String)
    requires
        from <= v.len(),
    ensures
        s@ == v@.skip(from as int),
{
    let mut s = String::new();
    let mut i: usize = from;
    while i < v.len()
        invariant
            from <= i <= v.len(),
            s@ == v@.subrange(from as int, i as int),
        decreases v.len() - i,
    {
        s.push(v[i]);
        i += 1;
        assert(s@ =~= v@.subrange(from as int, i as int));
    }
    assert(v@.subrange(from as int, i as int) =~= v@.skip(from as int));
    s
}

/// Tests whether a character is an ASCII decimal digit.
pub fn decimal_digit(c: char) -> (r: bool)
    ensures
        r == is_decimal_digit(c),
{
    '0' <= c && c <= '9'
}

/// Tests whether `p` occurs in `s` at position `i`.
pub fn found_at(s: &Vec<char>, p: &Vec<char>, i: usize) -> (r: bool)
    ensures
        r == occurs_at(s@, p@, i as int),
{
    if p.len() > s.len() || i > s.len() - p.len() {
        return false;
    }
    let mut j: usize = 0;
    while j < p.len()
        invariant
            j <= p.len(),
            i + p.len() <= s.len(),
            forall|k: int| 0 <= k < j ==> s@[i + k] == p@[k],
        decreases p.len() - j,
    {
        if s[i + j] != p[j] {
            assert(s@.subrange(i as int, i + p.len())[j as int] == s@[i + j]);
            return false;
        }
        j += 1;
    }
    assert(s@.subrange(i as int, i + p.len()) =~= p@);
    true
}

/// Tests whether two strings hold the same characters.
pub fn same_text(a: &str, b: &str) -> (r: bool)
    ensures
        r == (a@ == b@),
{
    let x = chars_of(a);
    let y = chars_of(b);
    assert(x@.subrange(0, x@.len() as int) =~= x@);
    x.len() == y.len() && found_at(&x, &y, 0)
}

/// Tests whether `p` occurs somewhere in `s`.
pub fn found_in(s: &Vec<char>, p: &Vec<char>) -> (r: bool)
    ensures
        r == contains(s@, p@),
{
    if p.len() > s.len() {
        return false;
    }
    let last: usize = s.len() - p.len();
    let mut i: usize = 0;
    while i < last
        invariant
            i <= last,
            last + p.len() == s.len(),
            forall|k: int| 0 <= k < i ==> !occurs_at(s@, p@, k),
        decreases last - i,
    {
        if found_at(s, p, i) {
            return true;
        }
        i += 1;
    }
    found_at(s, p, last)
}

/// The number of characters that `trim_start` removes from the front of `s`.
pub fn trimmed_len(s: &Vec<char>, p: &Vec<char>) -> (k: usize)
    ensures
        k <= s.len(),
        trim_start(s@, p@) == s@.skip(k as int),
{
    let mut k: usize = 0;
    if p.len() == 0 {
        assert(s@.skip(0) =~= s@);
        return 0;
    }
    assert(s@.skip(0) =~= s@);
    while found_at(s, p, k)
        invariant
            k <= s.len(),
            p.len() > 0,
            trim_start(s@, p@) == trim_start(s@.skip(k as int), p@),
        decreases s.len() - k,
    {
        proof {
            lemma_occurs_at_skip(s@, p@, k as int);
            assert(s@.skip(k as int).skip(p.len() as int) =~= s@.skip(k + p.len()));
        }
        k += p.len();
    }
    proof {
        lemma_occurs_at_skip(s@, p@, k as int);
    }
    k
}

/// Computes `replace_all`.
pub fn replaced(s: &Vec<char>, from: &Vec<char>, to: &Vec<char>) -> (out: Vec<char>)
    ensures
        out@ == replace_all(s@, from@, to@),
{
    let mut out: Vec<char> = Vec::new();
    if from.len() == 0 {
        push_from(&mut out, s, 0);
        assert(out@ =~= s@);
        return out;
    }
    let mut i: usize = 0;
    assert(s@.skip(0) =~= s@);
    while i < s.len()
        invariant
            i <= s.len(),
            from.len() > 0,
            out@ + replace_all(s@.skip(i as int), from@, to@) == replace_all(s@, from@, to@),
        decreases s.len() - i,
    {
        let ghost rest = s@.skip(i as int);
        proof {
            lemma_occurs_at_skip(s@, from@, i as int);
        }
        if found_at(s, from, i) {
            proof {
                assert(rest.skip(from.len() as int) =~= s@.skip(i + from.len()));
                assert((out@ + to@) + replace_all(s@.skip(i + from.len()), from@, to@) =~= out@ + (
                to@ + replace_all(rest.skip(from.len() as int), from@, to@)));
            }
            push_from(&mut out, to, 0);
            assert(to@.skip(0) =~= to@);
            i += from.len();
        } else {
            proof {
                assert(rest.skip(1) =~= s@.skip(i + 1));
                if rest.len() < from.len() {
                    assert(replace_all(rest.skip(1), from@, to@) == rest.skip(1));
                    assert(rest =~= seq![rest[0]] + rest.skip(1));
                }
                assert(out@.push(s@[i as int]) + replace_all(s@.skip(i + 1), from@, to@) =~= out@ + (
                seq![rest[0]] + replace_all(rest.skip(1), from@, to@)));
            }
            out.push(s[i]);
            i += 1;
        }
    }
    assert(out@ + replace_all(s@.skip(i as int), from@, to@) =~= out@);
    out
}

} // verus!
