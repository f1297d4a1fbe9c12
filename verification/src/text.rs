//! String helpers for the dashboard's filtering rules: equality, verified
//! case-insensitive substring containment, and the lowercase folding the
//! containment test is defined over.

use vstd::prelude::*;

verus! {

/// The lowercase folding of a sequence of characters, as the standard
/// library computes it. Its exact value is never stated here: every
/// contract that needs it speaks of this name.
pub uninterp spec fn lower_of(s: Seq<char>) -> Seq<char>;

/// Relies on str::to_lowercase: the result is a function of the input
/// characters alone, and lowercasing an empty string yields an empty string.
#[verifier::external_body]
pub(crate) fn lowercase(s: &str) -> (r: String)
    ensures
        r@ == lower_of(s@),
        s@.len() == 0 ==> r@.len() == 0,
{
    s.to_lowercase()
}

/// Whether `needle` occurs in `hay` starting at position `i`.
pub open spec fn contains_at(hay: Seq<char>, needle: Seq<char>, i: int) -> bool {
    0 <= i && i + needle.len() <= hay.len() && hay.subrange(i, i + needle.len()) == needle
}

/// Substring containment over character sequences.
pub open spec fn contains_seq(hay: Seq<char>, needle: Seq<char>) -> bool {
    exists|i: int| contains_at(hay, needle, i)
}

/// String equality, stated over the character sequences.
pub fn str_eq(a: &str, b: &str) -> (r: bool)
    ensures
        r == (a@ == b@),
{
    let sa = a.to_owned();
    let sb = b.to_owned();
    sa == sb
}

/// Whether the characters of `needle` stand in `hay` at offset `start`.
fn matches_at(hay: &str, hay_len: usize, needle: &str, needle_len: usize, start: usize) -> (r:
    bool)
    requires
        hay_len == hay@.len(),
        needle_len == needle@.len(),
        start + needle_len <= hay_len,
    ensures
        r == contains_at(hay@, needle@, start as int),
{
    let mut j: usize = 0;
    while j < needle_len
        invariant
            hay_len == hay@.len(),
            needle_len == needle@.len(),
            start + needle_len <= hay_len,
            j <= needle_len,
            forall|k: int| 0 <= k < j ==> hay@[start + k] == needle@[k],
        decreases needle_len - j,
    {
        if hay.get_char(start + j) != needle.get_char(j) {
            assert(hay@.subrange(start as int, start + needle_len)[j as int] != needle@[j as int]);
            return false;
        }
        j += 1;
    }
    assert(hay@.subrange(start as int, start + needle_len) =~= needle@);
    true
}

/// Substring containment, the way the profile filter tests names.
pub fn contains_str(hay: &str, needle: &str) -> (r: bool)
    ensures
        r == contains_seq(hay@, needle@),
{
    let hay_len = hay.unicode_len();
    let needle_len = needle.unicode_len();
    if needle_len > hay_len {
        assert(forall|i: int| !contains_at(hay@, needle@, i));
        return false;
    }
    if needle_len == 0 {
        assert(hay@.subrange(0, 0) =~= needle@);
        assert(contains_at(hay@, needle@, 0));
        return true;
    }
    let mut i: usize = 0;
    loop
        invariant
            hay_len == hay@.len(),
            needle_len == needle@.len(),
            1 <= needle_len <= hay_len,
            i <= hay_len - needle_len + 1,
            forall|k: int| 0 <= k < i ==> !contains_at(hay@, needle@, k),
        decreases hay_len - needle_len + 1 - i,
    {
        if i > hay_len - needle_len {
            assert(forall|k: int| !contains_at(hay@, needle@, k));
            return false;
        }
        if matches_at(hay, hay_len, needle, needle_len, i) {
            return true;
        }
        i += 1;
    }
}

/// The filtering rule of the profile list and the import navigator:
/// case-insensitive substring containment of the filter in the name.
pub open spec fn spec_matches(name: Seq<char>, filter: Seq<char>) -> bool {
    contains_seq(lower_of(name), lower_of(filter))
}

/// Whether `name` passes the text filter `filter`.
pub fn matches_filter(name: &str, filter: &str) -> (r: bool)
    ensures
        r == spec_matches(name@, filter@),
{
    let lname = lowercase(name);
    let lfilter = lowercase(filter);
    contains_str(lname.as_str(), lfilter.as_str())
}

/// Relies on String::push: appends exactly the one character.
#[verifier::external_body]
pub(crate) fn string_push(s: &mut String, c: char)
    ensures
        final(s)@ == old(s)@.push(c),
{
    s.push(c);
}

/// Relies on String::pop: removes the last character; an empty string is
/// left alone.
#[verifier::external_body]
pub(crate) fn string_pop(s: &mut String)
    ensures
        old(s)@.len() == 0 ==> final(s)@ == old(s)@,
        old(s)@.len() > 0 ==> final(s)@ == old(s)@.drop_last(),
{
    s.pop();
}

/// Whether `p` is a prefix of `s`.
pub open spec fn has_prefix(s: Seq<char>, p: Seq<char>) -> bool {
    p.len() <= s.len() && s.subrange(0, p.len() as int) == p
}

/// Prefix test over the characters.
pub fn starts_with_str(s: &str, p: &str) -> (r: bool)
    ensures
        r == has_prefix(s@, p@),
{
    let s_len = s.unicode_len();
    let p_len = p.unicode_len();
    if p_len > s_len {
        return false;
    }
    matches_at(s, s_len, p, p_len, 0)
}

/// `a` followed by `b`.
pub fn concat_strs(a: &str, b: &str) -> (r: String)
    ensures
        r@ == a@ + b@,
{
    let mut s = a.to_owned();
    s.append(b);
    s
}

/// The conjunction of two predicates, as one named predicate.
pub open spec fn and_pred<A>(pa: spec_fn(A) -> bool, pb: spec_fn(A) -> bool) -> spec_fn(A) -> bool {
    |x: A| pa(x) && pb(x)
}

/// Filtering keeps a sequence whose elements all pass the predicate intact.
pub proof fn lemma_filter_all_pass<A>(s: Seq<A>, p: spec_fn(A) -> bool)
    requires
        forall|i: int| 0 <= i < s.len() ==> p(#[trigger] s[i]),
    ensures
        s.filter(p) == s,
    decreases s.len(),
{
    reveal(Seq::filter);
    if s.len() > 0 {
        assert(forall|i: int| 0 <= i < s.drop_last().len() ==> p(#[trigger] s.drop_last()[i]));
        lemma_filter_all_pass(s.drop_last(), p);
        assert(s.drop_last().push(s.last()) =~= s);
    }
}

/// Two filters in a row keep exactly the elements that pass both.
pub proof fn lemma_filter_filter<A>(s: Seq<A>, pa: spec_fn(A) -> bool, pb: spec_fn(A) -> bool)
    ensures
        s.filter(pb).filter(pa) == s.filter(and_pred(pa, pb)),
    decreases s.len(),
{
    reveal(Seq::filter);
    if s.len() == 0 {
        assert(s.filter(pb) =~= s);
    } else {
        let d = s.drop_last();
        let x = s.last();
        lemma_filter_filter(d, pa, pb);
        if pb(x) {
            assert(s.filter(pb) == d.filter(pb).push(x));
            assert(d.filter(pb).push(x).drop_last() =~= d.filter(pb));
            assert(d.filter(pb).push(x).last() == x);
        } else {
            assert(s.filter(pb) == d.filter(pb));
        }
    }
}

} // verus!
