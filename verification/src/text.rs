//! Character-level string predicates used throughout the crate.
use vstd::prelude::*;

verus! {

/// `prefix` is a prefix of `s`.
pub open spec fn seq_starts_with(s: Seq<char>, prefix: Seq<char>) -> bool {
    prefix.len() <= s.len() && s.subrange(0, prefix.len() as int) == prefix
}

/// `suffix` is a suffix of `s`.
pub open spec fn seq_ends_with(s: Seq<char>, suffix: Seq<char>) -> bool {
    suffix.len() <= s.len() && s.subrange(s.len() - suffix.len(), s.len() as int) == suffix
}

/// Whether the characters of `s` from position `offset` on begin with `part`.
fn matches_at(s: &str, offset: usize, part: &str) -> (res: bool)
    requires
        offset + part@.len() <= s@.len(),
    ensures
        res == (s@.subrange(offset as int, offset + part@.len()) == part@),
{
    let n = part.unicode_len();
    let total = s.unicode_len();
    let mut i: usize = 0;
    while i < n
        invariant
            n == part@.len(),
            total == s@.len(),
            offset + n <= s@.len(),
            0 <= i <= n,
            forall|j: int| 0 <= j < i ==> s@[offset + j] == part@[j],
        decreases n - i,
    {
        if s.get_char(offset + i) != part.get_char(i) {
            assert(s@.subrange(offset as int, offset + part@.len())[i as int] != part@[i as int]);
            return false;
        }
        i = i + 1;
    }
    assert(s@.subrange(offset as int, offset + part@.len()) =~= part@);
    true
}

/// Character-wise equality of two strings.
pub fn str_eq(a: &str, b: &str) -> (res: bool)
    ensures
        res == (a@ == b@),
{
    let n = a.unicode_len();
    if n != b.unicode_len() {
        return false;
    }
    let r = matches_at(a, 0, b);
    assert(a@.subrange(0, b@.len() as int) =~= a@);
    r
}

/// Whether `s` begins with `prefix`.
pub fn starts_with(s: &str, prefix: &str) -> (res: bool)
    ensures
        res == seq_starts_with(s@, prefix@),
{
    if prefix.unicode_len() > s.unicode_len() {
        return false;
    }
    matches_at(s, 0, prefix)
}

/// Whether `s` ends with `suffix`.
pub fn ends_with(s: &str, suffix: &str) -> (res: bool)
    ensures
        res == seq_ends_with(s@, suffix@),
{
    let n = s.unicode_len();
    let m = suffix.unicode_len();
    if m > n {
        return false;
    }
    matches_at(s, n - m, suffix)
}

} // verus!
