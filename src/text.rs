use vstd::prelude::*;

verus! {

/// Whether `sub` occurs in `s` starting at position `i`.
pub open spec fn occurs_at(s: Seq<char>, sub: Seq<char>, i: int) -> bool {
    0 <= i && i + sub.len() <= s.len() && s.subrange(i, i + sub.len()) == sub
}

/// Whether `sub` occurs anywhere in `s`.
pub open spec fn has_substring(s: Seq<char>, sub: Seq<char>) -> bool {
    exists|i: int| occurs_at(s, sub, i)
}

/// Character-wise equality of two strings.
pub fn str_equal(a: &str, b: &str) -> (r: bool)
    ensures
        r == (a@ == b@),
{
    let n = a.unicode_len();
    if n != b.unicode_len() {
        return false;
    }
    let mut i: usize = 0;
    while i < n
        invariant
            n == a@.len(),
            n == b@.len(),
            i <= n,
            forall|k: int| 0 <= k < i ==> a@[k] == b@[k],
        decreases n - i,
    {
        if a.get_char(i) != b.get_char(i) {
            return false;
        }
        i = i + 1;
    }
    assert(a@ =~= b@);
    true
}

/// Whether `sub` occurs in `s` starting at character `off`.
fn matches_at(s: &str, sub: &str, off: usize) -> (r: bool)
    requires
        off + sub@.len() <= s@.len(),
    ensures
        r == occurs_at(s@, sub@, off as int),
{
    let n = s.unicode_len();
    let m = sub.unicode_len();
    let mut j: usize = 0;
    while j < m
        invariant
            m == sub@.len(),
            n == s@.len(),
            off + m <= n,
            j <= m,
            forall|k: int| 0 <= k < j ==> s@[off + k] == sub@[k],
        decreases m - j,
    {
        if s.get_char(off + j) != sub.get_char(j) {
            assert(s@.subrange(off as int, off + m)[j as int] != sub@[j as int]);
            return false;
        }
        j = j + 1;
    }
    assert(s@.subrange(off as int, off + m) =~= sub@);
    true
}

/// Whether `sub` occurs anywhere in `s`, character by character.
pub fn contains(s: &str, sub: &str) -> (r: bool)
    ensures
        r == has_substring(s@, sub@),
{
    let n = s.unicode_len();
    let m = sub.unicode_len();
    if m > n {
        assert forall|i: int| !occurs_at(s@, sub@, i) by {}
        return false;
    }
    let last = n - m;
    let mut i: usize = 0;
    while i < last
        invariant
            n == s@.len(),
            m == sub@.len(),
            last == n - m,
            i <= last,
            forall|k: int| 0 <= k < i ==> !occurs_at(s@, sub@, k),
        decreases last - i,
    {
        if matches_at(s, sub, i) {
            return true;
        }
        i = i + 1;
    }
    if matches_at(s, sub, last) {
        return true;
    }
    assert forall|k: int| !occurs_at(s@, sub@, k) by {
        if 0 <= k && k < i {
        }
    }
    false
}

} // verus!
