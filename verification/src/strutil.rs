//! Verified character-level scanning over `&str`: prefix match, substring
//! search, and finding a line break. These are the only string primitives
//! the event classifier needs.

use vstd::prelude::*;

verus! {

/// `pat` occurs in `s` starting at position `pos`.
pub open spec fn spec_match_at(s: Seq<char>, pos: int, pat: Seq<char>) -> bool {
    &&& 0 <= pos
    &&& pos + pat.len() <= s.len()
    &&& s.subrange(pos, pos + pat.len() as int) == pat
}

/// `s` begins with `pat`.
pub open spec fn spec_starts_with(s: Seq<char>, pat: Seq<char>) -> bool {
    spec_match_at(s, 0, pat)
}

/// `pat` occurs somewhere in `s`.
pub open spec fn spec_contains(s: Seq<char>, pat: Seq<char>) -> bool {
    exists|i: int| spec_match_at(s, i, pat)
}

/// The position of the first occurrence of `c` in `s` at or after `from`,
/// or `s.len()` if there is none.
pub open spec fn spec_find(s: Seq<char>, from: int, c: char) -> int
    decreases s.len() - from,
{
    if from < 0 || from >= s.len() {
        s.len() as int
    } else if s[from] == c {
        from
    } else {
        spec_find(s, from + 1, c)
    }
}

pub proof fn lemma_spec_find(s: Seq<char>, from: int, c: char)
    requires
        0 <= from <= s.len(),
    ensures
        from <= spec_find(s, from, c) <= s.len(),
        spec_find(s, from, c) < s.len() ==> s[spec_find(s, from, c)] == c,
        forall|j: int| from <= j < spec_find(s, from, c) ==> s[j] != c,
    decreases s.len() - from,
{
    if from < s.len() && s[from] != c {
        lemma_spec_find(s, from + 1, c);
    }
}

/// Whether `pat` occurs in `s` at position `pos`, by character comparison.
pub fn match_at(s: &str, pos: usize, pat: &str) -> (b: bool)
    requires
        pos <= s@.len(),
    ensures
        b == spec_match_at(s@, pos as int, pat@),
{
    let n = s.unicode_len();
    let m = pat.unicode_len();
    if m > n - pos {
        return false;
    }
    let mut i: usize = 0;
    while i < m
        invariant
            pos + m <= n,
            n == s@.len(),
            m == pat@.len(),
            i <= m,
            forall|j: int| 0 <= j < i ==> s@[pos + j] == pat@[j],
        decreases m - i,
    {
        if s.get_char(pos + i) != pat.get_char(i) {
            assert(!spec_match_at(s@, pos as int, pat@)) by {
                if spec_match_at(s@, pos as int, pat@) {
                    assert(s@.subrange(pos as int, pos + pat@.len() as int)[i as int]
                        == pat@[i as int]);
                }
            }
            return false;
        }
        i += 1;
    }
    assert(s@.subrange(pos as int, pos + pat@.len() as int) =~= pat@);
    true
}

/// Whether `pat` occurs anywhere in `s`, by scanning every position.
pub fn str_contains(s: &str, pat: &str) -> (b: bool)
    ensures
        b == spec_contains(s@, pat@),
{
    let n = s.unicode_len();
    let m = pat.unicode_len();
    if m > n {
        assert(!spec_contains(s@, pat@));
        return false;
    }
    if m == 0 {
        assert(spec_match_at(s@, 0, pat@)) by {
            assert(s@.subrange(0, 0) =~= pat@);
        }
        return true;
    }
    let mut i: usize = 0;
    while i <= n - m
        invariant
            1 <= m <= n,
            n == s@.len(),
            m == pat@.len(),
            i <= n - m + 1,
            forall|j: int| 0 <= j < i ==> !spec_match_at(s@, j, pat@),
        decreases n - i,
    {
        if match_at(s, i, pat) {
            return true;
        }
        i += 1;
    }
    assert forall|j: int| !spec_match_at(s@, j, pat@) by {
        if spec_match_at(s@, j, pat@) {
            assert(0 <= j <= n - m);
        }
    }
    false
}

/// The position of the first `c` in `s` at or after `from`, or the length of
/// `s` if `c` does not occur there.
pub fn find_char(s: &str, from: usize, c: char) -> (r: usize)
    requires
        from <= s@.len(),
    ensures
        r == spec_find(s@, from as int, c),
{
    let n = s.unicode_len();
    let mut i: usize = from;
    while i < n
        invariant
            from <= i <= n,
            n == s@.len(),
            spec_find(s@, from as int, c) == spec_find(s@, i as int, c),
        decreases n - i,
    {
        if s.get_char(i) == c {
            return i;
        }
        i += 1;
    }
    n
}

} // verus!
