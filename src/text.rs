//! Character-level searches on strings.

use vstd::prelude::*;

verus! {

/// `m` occurs in `s` starting at index `i`.
pub open spec fn occurs_at(s: Seq<char>, m: Seq<char>, i: int) -> bool {
    0 <= i && i + m.len() <= s.len() && s.subrange(i, i + m.len()) == m
}

/// `m` occurs somewhere in `s`.
pub open spec fn contains_seq(s: Seq<char>, m: Seq<char>) -> bool {
    exists|i: int| occurs_at(s, m, i)
}

fn matches_at(s: &str, n: usize, m: &str, k: usize, i: usize) -> (r: bool)
    requires
        n == s@.len(),
        k == m@.len(),
        i + k <= n,
    ensures
        r == occurs_at(s@, m@, i as int),
{
    let mut j: usize = 0;
    while j < k
        invariant
            n == s@.len(),
            k == m@.len(),
            i + k <= n,
            j <= k,
            forall|t: int| 0 <= t < j ==> s@[i + t] == m@[t],
        decreases k - j,
    {
        if s.get_char(i + j) != m.get_char(j) {
            assert(s@.subrange(i as int, i + k)[j as int] != m@[j as int]);
            return false;
        }
        j = j + 1;
    }
    assert(s@.subrange(i as int, i + k) =~= m@);
    true
}

/// Whether `m` occurs in `s` as a contiguous run of characters.
pub fn contains(s: &str, m: &str) -> (r: bool)
    ensures
        r == contains_seq(s@, m@),
{
    let n = s.unicode_len();
    let k = m.unicode_len();
    if k > n {
        return false;
    }
    if k == 0 {
        assert(s@.subrange(0, 0) =~= m@);
        assert(occurs_at(s@, m@, 0));
        return true;
    }
    let mut i: usize = 0;
    while i <= n - k
        invariant
            n == s@.len(),
            k == m@.len(),
            0 < k <= n,
            i <= n - k + 1,
            forall|t: int| 0 <= t < i ==> !occurs_at(s@, m@, t),
        decreases n - k + 1 - i,
    {
        if matches_at(s, n, m, k, i) {
            return true;
        }
        i = i + 1;
    }
    false
}

} // verus!
