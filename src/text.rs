//! Searching for a fragment of text inside another.
use vstd::prelude::*;

verus! {

/// Whether `pat` occurs in `s` as a contiguous run of characters.
pub open spec fn text_has(s: Seq<char>, pat: Seq<char>) -> bool {
    exists|i: int| 0 <= i <= s.len() - pat.len() && #[trigger] s.subrange(i, i + pat.len()) == pat
}

/// The characters of `s`, one per element.
fn chars_of(s: &str) -> (r: Vec<char>)
    ensures
        r@ == s@,
{
    let n = s.unicode_len();
    let mut r: Vec<char> = Vec::new();
    let mut i: usize = 0;
    while i < n
        invariant
            n == s@.len(),
            i <= n,
            r@ == s@.subrange(0, i as int),
        decreases n - i,
    {
        r.push(s.get_char(i));
        i = i + 1;
        assert(r@ =~= s@.subrange(0, i as int));
    }
    assert(r@ =~= s@);
    r
}

/// Whether `pat` occurs in `s`.
pub fn text_contains(s: &str, pat: &str) -> (r: bool)
    ensures
        r == text_has(s@, pat@),
{
    let t = chars_of(s);
    let p = chars_of(pat);
    if p.len() > t.len() {
        return false;
    }
    let m = p.len();
    let last = t.len() - m;
    let mut i: usize = 0;
    while i <= last
        invariant
            t@ == s@,
            p@ == pat@,
            m == p@.len(),
            last + m == t@.len(),
            last + m <= usize::MAX,
            forall|k: int| 0 <= k < i ==> #[trigger] t@.subrange(k, k + m) != p@,
        decreases last + 1 - i,
    {
        let mut j: usize = 0;
        while j < m && t[i + j] == p[j]
            invariant
                t@ == s@,
                p@ == pat@,
                m == p@.len(),
                i <= last,
                last + m == t@.len(),
                last + m <= usize::MAX,
                j <= m,
                forall|l: int| 0 <= l < j ==> t@[i + l] == p@[l],
            decreases m - j,
        {
            j = j + 1;
        }
        if j == m {
            assert(t@.subrange(i as int, i + m) =~= p@);
            return true;
        }
        assert(t@.subrange(i as int, i + m)[j as int] != p@[j as int]);
        i = i + 1;
    }
    false
}

} // verus!
