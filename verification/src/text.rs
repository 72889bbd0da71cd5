//! Substring search over the characters of texts, as the drivers use it to
//! match process image names and registry key names.
use vstd::prelude::*;
use vstd::string::StrSliceExecFns;

verus! {

/// `needle` occurs in `hay` at position `k`.
pub open spec fn occurs_at(hay: Seq<char>, needle: Seq<char>, k: int) -> bool {
    0 <= k && k + needle.len() <= hay.len() && hay.subrange(k, k + needle.len()) == needle
}

/// `needle` occurs somewhere in `hay` (the empty needle occurs in every text).
pub open spec fn contains_text(hay: Seq<char>, needle: Seq<char>) -> bool {
    exists|k: int| occurs_at(hay, needle, k)
}

/// The characters of a text, in order.
pub fn chars_of(s: &str) -> (r: Vec<char>)
    ensures
        r@ == s@,
{
    let n = s.unicode_len();
    let mut out: Vec<char> = Vec::new();
    let mut i: usize = 0;
    while i < n
        invariant
            n == s@.len(),
            0 <= i <= n,
            out@ == s@.subrange(0, i as int),
        decreases n - i,
    {
        out.push(s.get_char(i));
        i = i + 1;
        assert(out@ =~= s@.subrange(0, i as int));
    }
    assert(out@ =~= s@);
    out
}

/// `needle` occurs in `hay` at position `k`, compared character by character.
fn matches_at(hay: &Vec<char>, needle: &Vec<char>, k: usize) -> (r: bool)
    requires
        k + needle@.len() <= hay@.len(),
    ensures
        r == occurs_at(hay@, needle@, k as int),
{
    let m = needle.len();
    let hl = hay.len();
    let mut j: usize = 0;
    while j < m
        invariant
            m == needle@.len(),
            hl == hay@.len(),
            k + m <= hay@.len(),
            0 <= j <= m,
            forall|t: int| 0 <= t < j ==> hay@[k + t] == needle@[t],
        decreases m - j,
    {
        if hay[k + j] != needle[j] {
            proof {
                let sub = hay@.subrange(k as int, k + m);
                assert(sub[j as int] != needle@[j as int]);
            }
            return false;
        }
        j = j + 1;
    }
    assert(hay@.subrange(k as int, k + m) =~= needle@);
    true
}

/// Whether `needle` occurs in `hay` (`str::contains` on texts).
pub fn contains_chars(hay: &Vec<char>, needle: &Vec<char>) -> (r: bool)
    ensures
        r == contains_text(hay@, needle@),
{
    let n = hay.len();
    let m = needle.len();
    if m > n {
        proof {
            assert forall|k: int| !occurs_at(hay@, needle@, k) by {}
        }
        return false;
    }
    let mut k: usize = 0;
    loop
        invariant
            n == hay@.len(),
            m == needle@.len(),
            m <= n,
            0 <= k <= n - m,
            forall|t: int| 0 <= t < k ==> !occurs_at(hay@, needle@, t),
        decreases n - m - k,
    {
        if matches_at(hay, needle, k) {
            return true;
        }
        if k == n - m {
            proof {
                assert forall|t: int| !occurs_at(hay@, needle@, t) by {
                    if 0 <= t <= k {
                    }
                }
            }
            return false;
        }
        k = k + 1;
    }
}

/// Whether `needle` occurs in `hay` (`str::contains`).
pub fn text_contains(hay: &str, needle: &str) -> (r: bool)
    ensures
        r == contains_text(hay@, needle@),
{
    let h = chars_of(hay);
    let n = chars_of(needle);
    contains_chars(&h, &n)
}

} // verus!
