//! Small verified text helpers shared by the other modules: ASCII
//! case-insensitive character matching, substring search, and truncation
//! of a string to a length limit.

use vstd::prelude::*;
use vstd::string::StrSliceExecFns;

verus! {

/// True when `c` is an ASCII uppercase letter.
pub open spec fn spec_is_ascii_upper(c: char) -> bool {
    65 <= c as u32 && c as u32 <= 90
}

/// Case-insensitive match of `c` against an ASCII lowercase letter `l`:
/// holds when `c` is `l` itself or the uppercase form of `l`.
pub open spec fn spec_ci_is(c: char, l: char) -> bool {
    c as u32 == l as u32 || (spec_is_ascii_upper(c) && c as u32 + 32 == l as u32)
}

/// Decides `spec_ci_is` on concrete characters.
pub fn ci_is(c: char, l: char) -> (b: bool)
    ensures
        b == spec_ci_is(c, l),
{
    let cu = c as u32;
    let lu = l as u32;
    cu == lu || (65 <= cu && cu <= 90 && cu + 32 == lu)
}

/// `s` cut down to its first `limit` characters; shorter strings pass through.
pub open spec fn spec_clip(s: Seq<char>, limit: int) -> Seq<char> {
    if s.len() > limit {
        s.subrange(0, limit)
    } else {
        s
    }
}

/// Returns a copy of `s` truncated to at most `limit` characters.
pub fn clip(s: &str, limit: usize) -> (r: String)
    ensures
        r@ == spec_clip(s@, limit as int),
{
    let n = s.unicode_len();
    if n > limit {
        s.substring_char(0, limit).to_owned()
    } else {
        s.to_owned()
    }
}

/// True when `n` occurs in `h` as a contiguous substring.
pub open spec fn spec_has_substring(h: Seq<char>, n: Seq<char>) -> bool {
    exists|i: int|
        0 <= i && i + n.len() <= h.len() && #[trigger] h.subrange(i, i + n.len() as int) == n
}

/// Whether `n` matches `h` exactly at position `i`.
fn match_at(h: &str, n: &str, i: usize) -> (b: bool)
    requires
        i + n@.len() <= h@.len(),
        h@.len() <= usize::MAX,
    ensures
        b == (h@.subrange(i as int, i as int + n@.len() as int) == n@),
{
    let nn = n.unicode_len();
    let mut j: usize = 0;
    while j < nn
        invariant
            i + nn <= h@.len(),
            h@.len() <= usize::MAX,
            nn == n@.len(),
            j <= nn,
            forall|t: int| 0 <= t < j ==> h@[i + t] == n@[t],
        decreases nn - j,
    {
        if h.get_char(i + j) != n.get_char(j) {
            proof {
                assert(h@.subrange(i as int, i as int + nn as int)[j as int] == h@[i + j]);
            }
            return false;
        }
        j += 1;
    }
    proof {
        assert(h@.subrange(i as int, i as int + nn as int) =~= n@);
    }
    true
}

/// Decides substring containment, the filter used by metadata search.
pub fn has_substring(h: &str, n: &str) -> (b: bool)
    ensures
        b == spec_has_substring(h@, n@),
{
    let hn = h.unicode_len();
    let nn = n.unicode_len();
    if nn > hn {
        return false;
    }
    if nn == 0 {
        proof {
            assert(h@.subrange(0, 0) =~= n@);
            assert(spec_has_substring(h@, n@)) by {
                assert(0 <= 0int && 0int + n@.len() <= h@.len()
                    && h@.subrange(0int, 0int + n@.len() as int) == n@);
            }
        }
        return true;
    }
    let mut i: usize = 0;
    while i <= hn - nn
        invariant
            1 <= nn <= hn,
            hn == h@.len(),
            nn == n@.len(),
            i <= hn - nn + 1,
            forall|k: int| 0 <= k < i ==> #[trigger] h@.subrange(k, k + nn as int) != n@,
        decreases hn - nn + 1 - i,
    {
        if match_at(h, n, i) {
            proof {
                assert(spec_has_substring(h@, n@)) by {
                    assert(0 <= i as int && i as int + n@.len() <= h@.len()
                        && h@.subrange(i as int, i as int + n@.len() as int) == n@);
                }
            }
            return true;
        }
        i += 1;
    }
    false
}

} // verus!
