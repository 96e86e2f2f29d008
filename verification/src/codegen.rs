//! Short-code generation: a configurable alphabet, uniformly random draws
//! from a system randomness source, exclusion of codes whose lowercase form
//! starts with a reserved shortcut prefix, and collision avoidance through a
//! caller-supplied existence probe.

use vstd::prelude::*;
use vstd::string::StrSliceExecFns;
use vstd::string::StringExecFns;
use crate::text::ci_is;
use crate::text::spec_ci_is;

verus! {

/// The generation alphabet selected by the three character-class switches:
/// digits, uppercase letters, lowercase letters, concatenated in that order.
pub open spec fn spec_alphabet(number: bool, capital: bool, lowercase: bool) -> Seq<char> {
    (if number {
        "0123456789"@
    } else {
        Seq::<char>::empty()
    }) + (if capital {
        "ABCDEFGHIJKLMNOPQRSTUVWXYZ"@
    } else {
        Seq::<char>::empty()
    }) + (if lowercase {
        "abcdefghijklmnopqrstuvwxyz"@
    } else {
        Seq::<char>::empty()
    })
}

/// Builds the alphabet string for the enabled character classes.
pub fn build_alphabet(number: bool, capital: bool, lowercase: bool) -> (a: String)
    ensures
        a@ == spec_alphabet(number, capital, lowercase),
{
    let mut s = String::new();
    if number {
        s.append("0123456789");
    }
    if capital {
        s.append("ABCDEFGHIJKLMNOPQRSTUVWXYZ");
    }
    if lowercase {
        s.append("abcdefghijklmnopqrstuvwxyz");
    }
    proof {
        assert(s@ =~= spec_alphabet(number, capital, lowercase));
    }
    s
}

/// Law: the alphabet's length is the sum of the enabled classes' sizes —
/// in particular, it is non-empty as soon as one class is enabled.
pub proof fn lemma_alphabet_len(number: bool, capital: bool, lowercase: bool)
    ensures
        spec_alphabet(number, capital, lowercase).len() == (if number {
            10int
        } else {
            0int
        }) + (if capital {
            26int
        } else {
            0int
        }) + (if lowercase {
            26int
        } else {
            0int
        }),
{
    reveal_strlit("0123456789");
    reveal_strlit("ABCDEFGHIJKLMNOPQRSTUVWXYZ");
    reveal_strlit("abcdefghijklmnopqrstuvwxyz");
}

/// A code is reserved when its lowercase form starts with one of the
/// shortcut prefixes `p`, `av`, `bv`, `cv`, `yt`.
pub open spec fn spec_reserved(s: Seq<char>) -> bool {
    ||| s.len() >= 1 && spec_ci_is(s[0], 'p')
    ||| s.len() >= 2 && spec_ci_is(s[0], 'a') && spec_ci_is(s[1], 'v')
    ||| s.len() >= 2 && spec_ci_is(s[0], 'b') && spec_ci_is(s[1], 'v')
    ||| s.len() >= 2 && spec_ci_is(s[0], 'c') && spec_ci_is(s[1], 'v')
    ||| s.len() >= 2 && spec_ci_is(s[0], 'y') && spec_ci_is(s[1], 't')
}

/// Decides `spec_reserved`.
pub fn is_reserved(s: &str) -> (b: bool)
    ensures
        b == spec_reserved(s@),
{
    let n = s.unicode_len();
    if n == 0 {
        return false;
    }
    let c0 = s.get_char(0);
    if ci_is(c0, 'p') {
        return true;
    }
    if n < 2 {
        return false;
    }
    let c1 = s.get_char(1);
    (ci_is(c0, 'a') && ci_is(c1, 'v')) || (ci_is(c0, 'b') && ci_is(c1, 'v')) || (ci_is(c0, 'c')
        && ci_is(c1, 'v')) || (ci_is(c0, 'y') && ci_is(c1, 't'))
}

/// Relies on getrandom::u32: a fresh value from the system's preferred
/// random source, or `None` when that source reports a failure. Nothing is
/// assumed about the value itself.
#[verifier::external_body]
fn random_u32() -> Option<u32> {
    getrandom::u32().ok()
}

/// A random position in the alphabet, or `None` when the random source
/// failed. Like the service it models, only the first 256 characters of an
/// oversized alphabet are ever drawn.
fn draw_index(alphabet: &str) -> (r: Option<usize>)
    requires
        1 <= alphabet@.len(),
    ensures
        r matches Some(i) ==> i < alphabet@.len() && i + 1 <= usize::MAX,
{
    let alen = alphabet.unicode_len();
    match random_u32() {
        Option::Some(x) => Option::Some(((x % 256) as usize) % alen),
        Option::None => Option::None,
    }
}

/// One candidate code: `length` characters drawn independently and uniformly
/// at random from the alphabet. `None` when the random source failed.
fn make_candidate(alphabet: &str, length: usize) -> (r: Option<String>)
    requires
        1 <= alphabet@.len(),
    ensures
        r matches Some(c) ==> c@.len() == length && forall|t: int|
            0 <= t < c@.len() ==> alphabet@.contains(#[trigger] c@[t]),
{
    let mut out = String::new();
    let mut k: usize = 0;
    while k < length
        invariant
            1 <= alphabet@.len(),
            k <= length,
            out@.len() == k,
            forall|t: int| 0 <= t < out@.len() ==> alphabet@.contains(#[trigger] out@[t]),
        decreases length - k,
    {
        let i = match draw_index(alphabet) {
            Option::Some(i) => i,
            Option::None => {
                return Option::None;
            },
        };
        let one = alphabet.substring_char(i, i + 1);
        let ghost prev = out@;
        out.append(one);
        k += 1;
        proof {
            assert(alphabet@.contains(alphabet@[i as int]));
            assert forall|t: int| 0 <= t < out@.len() implies alphabet@.contains(
                #[trigger] out@[t],
            ) by {
                if t < prev.len() {
                    assert(out@[t] == prev[t]);
                } else {
                    assert(out@[t] == alphabet@.subrange(i as int, i as int + 1)[0]);
                }
            }
        }
    }
    Option::Some(out)
}

/// Generates a free short code. Candidates of the requested length are drawn
/// from the alphabet; one is discarded when its lowercase form starts with a
/// reserved prefix, or when the caller's existence probe reports the code as
/// taken. The caller supplies a retry budget as an explicit safety cap;
/// `None` means the budget ran out or the random source failed, and no code
/// was handed out.
///
/// A returned code has the requested length, uses only characters of the
/// alphabet, is not reserved-prefixed, and was reported free by the probe.
pub fn generate<F: Fn(&String) -> bool>(
    alphabet: &String,
    length: usize,
    exists_fn: F,
    max_attempts: usize,
) -> (r: Option<String>)
    requires
        1 <= alphabet@.len(),
        forall|k: &String| #[trigger] exists_fn.requires((k,)),
    ensures
        r matches Some(c) ==> {
            &&& c@.len() == length
            &&& forall|t: int| 0 <= t < c@.len() ==> alphabet@.contains(#[trigger] c@[t])
            &&& !spec_reserved(c@)
            &&& exists_fn.ensures((&c,), false)
        },
{
    let mut attempt: usize = 0;
    while attempt < max_attempts
        invariant
            1 <= alphabet@.len(),
            attempt <= max_attempts,
            forall|k: &String| #[trigger] exists_fn.requires((k,)),
        decreases max_attempts - attempt,
    {
        attempt += 1;
        let cand = match make_candidate(alphabet.as_str(), length) {
            Option::Some(c) => c,
            Option::None => {
                return Option::None;
            },
        };
        if is_reserved(cand.as_str()) {
            continue;
        }
        if !exists_fn(&cand) {
            return Option::Some(cand);
        }
    }
    Option::None
}

} // verus!
