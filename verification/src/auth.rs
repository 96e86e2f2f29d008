//! Bearer-token authorization: extracting the token from an `Authorization`
//! header and matching it against the configured allow-list.

use vstd::prelude::*;
use vstd::string::StrSliceExecFns;
use vstd::string::StringExecFns;

verus! {

/// The view of an optional string.
pub open spec fn spec_opt_text(s: Option<String>) -> Option<Seq<char>> {
    match s {
        Option::Some(x) => Option::Some(x@),
        Option::None => Option::None,
    }
}

/// The bearer token carried by an `Authorization` header value: the remainder
/// after the exact, case-sensitive scheme prefix `"Bearer "`, or `None` when
/// the value does not carry that scheme.
pub open spec fn spec_bearer_token(h: Seq<char>) -> Option<Seq<char>> {
    if h.len() >= 7 && h.subrange(0, 7) == "Bearer "@ {
        Option::Some(h.skip(7))
    } else {
        Option::None
    }
}

/// Authorization holds exactly when the header is present, carries the bearer
/// scheme, and the extracted token equals one of the allowed tokens.
pub open spec fn spec_authorized(header: Option<Seq<char>>, tokens: Seq<String>) -> bool {
    match header {
        Option::Some(h) => match spec_bearer_token(h) {
            Option::Some(t) => exists|i: int|
                0 <= i < tokens.len() && (#[trigger] tokens[i]@) == t,
            Option::None => false,
        },
        Option::None => false,
    }
}

/// Decides authorization for a request: the header must start with
/// `"Bearer "` and the rest must match an allowed token exactly.
pub fn is_authorized(header: &Option<String>, tokens: &Vec<String>) -> (b: bool)
    ensures
        b == spec_authorized(spec_opt_text(*header), tokens@),
{
    let h = match header {
        Option::Some(h) => h,
        Option::None => {
            return false;
        },
    };
    let n = h.as_str().unicode_len();
    if n < 7 {
        return false;
    }
    let prefix = h.as_str().substring_char(0, 7).to_owned();
    if !prefix.eq(&String::from_str("Bearer ")) {
        return false;
    }
    let token = h.as_str().substring_char(7, n).to_owned();
    let mut i: usize = 0;
    while i < tokens.len()
        invariant
            i <= tokens.len(),
            spec_opt_text(*header) == Option::Some(h@),
            h@.len() >= 7,
            h@.subrange(0, 7) == "Bearer "@,
            token@ == h@.skip(7),
            forall|k: int| 0 <= k < i ==> #[trigger] tokens@[k]@ != token@,
        decreases tokens.len() - i,
    {
        if tokens[i].eq(&token) {
            proof {
                assert(spec_opt_text(*header) == Option::Some(h@));
                assert(spec_bearer_token(h@) == Option::Some(h@.skip(7)));
                assert(0 <= (i as int) && (i as int) < tokens@.len() && tokens@[i as int]@
                    == h@.skip(7));
                assert(spec_authorized(spec_opt_text(*header), tokens@));
            }
            return true;
        }
        i += 1;
    }
    false
}

} // verus!
