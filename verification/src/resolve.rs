//! Resolution of an incoming short code: the fixed shortcut-prefix table,
//! consulted case-insensitively before any store access, then the store
//! lookup, and the fallback classification of unmatched API routes.

use vstd::prelude::*;
use vstd::string::StrSliceExecFns;
use vstd::string::StringExecFns;
use crate::codegen::spec_reserved;
use crate::errors::ApiError;
use crate::text::ci_is;
use crate::text::spec_ci_is;

verus! {

/// What the resolver decides before any store access: redirect at once to a
/// built-in shortcut target, or look the input up as a store key.
pub enum Resolution {
    Redirect(String),
    Lookup(String),
}

/// The shortcut table. An input starting (case-insensitively) with `p`,
/// `av`, `bv`, `cv` or `yt` maps to the interpolated target, the remainder
/// of the input kept with its case; anything else consults the store.
pub open spec fn spec_shortcut(s: Seq<char>) -> Option<Seq<char>> {
    if s.len() >= 1 && spec_ci_is(s[0], 'p') {
        Option::Some("https://asen.page/"@ + s.skip(1) + "/"@)
    } else if s.len() >= 2 && spec_ci_is(s[0], 'a') && spec_ci_is(s[1], 'v') {
        Option::Some("https://www.bilibili.com/video/av"@ + s.skip(2) + "/"@)
    } else if s.len() >= 2 && spec_ci_is(s[0], 'b') && spec_ci_is(s[1], 'v') {
        Option::Some("https://www.bilibili.com/video/BV"@ + s.skip(2) + "/"@)
    } else if s.len() >= 2 && spec_ci_is(s[0], 'c') && spec_ci_is(s[1], 'v') {
        Option::Some("https://www.bilibili.com/video/cv"@ + s.skip(2) + "/"@)
    } else if s.len() >= 2 && spec_ci_is(s[0], 'y') && spec_ci_is(s[1], 't') {
        Option::Some("https://www.youtube.com/watch?v="@ + s.skip(2))
    } else {
        Option::None
    }
}

/// Resolves the shortcut table for an input: a redirect target when a
/// reserved prefix matches — decided without any store access — and
/// otherwise the instruction to look the input up as a store key.
pub fn resolve_input(input: &str) -> (r: Resolution)
    ensures
        (match r {
            Resolution::Redirect(t) => spec_shortcut(input@) == Option::Some(t@),
            Resolution::Lookup(k) => spec_shortcut(input@) is None && k@ == input@,
        }),
{
    let n = input.unicode_len();
    if n == 0 {
        return Resolution::Lookup(input.to_owned());
    }
    let c0 = input.get_char(0);
    if ci_is(c0, 'p') {
        let rest = input.substring_char(1, n);
        let url = String::from_str("https://asen.page/").concat(rest).concat("/");
        proof {
            assert(input@.subrange(1, n as int) =~= input@.skip(1));
        }
        return Resolution::Redirect(url);
    }
    if n == 1 {
        return Resolution::Lookup(input.to_owned());
    }
    let c1 = input.get_char(1);
    proof {
        assert(input@.subrange(2, n as int) =~= input@.skip(2));
    }
    if ci_is(c0, 'a') && ci_is(c1, 'v') {
        let rest = input.substring_char(2, n);
        return Resolution::Redirect(
            String::from_str("https://www.bilibili.com/video/av").concat(rest).concat("/"),
        );
    }
    if ci_is(c0, 'b') && ci_is(c1, 'v') {
        let rest = input.substring_char(2, n);
        return Resolution::Redirect(
            String::from_str("https://www.bilibili.com/video/BV").concat(rest).concat("/"),
        );
    }
    if ci_is(c0, 'c') && ci_is(c1, 'v') {
        let rest = input.substring_char(2, n);
        return Resolution::Redirect(
            String::from_str("https://www.bilibili.com/video/cv").concat(rest).concat("/"),
        );
    }
    if ci_is(c0, 'y') && ci_is(c1, 't') {
        let rest = input.substring_char(2, n);
        return Resolution::Redirect(
            String::from_str("https://www.youtube.com/watch?v=").concat(rest),
        );
    }
    Resolution::Lookup(input.to_owned())
}

/// Law: a code that is not reserved-prefixed never hits the shortcut table —
/// resolving it always consults the store, so a generated code can never
/// shadow a built-in redirect.
pub proof fn lemma_unreserved_code_reaches_the_store(s: Seq<char>)
    requires
        !spec_reserved(s),
    ensures
        spec_shortcut(s) is None,
{
}

/// The outcome of the store lookup that `Resolution::Lookup` calls for: the
/// stored target when the key was found, and not-found otherwise.
pub fn resolve_lookup(found: Option<String>) -> (r: Result<String, ApiError>)
    ensures
        (match found {
            Option::Some(v) => r == Result::<String, ApiError>::Ok(v),
            Option::None => r == Result::<String, ApiError>::Err(ApiError::NotFound),
        }),
{
    match found {
        Option::Some(v) => Result::Ok(v),
        Option::None => Result::Err(ApiError::NotFound),
    }
}

/// True for the path of a recognized API endpoint.
pub open spec fn spec_api_endpoint(p: Seq<char>) -> bool {
    ||| p == "/api/v1/get"@
    ||| p == "/api/v1/create"@
    ||| p == "/api/v1/update"@
    ||| p == "/api/v1/delete"@
    ||| p == "/api/v1/list"@
}

/// Classifies a request that matched no handler: a recognized endpoint path
/// reached with the wrong HTTP verb, or an unknown route.
pub fn route_fallback(path: &str) -> (e: ApiError)
    ensures
        e == (if spec_api_endpoint(path@) {
            ApiError::MethodNotAllowed
        } else {
            ApiError::NotFound
        }),
{
    let p = path.to_owned();
    let known = p.eq(&String::from_str("/api/v1/get")) || p.eq(&String::from_str("/api/v1/create"))
        || p.eq(&String::from_str("/api/v1/update")) || p.eq(&String::from_str("/api/v1/delete"))
        || p.eq(&String::from_str("/api/v1/list"));
    if known {
        ApiError::MethodNotAllowed
    } else {
        ApiError::NotFound
    }
}

} // verus!
