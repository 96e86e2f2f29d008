//! Validation of create and update payloads: the URL-scheme rule, the
//! mutual exclusion of `expiration` and `expirationTtl`, the future-time
//! rule, the TTL default, and the TTL bounds — in that order, first
//! failure wins.

use vstd::prelude::*;
use vstd::string::StrSliceExecFns;
use vstd::string::StringExecFns;
use crate::auth::spec_opt_text;
use crate::errors::ApiError;
use crate::DEFAULT_TTL_SECONDS;

verus! {

/// The expiry a validated write resolves to: an absolute epoch-seconds
/// deadline, or a relative time-to-live in seconds.
#[derive(Clone, Copy, PartialEq, Eq, Structural, Debug)]
pub enum Expiry {
    At(i64),
    Ttl(i64),
}

/// A target URL is acceptable when it begins with `http://` or `https://`.
pub open spec fn spec_valid_url(u: Seq<char>) -> bool {
    (u.len() >= 7 && u.subrange(0, 7) == "http://"@) || (u.len() >= 8 && u.subrange(0, 8)
        == "https://"@)
}

/// Decides `spec_valid_url`.
pub fn is_valid_url(u: &str) -> (b: bool)
    ensures
        b == spec_valid_url(u@),
{
    let n = u.unicode_len();
    if n >= 7 && u.substring_char(0, 7).to_owned().eq(&String::from_str("http://")) {
        return true;
    }
    n >= 8 && u.substring_char(0, 8).to_owned().eq(&String::from_str("https://"))
}

/// The validation rules, in order, first failure winning:
/// 1. where a URL is required it must be present; a present URL must carry an
///    accepted scheme; 2. `expiration` and `expirationTtl` must not both be
///    supplied; 3. a supplied `expiration` must lie strictly in the future;
/// 4. a write supplying neither field is given the default TTL; 5. a TTL must
/// be at least 60 seconds and fit a signed 32-bit range.
pub open spec fn spec_validate(
    url: Option<Seq<char>>,
    url_required: bool,
    exp: Option<i64>,
    ttl: Option<i64>,
    now: i64,
) -> Result<Expiry, ApiError> {
    if url_required && url is None {
        Result::Err(ApiError::InvalidUrl)
    } else if url matches Some(u) && !spec_valid_url(u) {
        Result::Err(ApiError::InvalidUrl)
    } else if exp is Some && ttl is Some {
        Result::Err(ApiError::ConflictingExpiration)
    } else if exp matches Some(e) && e <= now {
        Result::Err(ApiError::ExpirationNotFuture)
    } else {
        match exp {
            Option::Some(e) => Result::Ok(Expiry::At(e)),
            Option::None => {
                let t = match ttl {
                    Option::Some(t) => t,
                    Option::None => DEFAULT_TTL_SECONDS,
                };
                if t < 60 {
                    Result::Err(ApiError::TtlTooSmall)
                } else if !(-2147483648 <= t && t <= 2147483647) {
                    Result::Err(ApiError::TtlOutOfRange)
                } else {
                    Result::Ok(Expiry::Ttl(t))
                }
            },
        }
    }
}

/// Runs the validation rules against the given current time, returning the
/// normalized expiry of the write or the first failing rule's error.
pub fn validate(
    url: &Option<String>,
    url_required: bool,
    exp: Option<i64>,
    ttl: Option<i64>,
    now: i64,
) -> (r: Result<Expiry, ApiError>)
    ensures
        r == spec_validate(spec_opt_text(*url), url_required, exp, ttl, now),
{
    match url {
        Option::None => {
            if url_required {
                return Result::Err(ApiError::InvalidUrl);
            }
        },
        Option::Some(u) => {
            if !is_valid_url(u.as_str()) {
                return Result::Err(ApiError::InvalidUrl);
            }
        },
    }
    if exp.is_some() && ttl.is_some() {
        return Result::Err(ApiError::ConflictingExpiration);
    }
    if let Option::Some(e) = exp {
        if e <= now {
            return Result::Err(ApiError::ExpirationNotFuture);
        }
    }
    if let Option::Some(e) = exp {
        return Result::Ok(Expiry::At(e));
    }
    let t = match ttl {
        Option::Some(t) => t,
        Option::None => DEFAULT_TTL_SECONDS,
    };
    if t < 60 {
        return Result::Err(ApiError::TtlTooSmall);
    }
    if !(-2147483648 <= t && t <= 2147483647) {
        return Result::Err(ApiError::TtlOutOfRange);
    }
    Result::Ok(Expiry::Ttl(t))
}

/// Relies on chrono::Utc::now: the clock's reading, in whole seconds since
/// the Unix epoch. Nothing is assumed about the value read.
#[verifier::external_body]
fn now_timestamp() -> i64 {
    chrono::Utc::now().timestamp()
}

/// Runs the validation rules against the clock: the result is the rules'
/// verdict for some reading of the current time.
pub fn validate_now(url: &Option<String>, url_required: bool, exp: Option<i64>, ttl: Option<i64>)
    -> (r: Result<Expiry, ApiError>)
    ensures
        exists|now: i64|
            r == #[trigger] spec_validate(spec_opt_text(*url), url_required, exp, ttl, now),
{
    let now = now_timestamp();
    validate(url, url_required, exp, ttl, now)
}

/// Law: whenever both `expiration` and `expirationTtl` are supplied,
/// validation fails with the conflicting-expiration error, whatever values
/// the two fields and the clock hold — provided the URL rule, which is
/// checked first, passes.
pub proof fn lemma_conflicting_expiration(
    url: Option<Seq<char>>,
    url_required: bool,
    exp: i64,
    ttl: i64,
    now: i64,
)
    requires
        url_required ==> url is Some,
        url matches Some(u) ==> spec_valid_url(u),
    ensures
        spec_validate(url, url_required, Option::Some(exp), Option::Some(ttl), now)
            == Result::<Expiry, ApiError>::Err(ApiError::ConflictingExpiration),
{
}

/// Law: a payload supplying neither expiration field is given the default
/// TTL of thirty days, exactly — again provided the URL rule passes.
pub proof fn lemma_default_ttl(url: Option<Seq<char>>, url_required: bool, now: i64)
    requires
        url_required ==> url is Some,
        url matches Some(u) ==> spec_valid_url(u),
    ensures
        spec_validate(url, url_required, Option::None, Option::None, now)
            == Result::<Expiry, ApiError>::Ok(Expiry::Ttl(DEFAULT_TTL_SECONDS)),
{
}

} // verus!
