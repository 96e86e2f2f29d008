//! The error taxonomy of the service and the response envelope that every
//! handler answer is folded into: a status code, a success flag, and a
//! human-readable message.

use vstd::prelude::*;
use vstd::string::StringExecFns;

verus! {

/// Every way a request can fail, across authorization, validation,
/// lookup and routing.
#[derive(Clone, Copy, PartialEq, Eq, Structural, Debug)]
pub enum ApiError {
    /// Missing, malformed or unknown bearer token.
    Forbidden,
    /// The request body could not be read as JSON.
    InvalidJson,
    /// The query string lacked the required `q` parameter.
    MissingQuery,
    /// The target URL is absent where required, or lacks an
    /// `http://` / `https://` scheme.
    InvalidUrl,
    /// Both `expiration` and `expirationTtl` were supplied at once.
    ConflictingExpiration,
    /// The supplied absolute expiration is not in the future.
    ExpirationNotFuture,
    /// The supplied TTL is under the 60-second minimum.
    TtlTooSmall,
    /// The supplied TTL does not fit a signed 32-bit range.
    TtlOutOfRange,
    /// All three character classes of the generation alphabet are disabled.
    EmptyAlphabet,
    /// An update request named no short code.
    NoShortLink,
    /// A delete request named no short code.
    ProvideShort,
    /// An update named a key that is not in the store.
    UpdateNonexistent,
    /// A delete named a key that is not in the store.
    DeleteNonexistent,
    /// An unknown short code on resolution, or an unrecognized route.
    NotFound,
    /// A recognized API path reached with the wrong HTTP verb.
    MethodNotAllowed,
}

/// The HTTP status code carried by each error.
pub open spec fn spec_status(e: ApiError) -> u16 {
    match e {
        ApiError::Forbidden => 403,
        ApiError::NotFound => 404,
        ApiError::MethodNotAllowed => 405,
        _ => 400,
    }
}

/// The user-facing message carried by each error.
pub open spec fn spec_message(e: ApiError) -> Seq<char> {
    match e {
        ApiError::Forbidden => "Forbidden"@,
        ApiError::InvalidJson => "Invalid JSON"@,
        ApiError::MissingQuery => "Provide q"@,
        ApiError::InvalidUrl => "Invalid URL"@,
        ApiError::ConflictingExpiration => "Provide either expiration or expirationTtl, not both"@,
        ApiError::ExpirationNotFuture => "expiration must be greater than the current time"@,
        ApiError::TtlTooSmall => "expirationTtl must be at least 60 seconds"@,
        ApiError::TtlOutOfRange => "expirationTtl must be between -2147483648 and 2147483647 (inclusive)"@,
        ApiError::EmptyAlphabet => "Enable at least one of number, capital and lowercase"@,
        ApiError::NoShortLink => "No short link is provided"@,
        ApiError::ProvideShort => "Provide short"@,
        ApiError::UpdateNonexistent => "Update a non-exist short link is not permit"@,
        ApiError::DeleteNonexistent => "Delete a non-exist short link is not permit"@,
        ApiError::NotFound => "Not Found"@,
        ApiError::MethodNotAllowed => "Method Not Allowed"@,
    }
}

impl ApiError {
    /// The HTTP status code this error is answered with.
    pub fn status(&self) -> (s: u16)
        ensures
            s == spec_status(*self),
    {
        match *self {
            ApiError::Forbidden => 403,
            ApiError::NotFound => 404,
            ApiError::MethodNotAllowed => 405,
            _ => 400,
        }
    }

    /// The user-facing message this error is answered with.
    pub fn message(&self) -> (m: String)
        ensures
            m@ == spec_message(*self),
    {
        match *self {
            ApiError::Forbidden => String::from_str("Forbidden"),
            ApiError::InvalidJson => String::from_str("Invalid JSON"),
            ApiError::MissingQuery => String::from_str("Provide q"),
            ApiError::InvalidUrl => String::from_str("Invalid URL"),
            ApiError::ConflictingExpiration => String::from_str(
                "Provide either expiration or expirationTtl, not both",
            ),
            ApiError::ExpirationNotFuture => String::from_str(
                "expiration must be greater than the current time",
            ),
            ApiError::TtlTooSmall => String::from_str("expirationTtl must be at least 60 seconds"),
            ApiError::TtlOutOfRange => String::from_str(
                "expirationTtl must be between -2147483648 and 2147483647 (inclusive)",
            ),
            ApiError::EmptyAlphabet => String::from_str(
                "Enable at least one of number, capital and lowercase",
            ),
            ApiError::NoShortLink => String::from_str("No short link is provided"),
            ApiError::ProvideShort => String::from_str("Provide short"),
            ApiError::UpdateNonexistent => String::from_str(
                "Update a non-exist short link is not permit",
            ),
            ApiError::DeleteNonexistent => String::from_str(
                "Delete a non-exist short link is not permit",
            ),
            ApiError::NotFound => String::from_str("Not Found"),
            ApiError::MethodNotAllowed => String::from_str("Method Not Allowed"),
        }
    }

    /// The whole wire-level answer for this error: status code and envelope.
    pub fn reply(&self) -> (r: (u16, Envelope))
        ensures
            r.0 == spec_status(*self),
            r.1.ok == false,
            r.1.msg@ == spec_message(*self),
    {
        (self.status(), Envelope { ok: false, msg: self.message() })
    }
}

/// The body shape of every answer: a success flag and a status message.
/// A success payload, when one exists, rides beside it on the wire.
pub struct Envelope {
    pub ok: bool,
    pub msg: String,
}

/// The envelope of a successful answer carrying the given message.
pub fn success_envelope(msg: &str) -> (r: Envelope)
    ensures
        r.ok == true,
        r.msg@ == msg@,
{
    Envelope { ok: true, msg: msg.to_owned() }
}

} // verus!
