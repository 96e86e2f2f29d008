//! Orchestration of create, update and delete: authorization first, then
//! validation, then the store-facing plan. The store itself is an external
//! collaborator, so each operation is split at its store accesses: a
//! `*_prepare` step turns the request into a plan, and an apply step turns
//! the store's answer into the write or delete to perform.

use vstd::prelude::*;
use vstd::string::StrSliceExecFns;
use vstd::string::StringExecFns;
use crate::auth::is_authorized;
use crate::auth::spec_authorized;
use crate::auth::spec_opt_text;
use crate::codegen::build_alphabet;
use crate::codegen::lemma_alphabet_len;
use crate::codegen::spec_alphabet;
use crate::errors::ApiError;
use crate::text::clip;
use crate::text::spec_clip;
use crate::validate::Expiry;
use crate::validate::spec_validate;
use crate::validate::validate;
use crate::METADATA_LIMIT;

verus! {

/// The body of a create request, as the wire layer hands it over.
pub struct CreateRequest {
    pub url: Option<String>,
    pub length: Option<i64>,
    pub number: Option<bool>,
    pub capital: Option<bool>,
    pub lowercase: Option<bool>,
    pub expiration: Option<i64>,
    pub expiration_ttl: Option<i64>,
}

/// The body of an update request.
pub struct UpdateRequest {
    pub url: Option<String>,
    pub short: Option<String>,
    pub expiration: Option<i64>,
    pub expiration_ttl: Option<i64>,
}

/// One write against the store: key, value, search metadata, and the
/// expiry resolved by validation.
pub struct StoreWrite {
    pub key: String,
    pub value: String,
    pub metadata: String,
    pub expiry: Expiry,
}

/// Everything a validated create still needs from the store side: the
/// target to persist, the generation alphabet, the requested code length,
/// and the resolved expiry.
pub struct CreatePlan {
    pub target: String,
    pub alphabet: String,
    pub length: usize,
    pub expiry: Expiry,
}

/// An optional switch that is on unless explicitly disabled.
pub open spec fn spec_on_by_default(b: Option<bool>) -> bool {
    match b {
        Option::Some(v) => v,
        Option::None => true,
    }
}

/// The code length a create request asks for; six characters by default.
pub open spec fn spec_requested_length(l: Option<i64>) -> int {
    match l {
        Option::Some(v) => v as int,
        Option::None => 6,
    }
}

/// Turns a create request into a plan: authorization, the validation rules
/// with the URL required, then the alphabet from the three character-class
/// switches — rejected explicitly when all three are disabled, since an
/// empty alphabet could never yield a code.
pub fn create_prepare(
    header: &Option<String>,
    tokens: &Vec<String>,
    req: &CreateRequest,
    now: i64,
) -> (r: Result<CreatePlan, ApiError>)
    requires
        req.length matches Some(l) ==> 1 <= l <= usize::MAX,
    ensures
        !spec_authorized(spec_opt_text(*header), tokens@) ==> r == Result::<
            CreatePlan,
            ApiError,
        >::Err(ApiError::Forbidden),
        spec_authorized(spec_opt_text(*header), tokens@) ==> (match spec_validate(
            spec_opt_text(req.url),
            true,
            req.expiration,
            req.expiration_ttl,
            now,
        ) {
            Result::Err(e) => r == Result::<CreatePlan, ApiError>::Err(e),
            Result::Ok(expiry) => {
                if !spec_on_by_default(req.number) && !spec_on_by_default(req.capital)
                    && !spec_on_by_default(req.lowercase) {
                    r == Result::<CreatePlan, ApiError>::Err(ApiError::EmptyAlphabet)
                } else {
                    r matches Ok(p) && p.target@ == spec_opt_text(req.url).unwrap()
                        && p.alphabet@ == spec_alphabet(
                        spec_on_by_default(req.number),
                        spec_on_by_default(req.capital),
                        spec_on_by_default(req.lowercase),
                    ) && p.alphabet@.len() >= 1 && p.length as int == spec_requested_length(
                        req.length,
                    ) && p.expiry == expiry
                }
            },
        }),
{
    if !is_authorized(header, tokens) {
        return Result::Err(ApiError::Forbidden);
    }
    let expiry = match validate(&req.url, true, req.expiration, req.expiration_ttl, now) {
        Result::Ok(e) => e,
        Result::Err(e) => {
            return Result::Err(e);
        },
    };
    let target = match &req.url {
        Option::Some(u) => u.clone(),
        Option::None => {
            // validation with a required URL cannot succeed without one
            return Result::Err(ApiError::InvalidUrl);
        },
    };
    let number = match req.number {
        Option::Some(v) => v,
        Option::None => true,
    };
    let capital = match req.capital {
        Option::Some(v) => v,
        Option::None => true,
    };
    let lowercase = match req.lowercase {
        Option::Some(v) => v,
        Option::None => true,
    };
    if !number && !capital && !lowercase {
        return Result::Err(ApiError::EmptyAlphabet);
    }
    let alphabet = build_alphabet(number, capital, lowercase);
    proof {
        lemma_alphabet_len(number, capital, lowercase);
    }
    let length: usize = match req.length {
        Option::Some(l) => l as usize,
        Option::None => 6,
    };
    Result::Ok(CreatePlan { target, alphabet, length, expiry })
}

/// Turns a generated code and the request domain into the store write and
/// the short URL reported back: the value is the target, the metadata is
/// the target truncated to the search limit, and the short URL is
/// `{domain}/{code}`.
pub fn create_finish(plan: &CreatePlan, code: &String, domain: &str) -> (r: (StoreWrite, String))
    ensures
        r.0.key@ == code@,
        r.0.value@ == plan.target@,
        r.0.metadata@ == spec_clip(plan.target@, METADATA_LIMIT as int),
        r.0.expiry == plan.expiry,
        r.1@ == domain@ + "/"@ + code@,
{
    let write = StoreWrite {
        key: code.clone(),
        value: plan.target.clone(),
        metadata: clip(plan.target.as_str(), METADATA_LIMIT),
        expiry: plan.expiry,
    };
    let short = domain.to_owned().concat("/").concat(code.as_str());
    (write, short)
}

/// A validated update, waiting on the store's answer for the existing entry.
pub struct UpdatePlan {
    pub key: String,
    pub url: Option<String>,
    pub expiry: Expiry,
}

/// Turns an update request into a plan: authorization, the validation rules
/// with the URL optional, then the key — which must be named.
pub fn update_prepare(
    header: &Option<String>,
    tokens: &Vec<String>,
    req: &UpdateRequest,
    now: i64,
) -> (r: Result<UpdatePlan, ApiError>)
    ensures
        !spec_authorized(spec_opt_text(*header), tokens@) ==> r == Result::<
            UpdatePlan,
            ApiError,
        >::Err(ApiError::Forbidden),
        spec_authorized(spec_opt_text(*header), tokens@) ==> (match spec_validate(
            spec_opt_text(req.url),
            false,
            req.expiration,
            req.expiration_ttl,
            now,
        ) {
            Result::Err(e) => r == Result::<UpdatePlan, ApiError>::Err(e),
            Result::Ok(expiry) => (match req.short {
                Option::None => r == Result::<UpdatePlan, ApiError>::Err(ApiError::NoShortLink),
                Option::Some(s) => r matches Ok(p) && p.key@ == s@ && spec_opt_text(p.url)
                    == spec_opt_text(req.url) && p.expiry == expiry,
            }),
        }),
{
    if !is_authorized(header, tokens) {
        return Result::Err(ApiError::Forbidden);
    }
    let expiry = match validate(&req.url, false, req.expiration, req.expiration_ttl, now) {
        Result::Ok(e) => e,
        Result::Err(e) => {
            return Result::Err(e);
        },
    };
    let key = match &req.short {
        Option::Some(s) => s.clone(),
        Option::None => {
            return Result::Err(ApiError::NoShortLink);
        },
    };
    let url = match &req.url {
        Option::Some(u) => Option::Some(u.clone()),
        Option::None => Option::None,
    };
    Result::Ok(UpdatePlan { key, url, expiry })
}

/// Folds the store's answer into the update: updating a key that does not
/// exist is refused, and an omitted target defaults to the stored value.
pub fn update_apply(plan: &UpdatePlan, existing: Option<String>) -> (r: Result<
    StoreWrite,
    ApiError,
>)
    ensures
        existing is None ==> r == Result::<StoreWrite, ApiError>::Err(ApiError::UpdateNonexistent),
        (match existing {
            Option::Some(stored) => r matches Ok(w) && w.key@ == plan.key@ && w.value@ == (match plan.url {
                Option::Some(u) => u@,
                Option::None => stored@,
            }) && w.metadata@ == spec_clip(w.value@, METADATA_LIMIT as int) && w.expiry
                == plan.expiry,
            Option::None => true,
        }),
{
    let stored = match existing {
        Option::Some(v) => v,
        Option::None => {
            return Result::Err(ApiError::UpdateNonexistent);
        },
    };
    let value = match &plan.url {
        Option::Some(u) => u.clone(),
        Option::None => stored,
    };
    let metadata = clip(value.as_str(), METADATA_LIMIT);
    Result::Ok(StoreWrite { key: plan.key.clone(), value, metadata, expiry: plan.expiry })
}

/// Turns a delete request into the key to remove: authorization, then the
/// key — which must be named.
pub fn delete_prepare(header: &Option<String>, tokens: &Vec<String>, short: &Option<String>) -> (r:
    Result<String, ApiError>)
    ensures
        !spec_authorized(spec_opt_text(*header), tokens@) ==> r == Result::<
            String,
            ApiError,
        >::Err(ApiError::Forbidden),
        spec_authorized(spec_opt_text(*header), tokens@) ==> (match *short {
            Option::None => r == Result::<String, ApiError>::Err(ApiError::ProvideShort),
            Option::Some(s) => r matches Ok(k) && k@ == s@,
        }),
{
    if !is_authorized(header, tokens) {
        return Result::Err(ApiError::Forbidden);
    }
    match short {
        Option::Some(s) => Result::Ok(s.clone()),
        Option::None => Result::Err(ApiError::ProvideShort),
    }
}

/// The read-before-write precondition of delete: the key must exist in the
/// store for the delete to proceed.
pub fn delete_check(exists_in_store: bool) -> (r: Result<(), ApiError>)
    ensures
        r == (if exists_in_store {
            Result::<(), ApiError>::Ok(())
        } else {
            Result::<(), ApiError>::Err(ApiError::DeleteNonexistent)
        }),
{
    if exists_in_store {
        Result::Ok(())
    } else {
        Result::Err(ApiError::DeleteNonexistent)
    }
}

} // verus!
