//! Core logic of a URL-shortening service: short-code generation with
//! collision avoidance and reserved-prefix exclusion, validation of
//! create/update payloads, bearer-token authorization, shortcut and store
//! resolution, and cursor-based listing.
//!
//! The durable key-value store, the HTTP router and the wire encoding are
//! external collaborators: the functions here compute decisions and records
//! from plain values, and the surrounding application performs the I/O.

use vstd::prelude::*;

pub mod admin;
pub mod auth;
pub mod codegen;
pub mod errors;
pub mod listing;
pub mod resolve;
pub mod text;
pub mod validate;

verus! {

/// Seconds in thirty days: the time-to-live applied to a write that supplies
/// neither an absolute expiration nor a TTL of its own.
pub const DEFAULT_TTL_SECONDS: i64 = 2592000;

/// The longest metadata string persisted beside an entry: a stored target is
/// truncated to this many characters for search and listing.
pub const METADATA_LIMIT: usize = 1022;

} // verus!
