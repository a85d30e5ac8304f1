//! Trusted bindings for the wall clock and random identifiers.
use vstd::prelude::*;

verus! {

/// Length of a hyphenated UUID string.
pub const UUID_STR_LEN: usize = 36;

/// Relies on `chrono::Utc::now` and `DateTime::timestamp`: the current time in
/// whole seconds since the Unix epoch. Nothing is known of the value.
#[verifier::external_body]
pub(crate) fn now_unix_seconds() -> (r: i64) {
    chrono::Utc::now().timestamp()
}

/// Relies on `uuid::Uuid::new_v4` and its hyphenated `Display` form: a fresh
/// random identifier of 36 characters.
#[verifier::external_body]
pub(crate) fn new_uuid() -> (r: String)
    ensures
        r@.len() == UUID_STR_LEN,
{
    uuid::Uuid::new_v4().to_string()
}

} // verus!
