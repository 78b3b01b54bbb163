//! Trusted bindings for identifier generation and the wall clock.

use vstd::prelude::*;

verus! {

/// Relies on uuid's `Uuid::new_v4`: a fresh random identifier whose
/// hyphenated text form is 36 characters; the value itself is random.
#[verifier::external_body]
pub(crate) fn new_uuid() -> (r: String)
    ensures
        r@.len() == 36,
{
    uuid::Uuid::new_v4().to_string()
}

/// Relies on chrono's `Utc::now`, as milliseconds since the epoch.
/// Nothing is promised of the clock's value.
#[verifier::external_body]
pub(crate) fn now_millis() -> i64 {
    chrono::Utc::now().timestamp_millis()
}

} // verus!
