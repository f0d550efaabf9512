//! Declarations and wrappers for the outside crates the core leans on: the
//! opaque JSON document type, the random identifier source and the clock.

use vstd::prelude::*;

verus! {

/// `serde_json::Value` is the open-schema `metadata` document of a record.
/// It is carried opaquely: stored and returned verbatim, never inspected.
#[verifier::external_type_specification]
#[verifier::external_body]
pub struct ExValue(serde_json::Value);

/// Relies on the `Clone` implementation of `serde_json::Value`, which copies
/// the whole document: the copy equals its source value.
pub assume_specification[ <serde_json::Value as Clone>::clone ](v: &serde_json::Value) -> (r:
    serde_json::Value)
    ensures
        r == *v,
;

/// Relies on `uuid::Uuid::new_v4` and `Uuid::as_u128`: a freshly drawn
/// random version-4 identifier as its 128-bit value. A random result admits
/// no functional contract, so callers treat it as arbitrary and check
/// uniqueness themselves.
#[verifier::external_body]
pub(crate) fn fresh_id() -> u128 {
    uuid::Uuid::new_v4().as_u128()
}

/// Relies on `chrono::Utc::now` and `DateTime::timestamp_micros`: the
/// current wall-clock time in microseconds since the Unix epoch. The clock
/// admits no functional contract, so callers treat the value as arbitrary.
#[verifier::external_body]
pub(crate) fn now_micros() -> i64 {
    chrono::Utc::now().timestamp_micros()
}

} // verus!
