//! Verified core of a small weapon-record backend.
//!
//! The crate holds the logic of the service: the prompt content policy
//! (length bounds and a fixed forbidden-term filter), the error taxonomy with
//! its status codes, the weapon/share entity lifecycle with its idempotent,
//! monotonic share operation, and the request/response shaping of the
//! upstream task proxy. Process bootstrap, the HTTP server and the relational
//! store are collaborators that live outside this crate and hand it plain
//! values.

use vstd::prelude::*;

pub mod error;
pub mod model;
pub mod policy;
pub mod proxy;
pub mod store;
pub mod text;

mod ext;

verus! {

/// Liveness probe body: the service answers with the plain text `ok`.
pub fn health() -> (r: &'static str)
    ensures
        r@ == "ok"@,
{
    "ok"
}

} // verus!
