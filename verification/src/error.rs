//! Error taxonomy of the service and its mapping to HTTP status codes.

use vstd::prelude::*;
use vstd::string::StringExecFns;

verus! {

/// The four failure classes the service distinguishes.
#[derive(Clone, Copy, Debug, PartialEq, Eq, Structural)]
pub enum ErrorKind {
    /// Malformed or out-of-policy input.
    Validation,
    /// No matching record.
    NotFound,
    /// A store failure.
    Store,
    /// A transport failure reaching the upstream generation service.
    Upstream,
}

/// The HTTP status code each failure class is rendered as.
pub open spec fn status_of(kind: ErrorKind) -> int {
    match kind {
        ErrorKind::Validation => 400,
        ErrorKind::NotFound => 404,
        ErrorKind::Store => 500,
        ErrorKind::Upstream => 502,
    }
}

/// An error carried to the boundary: a failure class and a human-readable
/// message, rendered there as a status code and a one-field message body.
#[derive(Debug)]
pub struct AppError {
    pub kind: ErrorKind,
    pub message: String,
}

impl AppError {
    /// A validation failure, answered with status 400.
    pub fn bad_request(message: String) -> (e: AppError)
        ensures
            e.kind == ErrorKind::Validation,
            e.message == message,
    {
        AppError { kind: ErrorKind::Validation, message }
    }

    /// A missing record, answered with status 404.
    pub fn not_found(message: String) -> (e: AppError)
        ensures
            e.kind == ErrorKind::NotFound,
            e.message == message,
    {
        AppError { kind: ErrorKind::NotFound, message }
    }

    /// An internal failure, answered with status 500.
    pub fn internal(message: String) -> (e: AppError)
        ensures
            e.kind == ErrorKind::Store,
            e.message == message,
    {
        AppError { kind: ErrorKind::Store, message }
    }

    /// An upstream transport failure, answered with status 502.
    pub fn bad_gateway(message: String) -> (e: AppError)
        ensures
            e.kind == ErrorKind::Upstream,
            e.message == message,
    {
        AppError { kind: ErrorKind::Upstream, message }
    }

    /// The HTTP status code this error is rendered as.
    pub fn status_code(&self) -> (code: u16)
        ensures
            code == status_of(self.kind),
    {
        match self.kind {
            ErrorKind::Validation => 400,
            ErrorKind::NotFound => 404,
            ErrorKind::Store => 500,
            ErrorKind::Upstream => 502,
        }
    }
}

/// Wraps the rendered cause of a store failure for operator visibility.
pub fn store_error(detail: &str) -> (e: AppError)
    ensures
        e.kind == ErrorKind::Store,
        e.message@ == "Database error: "@ + detail@,
{
    let mut message = String::from_str("Database error: ");
    message.append(detail);
    AppError { kind: ErrorKind::Store, message }
}

/// Wraps the rendered cause of an upstream transport failure.
pub fn upstream_error(detail: &str) -> (e: AppError)
    ensures
        e.kind == ErrorKind::Upstream,
        e.message@ == "Upstream error: "@ + detail@,
{
    let mut message = String::from_str("Upstream error: ");
    message.append(detail);
    AppError { kind: ErrorKind::Upstream, message }
}

} // verus!
