//! The upstream task proxy: content policy at the boundary, the task
//! payload and URLs handed to the outbound client, and the verbatim relay of
//! whatever the upstream answered.

use vstd::prelude::*;
use vstd::string::StringExecFns;
use crate::error::AppError;
use crate::error::ErrorKind;
use crate::error::upstream_error;
use crate::model::TripoTaskRequest;
use crate::policy::contains_forbidden_term;
use crate::policy::task_prompt_ok;
use crate::policy::validate_prompt;

verus! {

/// The upstream task-creation payload. The boundary serializes it with the
/// field names `type`, `prompt`, `model_version`, `quality`.
#[derive(Debug)]
pub struct TaskPayload {
    /// Always the fixed task type `text_to_model`.
    pub task_type: String,
    pub prompt: String,
    /// The requested model version, defaulting to `default`.
    pub model_version: String,
    /// The requested quality, defaulting to `medium`.
    pub quality: String,
}

/// Validates the prompt against the content policy and builds the upstream
/// task-creation payload, filling in the defaults.
pub fn create_task_request(req: TripoTaskRequest) -> (r: Result<TaskPayload, AppError>)
    ensures
        r is Ok <==> task_prompt_ok(req.prompt@),
        r matches Err(e) ==> e.kind == ErrorKind::Validation,
        req.prompt@.len() < 10 || req.prompt@.len() > 500 ==> (r matches Err(e) && e.message@
            == "prompt length must be 10-500"@),
        10 <= req.prompt@.len() <= 500 && contains_forbidden_term(req.prompt@) ==> (
        r matches Err(e) && e.message@ == "prompt contains forbidden content"@),
        r matches Ok(p) ==> ({
            &&& p.task_type@ == "text_to_model"@
            &&& p.prompt == req.prompt
            &&& (req.model_version matches Some(v) ==> p.model_version == v)
            &&& (req.model_version is None ==> p.model_version@ == "default"@)
            &&& (req.quality matches Some(q) ==> p.quality == q)
            &&& (req.quality is None ==> p.quality@ == "medium"@)
        }),
{
    if let Err(e) = validate_prompt(req.prompt.as_str()) {
        return Err(e);
    }
    let model_version = match req.model_version {
        Some(v) => v,
        None => String::from_str("default"),
    };
    let quality = match req.quality {
        Some(q) => q,
        None => String::from_str("medium"),
    };
    Ok(
        TaskPayload {
            task_type: String::from_str("text_to_model"),
            prompt: req.prompt,
            model_version,
            quality,
        },
    )
}

/// The URL task-creation requests are sent to: the upstream base plus `/task`.
pub fn task_url(base: &str) -> (r: String)
    ensures
        r@ == base@ + "/task"@,
{
    let mut r = base.to_owned();
    r.append("/task");
    r
}

/// The URL a task's status is fetched from: the upstream base plus
/// `/task/{task_id}`. The task identifier is opaque and not validated.
pub fn task_status_url(base: &str, task_id: &str) -> (r: String)
    ensures
        r@ == base@ + "/task/"@ + task_id@,
{
    let mut r = base.to_owned();
    r.append("/task/");
    r.append(task_id);
    r
}

/// What came of one request to the upstream service.
pub enum UpstreamOutcome {
    /// The upstream answered; its status, content-type header (if any) and
    /// body bytes, untouched.
    Answered { status: u16, content_type: Option<Vec<u8>>, body: Vec<u8> },
    /// The upstream could not be reached; the rendered transport error.
    TransportFailure { detail: String },
}

/// The response the proxy hands back for a relayed upstream call.
#[derive(Debug)]
pub struct RelayedResponse {
    pub status: u16,
    pub content_type: Option<Vec<u8>>,
    pub body: Vec<u8>,
}

/// Relays an upstream answer verbatim: same status code, same body bytes,
/// same content-type header if one was present. A transport failure is
/// surfaced as the distinguished upstream error, never retried.
pub fn relay_upstream(outcome: UpstreamOutcome) -> (r: Result<RelayedResponse, AppError>)
    ensures
        outcome matches UpstreamOutcome::Answered { status, content_type, body } ==> (
        r matches Ok(resp) && resp.status == status && resp.content_type == content_type
            && resp.body == body),
        outcome matches UpstreamOutcome::TransportFailure { detail } ==> (r matches Err(e)
            && e.kind == ErrorKind::Upstream && e.message@ == "Upstream error: "@ + detail@),
{
    match outcome {
        UpstreamOutcome::Answered { status, content_type, body } => Ok(
            RelayedResponse { status, content_type, body },
        ),
        UpstreamOutcome::TransportFailure { detail } => Err(upstream_error(detail.as_str())),
    }
}

} // verus!
