//! The shared content policy: length bounds on prompts and a fixed,
//! compiled-in forbidden-term filter, checked by case-insensitive substring
//! containment.

use vstd::prelude::*;
use vstd::string::StrSliceExecFns;
use vstd::string::StringExecFns;
use crate::error::AppError;
use crate::error::ErrorKind;
use crate::text::chars_of;
use crate::text::contains_ci;
use crate::text::contains_term_ci;
use crate::text::trim_spec;
use crate::text::trim_str;
use crate::text::lemma_trim_len_le;

verus! {

/// A prompt contains one of the fixed forbidden terms, case-insensitively,
/// as a substring (not whole-word).
pub open spec fn contains_forbidden_term(text: Seq<char>) -> bool {
    contains_ci(text, "weapon"@) || contains_ci(text, "gun"@) || contains_ci(text, "bomb"@)
        || contains_ci(text, "violence"@)
}

/// The task-creation path accepts a prompt iff its raw character length is
/// within 10..=500 and it contains no forbidden term.
pub open spec fn task_prompt_ok(p: Seq<char>) -> bool {
    10 <= p.len() <= 500 && !contains_forbidden_term(p)
}

/// The record-creation path accepts a prompt iff its trimmed character
/// length is within 10..=500; content is not filtered on this path.
pub open spec fn create_prompt_ok(p: Seq<char>) -> bool {
    10 <= trim_spec(p).len() <= 500
}

/// Whether the text contains one of the forbidden terms `weapon`, `gun`,
/// `bomb`, `violence`, case-insensitively.
pub fn contains_forbidden(text: &Vec<char>) -> (r: bool)
    ensures
        r == contains_forbidden_term(text@),
{
    let w0 = chars_of("weapon");
    let w1 = chars_of("gun");
    let w2 = chars_of("bomb");
    let w3 = chars_of("violence");
    contains_term_ci(text, &w0) || contains_term_ci(text, &w1) || contains_term_ci(text, &w2)
        || contains_term_ci(text, &w3)
}

/// Content policy of the task-creation path: the raw prompt must have
/// 10..=500 characters and contain no forbidden term.
pub fn validate_prompt(prompt: &str) -> (r: Result<(), AppError>)
    ensures
        r is Ok <==> task_prompt_ok(prompt@),
        r matches Err(e) ==> e.kind == ErrorKind::Validation,
        prompt@.len() < 10 || prompt@.len() > 500 ==> (r matches Err(e) && e.message@
            == "prompt length must be 10-500"@),
        10 <= prompt@.len() <= 500 && contains_forbidden_term(prompt@) ==> (r matches Err(e)
            && e.message@ == "prompt contains forbidden content"@),
{
    let chars = chars_of(prompt);
    let length = chars.len();
    if length < 10 || length > 500 {
        return Err(AppError::bad_request(String::from_str("prompt length must be 10-500")));
    }
    if contains_forbidden(&chars) {
        return Err(AppError::bad_request(String::from_str("prompt contains forbidden content")));
    }
    Ok(())
}

/// Content policy of the record-creation path: the prompt is trimmed and its
/// trimmed length must be within 10..=500; the trimmed prompt is returned.
pub fn validate_create_prompt(prompt: &str) -> (r: Result<String, AppError>)
    ensures
        r is Ok <==> create_prompt_ok(prompt@),
        r matches Ok(t) ==> t@ == trim_spec(prompt@),
        r matches Err(e) ==> e.kind == ErrorKind::Validation,
        trim_spec(prompt@).len() == 0 ==> (r matches Err(e) && e.message@ == "prompt is required"@),
        0 < trim_spec(prompt@).len() < 10 || trim_spec(prompt@).len() > 500 ==> (r matches Err(e)
            && e.message@ == "prompt length must be 10-500"@),
{
    let trimmed = trim_str(prompt);
    let length = trimmed.as_str().unicode_len();
    if length == 0 {
        return Err(AppError::bad_request(String::from_str("prompt is required")));
    }
    if length < 10 || length > 500 {
        return Err(AppError::bad_request(String::from_str("prompt length must be 10-500")));
    }
    Ok(trimmed)
}

/// A prompt whose trimmed length exceeds the upper bound is rejected by both
/// paths: trimming never lengthens, so the raw prompt is over-long as well.
pub proof fn lemma_long_prompt_rejected_everywhere(p: Seq<char>)
    requires
        trim_spec(p).len() > 500,
    ensures
        !create_prompt_ok(p),
        !task_prompt_ok(p),
{
    lemma_trim_len_le(p);
}

/// A prompt with fewer than 10 raw characters is rejected by both paths:
/// its trimmed length can only be smaller still.
pub proof fn lemma_short_prompt_rejected_everywhere(p: Seq<char>)
    requires
        p.len() < 10,
    ensures
        !create_prompt_ok(p),
        !task_prompt_ok(p),
{
    lemma_trim_len_le(p);
}

/// A prompt containing any forbidden term is always rejected by the
/// task-creation path, whatever its length.
pub proof fn lemma_forbidden_term_rejected_by_task(p: Seq<char>)
    requires
        contains_forbidden_term(p),
    ensures
        !task_prompt_ok(p),
{
}

/// The record-creation path is indifferent to content: its acceptance
/// depends on the trimmed length alone, so the length rule applies
/// independently of any forbidden term.
pub proof fn lemma_create_checks_length_only(p: Seq<char>)
    ensures
        create_prompt_ok(p) <==> 10 <= trim_spec(p).len() <= 500,
{
}

} // verus!
