//! The data model: the weapon record, its public shared projection, and the
//! request shapes the boundary hands in.
//!
//! Identifiers are 128-bit UUID values, timestamps are microseconds since
//! the Unix epoch, and the optional score travels as the raw bit pattern of
//! a 32-bit floating-point value; the boundary converts at the edge.

use vstd::prelude::*;

verus! {

/// The canonical persisted entity.
#[derive(Debug)]
pub struct Weapon {
    /// Server-generated unique identifier, immutable.
    pub id: u128,
    /// Opaque client-supplied owner string; no referential integrity.
    pub owner_id: Option<String>,
    /// Required text, stored trimmed, 10..=500 characters.
    pub prompt: String,
    pub model_url: Option<String>,
    pub model_path: Option<String>,
    /// Raw bit pattern of the optional 32-bit floating-point score.
    pub bug_level: Option<u32>,
    pub pitch_text: Option<String>,
    pub sale_success: Option<bool>,
    /// Opaque correlation to an upstream generation task.
    pub tripo_task_id: Option<String>,
    /// Open-schema document, passed through unvalidated.
    pub metadata: Option<serde_json::Value>,
    /// Present iff the record has ever been shared; never cleared or changed.
    pub share_id: Option<u128>,
    /// Set once at insertion, server clock.
    pub created_at: i64,
    /// Set once when the record becomes shared.
    pub shared_at: Option<i64>,
}

impl Weapon {
    /// Entity invariant: the stored prompt has 10..=500 characters, and the
    /// share identifier and share timestamp are both absent or both present.
    pub open spec fn wf(self) -> bool {
        &&& 10 <= self.prompt@.len() <= 500
        &&& self.share_id is Some <==> self.shared_at is Some
    }
}

impl Clone for Weapon {
    fn clone(&self) -> (r: Weapon)
        ensures
            r == *self,
    {
        Weapon {
            id: self.id,
            owner_id: clone_opt_string(&self.owner_id),
            prompt: self.prompt.clone(),
            model_url: clone_opt_string(&self.model_url),
            model_path: clone_opt_string(&self.model_path),
            bug_level: self.bug_level,
            pitch_text: clone_opt_string(&self.pitch_text),
            sale_success: self.sale_success,
            tripo_task_id: clone_opt_string(&self.tripo_task_id),
            metadata: clone_opt_value(&self.metadata),
            share_id: self.share_id,
            created_at: self.created_at,
            shared_at: self.shared_at,
        }
    }
}

/// The read-only public projection of a shared record. It deliberately has
/// no `owner_id`, `model_path` or `tripo_task_id` field, so those can never
/// leak through the public share surface.
#[derive(Debug)]
pub struct SharedWeapon {
    pub id: u128,
    pub prompt: String,
    pub model_url: Option<String>,
    /// Raw bit pattern of the optional 32-bit floating-point score.
    pub bug_level: Option<u32>,
    pub pitch_text: Option<String>,
    pub sale_success: Option<bool>,
    pub metadata: Option<serde_json::Value>,
    pub created_at: i64,
    pub shared_at: Option<i64>,
}

/// The projection of a record onto its public shared view.
pub open spec fn shared_view(w: Weapon) -> SharedWeapon {
    SharedWeapon {
        id: w.id,
        prompt: w.prompt,
        model_url: w.model_url,
        bug_level: w.bug_level,
        pitch_text: w.pitch_text,
        sale_success: w.sale_success,
        metadata: w.metadata,
        created_at: w.created_at,
        shared_at: w.shared_at,
    }
}

/// Builds the public shared projection of a record.
pub fn to_shared(w: &Weapon) -> (s: SharedWeapon)
    ensures
        s == shared_view(*w),
{
    SharedWeapon {
        id: w.id,
        prompt: w.prompt.clone(),
        model_url: clone_opt_string(&w.model_url),
        bug_level: w.bug_level,
        pitch_text: clone_opt_string(&w.pitch_text),
        sale_success: w.sale_success,
        metadata: clone_opt_value(&w.metadata),
        created_at: w.created_at,
        shared_at: w.shared_at,
    }
}

/// The shared projection keeps every public field of the record unchanged;
/// the private fields have no counterpart in the projection at all.
pub proof fn lemma_shared_view_fields(w: Weapon)
    ensures
        shared_view(w).id == w.id,
        shared_view(w).prompt == w.prompt,
        shared_view(w).model_url == w.model_url,
        shared_view(w).bug_level == w.bug_level,
        shared_view(w).pitch_text == w.pitch_text,
        shared_view(w).sale_success == w.sale_success,
        shared_view(w).metadata == w.metadata,
        shared_view(w).created_at == w.created_at,
        shared_view(w).shared_at == w.shared_at,
{
}

fn clone_opt_string(o: &Option<String>) -> (r: Option<String>)
    ensures
        r == *o,
{
    match o {
        Some(s) => Some(s.clone()),
        None => None,
    }
}

fn clone_opt_value(o: &Option<serde_json::Value>) -> (r: Option<serde_json::Value>)
    ensures
        r == *o,
{
    match o {
        Some(v) => Some(v.clone()),
        None => None,
    }
}

/// The body of a record-creation request: the prompt, every optional record
/// field, and an optional request to share immediately.
pub struct CreateWeaponRequest {
    pub owner_id: Option<String>,
    pub prompt: String,
    pub model_url: Option<String>,
    pub model_path: Option<String>,
    /// Raw bit pattern of the optional 32-bit floating-point score.
    pub bug_level: Option<u32>,
    pub pitch_text: Option<String>,
    pub sale_success: Option<bool>,
    pub tripo_task_id: Option<String>,
    pub metadata: Option<serde_json::Value>,
    /// Share at creation; defaults to false.
    pub share: Option<bool>,
}

/// The body of a share request. The share operation ignores it; it is kept
/// for boundary compatibility.
pub struct ShareWeaponRequest {
    pub share: Option<bool>,
}

/// The body of an upstream task-creation request.
pub struct TripoTaskRequest {
    pub prompt: String,
    pub model_version: Option<String>,
    pub quality: Option<String>,
}

} // verus!
