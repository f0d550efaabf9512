use weapon_service::error::ErrorKind;
use weapon_service::model::CreateWeaponRequest;
use weapon_service::store::WeaponStore;

fn plain_request(prompt: &str) -> CreateWeaponRequest {
    CreateWeaponRequest {
        owner_id: None,
        prompt: prompt.to_string(),
        model_url: None,
        model_path: None,
        bug_level: None,
        pitch_text: None,
        sale_success: None,
        tripo_task_id: None,
        metadata: None,
        share: None,
    }
}

fn full_request() -> CreateWeaponRequest {
    CreateWeaponRequest {
        owner_id: Some("owner-7".to_string()),
        prompt: "A fantastic laser pitch idea".to_string(),
        model_url: Some("https://cdn.example/model.glb".to_string()),
        model_path: Some("/internal/models/7.glb".to_string()),
        bug_level: Some(2.5f32.to_bits()),
        pitch_text: Some("buy this".to_string()),
        sale_success: Some(true),
        tripo_task_id: Some("task-123".to_string()),
        metadata: Some(serde_json::Value::String("notes".to_string())),
        share: None,
    }
}

#[test]
fn create_with_share_then_get_shared() {
    let mut store = WeaponStore::new();
    let mut req = plain_request("A fantastic laser pitch idea");
    req.share = Some(true);
    let w = store.create_weapon(req).unwrap();
    let share_id = w.share_id.expect("share_id must be set");
    assert!(w.shared_at.is_some());
    let s = store.get_shared_weapon(share_id).unwrap();
    assert_eq!(s.prompt, "A fantastic laser pitch idea");
    assert_eq!(s.id, w.id);
}

#[test]
fn create_without_share_leaves_share_fields_null() {
    let mut store = WeaponStore::new();
    let w = store.create_weapon(plain_request("A fantastic laser pitch idea")).unwrap();
    assert!(w.share_id.is_none());
    assert!(w.shared_at.is_none());
    // share set to false behaves like absent
    let mut req = plain_request("another decent prompt here");
    req.share = Some(false);
    let w2 = store.create_weapon(req).unwrap();
    assert!(w2.share_id.is_none());
    assert!(w2.shared_at.is_none());
}

#[test]
fn create_short_prompt_rejected() {
    let mut store = WeaponStore::new();
    let e = store.create_weapon(plain_request("short")).unwrap_err();
    assert_eq!(e.kind, ErrorKind::Validation);
    assert_eq!(e.status_code(), 400);
    assert_eq!(e.message, "prompt length must be 10-500");
}

#[test]
fn create_stores_trimmed_prompt() {
    let mut store = WeaponStore::new();
    let w = store.create_weapon(plain_request("   hello there   ")).unwrap();
    assert_eq!(w.prompt, "hello there");
    let got = store.get_weapon(w.id).unwrap();
    assert_eq!(got.prompt, "hello there");
}

#[test]
fn get_unused_id_not_found() {
    let mut store = WeaponStore::new();
    store.create_weapon(plain_request("A fantastic laser pitch idea")).unwrap();
    let e = store.get_weapon(424242).unwrap_err();
    assert_eq!(e.kind, ErrorKind::NotFound);
    assert_eq!(e.status_code(), 404);
    assert_eq!(e.message, "weapon not found");
}

#[test]
fn share_twice_is_idempotent() {
    let mut store = WeaponStore::new();
    let w = store.create_weapon(plain_request("A fantastic laser pitch idea")).unwrap();
    let first = store.share_weapon(w.id).unwrap();
    let second = store.share_weapon(w.id).unwrap();
    assert!(first.share_id.is_some());
    assert_eq!(first.share_id, second.share_id);
    assert_eq!(first.shared_at, second.shared_at);
}

#[test]
fn share_unknown_id_not_found() {
    let mut store = WeaponStore::new();
    let e = store.share_weapon(99).unwrap_err();
    assert_eq!(e.kind, ErrorKind::NotFound);
    assert_eq!(e.status_code(), 404);
    assert_eq!(e.message, "weapon not found");
}

#[test]
fn share_with_colliding_share_id_is_store_error() {
    let mut store = WeaponStore::new();
    let a = store.create_weapon(plain_request("A fantastic laser pitch idea")).unwrap();
    let b = store.create_weapon(plain_request("another decent prompt here")).unwrap();
    store.share_with(a.id, 42, 100).unwrap();
    let e = store.share_with(b.id, 42, 200).unwrap_err();
    assert_eq!(e.kind, ErrorKind::Store);
    assert_eq!(e.status_code(), 500);
    assert!(e.message.starts_with("Database error: "));
    // the second record is still unshared and can be shared under another id
    let shared = store.share_with(b.id, 43, 300).unwrap();
    assert_eq!(shared.share_id, Some(43));
}

#[test]
fn shared_projection_round_trip() {
    let mut store = WeaponStore::new();
    let w = store.create_weapon(full_request()).unwrap();
    let shared = store.share_weapon(w.id).unwrap();
    let s = store.get_shared_weapon(shared.share_id.unwrap()).unwrap();
    assert_eq!(s.id, shared.id);
    assert_eq!(s.prompt, shared.prompt);
    assert_eq!(s.model_url, shared.model_url);
    assert_eq!(s.bug_level, shared.bug_level);
    assert_eq!(s.pitch_text, shared.pitch_text);
    assert_eq!(s.sale_success, shared.sale_success);
    assert_eq!(s.metadata, shared.metadata);
    assert_eq!(s.created_at, shared.created_at);
    assert_eq!(s.shared_at, shared.shared_at);
    // owner_id, model_path and tripo_task_id have no counterpart in the
    // projection type, so they cannot leak through the share surface.
    assert_eq!(f32::from_bits(s.bug_level.unwrap()), 2.5f32);
}

#[test]
fn get_shared_never_returns_unshared_records() {
    let mut store = WeaponStore::new();
    let w = store.create_weapon(plain_request("A fantastic laser pitch idea")).unwrap();
    // Probing with the record id (not a share id) finds nothing.
    let e = store.get_shared_weapon(w.id).unwrap_err();
    assert_eq!(e.kind, ErrorKind::NotFound);
    assert_eq!(e.status_code(), 404);
    assert_eq!(e.message, "share not found");
}

#[test]
fn metadata_passes_through_verbatim() {
    let mut store = WeaponStore::new();
    let doc: serde_json::Value =
        serde_json::from_str("{\"color\":\"red\",\"sides\":3}").unwrap();
    let mut req = plain_request("A fantastic laser pitch idea");
    req.metadata = Some(doc.clone());
    let w = store.create_weapon(req).unwrap();
    assert_eq!(w.metadata, Some(doc.clone()));
    let got = store.get_weapon(w.id).unwrap();
    assert_eq!(got.metadata, Some(doc));
}

#[test]
fn share_with_explicit_candidate_is_idempotent() {
    let mut store = WeaponStore::new();
    let w = store.create_weapon(plain_request("A fantastic laser pitch idea")).unwrap();
    let first = store.share_with(w.id, 7, 50).unwrap();
    assert_eq!(first.share_id, Some(7));
    assert_eq!(first.shared_at, Some(50));
    // A later candidate identifier and timestamp change nothing.
    let second = store.share_with(w.id, 9, 99).unwrap();
    assert_eq!(second.share_id, Some(7));
    assert_eq!(second.shared_at, Some(50));
}

#[test]
fn sharing_a_record_shared_at_creation_changes_nothing() {
    let mut store = WeaponStore::new();
    let mut req = plain_request("A fantastic laser pitch idea");
    req.share = Some(true);
    let w = store.create_weapon(req).unwrap();
    let shared = store.share_weapon(w.id).unwrap();
    assert_eq!(shared.share_id, w.share_id);
    assert_eq!(shared.shared_at, w.shared_at);
}
