use weapon_service::error::ErrorKind;
use weapon_service::model::TripoTaskRequest;
use weapon_service::proxy::RelayedResponse;
use weapon_service::proxy::UpstreamOutcome;
use weapon_service::proxy::create_task_request;
use weapon_service::proxy::relay_upstream;
use weapon_service::proxy::task_status_url;
use weapon_service::proxy::task_url;
use weapon_service::store::WeaponStore;

#[test]
fn task_payload_defaults() {
    let p = create_task_request(TripoTaskRequest {
        prompt: "a tiny ceramic teapot".to_string(),
        model_version: None,
        quality: None,
    })
    .unwrap();
    assert_eq!(p.task_type, "text_to_model");
    assert_eq!(p.prompt, "a tiny ceramic teapot");
    assert_eq!(p.model_version, "default");
    assert_eq!(p.quality, "medium");
}

#[test]
fn task_payload_keeps_explicit_values() {
    let p = create_task_request(TripoTaskRequest {
        prompt: "a tiny ceramic teapot".to_string(),
        model_version: Some("v2.5-20250123".to_string()),
        quality: Some("high".to_string()),
    })
    .unwrap();
    assert_eq!(p.model_version, "v2.5-20250123");
    assert_eq!(p.quality, "high");
}

#[test]
fn task_with_forbidden_prompt_rejected() {
    let e = create_task_request(TripoTaskRequest {
        prompt: "Design me a bomb launcher toy".to_string(),
        model_version: None,
        quality: None,
    })
    .unwrap_err();
    assert_eq!(e.kind, ErrorKind::Validation);
    assert_eq!(e.status_code(), 400);
    assert_eq!(e.message, "prompt contains forbidden content");
}

#[test]
fn urls_are_base_plus_path() {
    assert_eq!(task_url("https://api.example/v2/openapi"), "https://api.example/v2/openapi/task");
    assert_eq!(
        task_status_url("https://api.example/v2/openapi", "task-9"),
        "https://api.example/v2/openapi/task/task-9"
    );
}

#[test]
fn upstream_answer_relayed_verbatim() {
    let body = vec![1u8, 2, 3, 251];
    let r: RelayedResponse = relay_upstream(UpstreamOutcome::Answered {
        status: 418,
        content_type: Some(b"application/json".to_vec()),
        body: body.clone(),
    })
    .unwrap();
    assert_eq!(r.status, 418);
    assert_eq!(r.content_type, Some(b"application/json".to_vec()));
    assert_eq!(r.body, body);
}

#[test]
fn upstream_answer_without_content_type_relayed() {
    let r = relay_upstream(UpstreamOutcome::Answered {
        status: 200,
        content_type: None,
        body: Vec::new(),
    })
    .unwrap();
    assert_eq!(r.status, 200);
    assert_eq!(r.content_type, None);
    assert!(r.body.is_empty());
}

#[test]
fn transport_failure_surfaces_as_bad_gateway() {
    // A valid prompt passes the policy, the upstream cannot be reached, and
    // the failure surfaces as the distinguished upstream error; the weapon
    // store is never touched on this path.
    let store = WeaponStore::new();
    let payload = create_task_request(TripoTaskRequest {
        prompt: "a tiny ceramic teapot".to_string(),
        model_version: None,
        quality: None,
    });
    assert!(payload.is_ok());
    let e = relay_upstream(UpstreamOutcome::TransportFailure {
        detail: "error sending request: connection refused".to_string(),
    })
    .unwrap_err();
    assert_eq!(e.kind, ErrorKind::Upstream);
    assert_eq!(e.status_code(), 502);
    assert_eq!(e.message, "Upstream error: error sending request: connection refused");
    assert!(store.get_weapon(1).is_err());
}

#[test]
fn task_with_short_prompt_rejected() {
    let e = create_task_request(TripoTaskRequest {
        prompt: "teapot".to_string(),
        model_version: None,
        quality: None,
    })
    .unwrap_err();
    assert_eq!(e.kind, ErrorKind::Validation);
    assert_eq!(e.status_code(), 400);
    assert_eq!(e.message, "prompt length must be 10-500");
}
