use response::envelope::{envelope_to_json, error, success, Status};
use response::json::Json;

#[test]
fn success_simple_object_scenario() {
    let payload = Json::Obj(vec![(
        "message".to_string(),
        Json::Str("Everything is fine!".to_string()),
    )]);
    let (code, env) = success(payload);
    assert_eq!(code, 200);
    assert_eq!(
        envelope_to_json(&env),
        "{\"status\":\"success\",\"data\":{\"message\":\"Everything is fine!\"}}"
    );
}

#[test]
fn error_scenario() {
    let (code, env) = error(400, "Something went wrong.".to_string());
    assert_eq!(code, 400);
    assert_eq!(
        envelope_to_json(&env),
        "{\"status\":\"error\",\"message\":\"Something went wrong.\"}"
    );
}

#[test]
fn success_empty_array_scenario() {
    let (code, env) = success(Json::Arr(vec![]));
    assert_eq!(code, 200);
    assert_eq!(envelope_to_json(&env), "{\"status\":\"success\",\"data\":[]}");
}

#[test]
fn success_always_returns_200() {
    let (code, _) = success(Json::Null);
    assert_eq!(code, 200);
    let (code, _) = success(Json::Str("anything".to_string()));
    assert_eq!(code, 200);
    let (code, _) = success(Json::Int(-5));
    assert_eq!(code, 200);
}

#[test]
fn error_code_passes_through_unchanged() {
    for code in [100u16, 200, 404, 418, 500, 599, 65535] {
        let (got, env) = error(code, "m".to_string());
        assert_eq!(got, code);
        assert!(matches!(env.status, Status::Error));
    }
}

#[test]
fn success_envelope_shape() {
    let (_, env) = success(Json::Bool(true));
    assert!(matches!(env.status, Status::Success));
    assert!(env.data.is_some());
    assert!(env.message.is_none());
}

#[test]
fn error_envelope_shape() {
    let (_, env) = error(500, "boom".to_string());
    assert!(matches!(env.status, Status::Error));
    assert!(env.data.is_none());
    assert!(env.message.is_some());
}

#[test]
fn absent_data_is_omitted_not_null() {
    let (_, env) = error(404, "missing".to_string());
    let body = envelope_to_json(&env);
    assert!(!body.contains("data"));
    assert!(!body.contains("null"));
    assert_eq!(body, "{\"status\":\"error\",\"message\":\"missing\"}");
}

#[test]
fn absent_message_is_omitted() {
    let (_, env) = success(Json::Int(1));
    let body = envelope_to_json(&env);
    assert!(!body.contains("message"));
    assert_eq!(body, "{\"status\":\"success\",\"data\":1}");
}

#[test]
fn present_null_payload_is_kept() {
    // A payload that *is* JSON null is a present value, not an absent member.
    let (_, env) = success(Json::Null);
    assert_eq!(envelope_to_json(&env), "{\"status\":\"success\",\"data\":null}");
}

#[test]
fn success_build_is_idempotent() {
    let make = || Json::Obj(vec![("k".to_string(), Json::Arr(vec![Json::Int(3)]))]);
    let (c1, e1) = success(make());
    let (c2, e2) = success(make());
    assert_eq!(c1, c2);
    assert_eq!(e1.status, e2.status);
    assert_eq!(envelope_to_json(&e1), envelope_to_json(&e2));
}

#[test]
fn error_build_is_idempotent() {
    let (c1, e1) = error(503, "try again".to_string());
    let (c2, e2) = error(503, "try again".to_string());
    assert_eq!(c1, c2);
    assert_eq!(e1.status, e2.status);
    assert_eq!(envelope_to_json(&e1), envelope_to_json(&e2));
}

#[test]
fn error_message_is_escaped() {
    let (_, env) = error(500, "a\"b\\c\nd".to_string());
    assert_eq!(
        envelope_to_json(&env),
        "{\"status\":\"error\",\"message\":\"a\\\"b\\\\c\\nd\"}"
    );
}

#[test]
fn error_empty_message() {
    let (_, env) = error(400, String::new());
    assert_eq!(envelope_to_json(&env), "{\"status\":\"error\",\"message\":\"\"}");
}
