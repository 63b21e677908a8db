use xray_bridge::envelope::{classify_envelope, Envelope};

#[test]
fn classify_success_keeps_data() {
    let v: serde_json::Value = serde_json::from_str("{\"connected\":false}").unwrap();
    let env = Envelope { ok: true, data: Some(v.clone()), error: None };
    assert_eq!(classify_envelope(env, "noise on stderr"), Ok(Some(v)));
}

#[test]
fn classify_success_without_data() {
    let env = Envelope { ok: true, data: None, error: Some("ignored".to_string()) };
    assert_eq!(classify_envelope(env, ""), Ok(None));
}

#[test]
fn classify_failure_prefers_error_field() {
    let env = Envelope { ok: false, data: None, error: Some("invalid token".to_string()) };
    assert_eq!(classify_envelope(env, "stderr text"), Err("invalid token".to_string()));
}

#[test]
fn classify_failure_falls_back_to_stderr() {
    let env = Envelope { ok: false, data: None, error: None };
    assert_eq!(classify_envelope(env, "proxy died"), Err("proxy died".to_string()));
}

#[test]
fn classify_failure_falls_back_to_sentinel() {
    let env = Envelope { ok: false, data: None, error: None };
    assert_eq!(classify_envelope(env, ""), Err("Unknown bridge error".to_string()));
}
