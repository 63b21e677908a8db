use xray_bridge::transport::{
    bridge_script_path, decode_bridge_output, interpret_output, node_binary, spawn_failure_message,
};

#[test]
fn status_scenario_returns_data() {
    let r = decode_bridge_output("{\"ok\":true,\"data\":{\"connected\":false}}", "");
    let expected: serde_json::Value = serde_json::from_str("{\"connected\":false}").unwrap();
    assert_eq!(r, Ok(Some(expected)));
}

#[test]
fn data_passes_through_unchanged() {
    let text = "{\"ok\":true,\"data\":[1,\"two\",{\"three\":3}]}";
    let r = decode_bridge_output(text, "ignored noise");
    let expected: serde_json::Value = serde_json::from_str("[1,\"two\",{\"three\":3}]").unwrap();
    assert_eq!(r, Ok(Some(expected)));
}

#[test]
fn absent_data_is_explicit_null() {
    assert_eq!(decode_bridge_output("{\"ok\":true}", ""), Ok(None));
    assert_eq!(decode_bridge_output("{\"ok\":true,\"data\":null}", ""), Ok(None));
}

#[test]
fn declared_error_wins_over_stderr() {
    let r = decode_bridge_output("{\"ok\":false,\"error\":\"invalid token\"}", "other noise");
    assert_eq!(r, Err("invalid token".to_string()));
}

#[test]
fn error_falls_back_to_stderr() {
    let r = decode_bridge_output("{\"ok\":false}", " backend crashed ");
    assert_eq!(r, Err("backend crashed".to_string()));
}

#[test]
fn error_falls_back_to_sentinel() {
    assert_eq!(decode_bridge_output("{\"ok\":false}", ""), Err("Unknown bridge error".to_string()));
    assert_eq!(
        decode_bridge_output("{\"ok\":false,\"error\":null}", ""),
        Err("Unknown bridge error".to_string())
    );
}

#[test]
fn empty_streams_give_sentinel() {
    assert_eq!(decode_bridge_output("", ""), Err("Bridge returned empty response".to_string()));
    assert_eq!(
        decode_bridge_output(" \t\n", "   "),
        Err("Bridge returned empty response".to_string())
    );
}

#[test]
fn empty_stdout_uses_trimmed_stderr() {
    assert_eq!(decode_bridge_output("", "auth expired"), Err("auth expired".to_string()));
    assert_eq!(decode_bridge_output("  \n", "  auth expired \n"), Err("auth expired".to_string()));
}

#[test]
fn malformed_json_is_flagged() {
    let msg = decode_bridge_output("not json", "").unwrap_err();
    assert!(msg.starts_with("Invalid bridge JSON: "));
    let msg = decode_bridge_output("{\"ok\":true", "noise").unwrap_err();
    assert!(msg.starts_with("Invalid bridge JSON: "));
}

#[test]
fn malformed_json_carries_parse_detail() {
    let detail = serde_json::from_str::<serde_json::Value>("not json").unwrap_err();
    let expected = format!("Invalid bridge JSON: {}", detail);
    assert_eq!(decode_bridge_output("not json", ""), Err(expected));
}

#[test]
fn shape_failure_carries_detail() {
    assert_eq!(
        decode_bridge_output("{}", "").unwrap_err(),
        "Invalid bridge JSON: missing or non-boolean field `ok`"
    );
    assert_eq!(
        decode_bridge_output("{\"ok\":false,\"error\":5}", "").unwrap_err(),
        "Invalid bridge JSON: non-string field `error`"
    );
}

#[test]
fn raw_text_is_never_data() {
    assert!(decode_bridge_output("plain words", "").is_err());
}

#[test]
fn envelope_shape_is_enforced() {
    assert!(decode_bridge_output("{}", "").unwrap_err().starts_with("Invalid bridge JSON: "));
    assert!(decode_bridge_output("{\"ok\":1}", "").unwrap_err().starts_with("Invalid bridge JSON: "));
    assert!(
        decode_bridge_output("{\"ok\":false,\"error\":5}", "")
            .unwrap_err()
            .starts_with("Invalid bridge JSON: ")
    );
    assert!(decode_bridge_output("true", "").unwrap_err().starts_with("Invalid bridge JSON: "));
}

#[test]
fn envelope_whitespace_is_tolerated() {
    let r = decode_bridge_output("  {\"ok\":true,\"data\":7} \n", "");
    let expected: serde_json::Value = serde_json::from_str("7").unwrap();
    assert_eq!(r, Ok(Some(expected)));
}

#[test]
fn unknown_members_are_ignored() {
    let r = decode_bridge_output("{\"ok\":true,\"data\":2,\"extra\":[true]}", "");
    let expected: serde_json::Value = serde_json::from_str("2").unwrap();
    assert_eq!(r, Ok(Some(expected)));
}

#[test]
fn interpret_output_decodes_utf8() {
    let r = interpret_output("{\"ok\":true,\"data\":\"\u{e9}\"}".as_bytes().to_vec(), Vec::new());
    let expected: serde_json::Value = serde_json::from_str("\"\u{e9}\"").unwrap();
    assert_eq!(r, Ok(Some(expected)));
}

#[test]
fn interpret_output_rejects_invalid_utf8_stdout() {
    let expected = String::from_utf8(vec![0xff, 0xfe]).unwrap_err().to_string();
    assert_eq!(interpret_output(vec![0xff, 0xfe], Vec::new()), Err(expected));
}

#[test]
fn interpret_output_decodes_stderr_lossily() {
    let r = interpret_output(Vec::new(), vec![b'x', 0xff]);
    assert_eq!(r, Err("x\u{fffd}".to_string()));
}

#[test]
fn node_binary_default_and_override() {
    assert_eq!(node_binary(None), "node");
    assert_eq!(node_binary(Some("node18".to_string())), "node18");
}

#[test]
fn script_path_is_installation_relative() {
    assert_eq!(
        bridge_script_path("/opt/app/src-tauri"),
        "/opt/app/src-tauri/../backend/desktop-bridge.cjs"
    );
}

#[test]
fn spawn_failure_is_prefixed() {
    assert_eq!(spawn_failure_message("No such file"), "Failed to run bridge: No such file");
}
