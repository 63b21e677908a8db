use xray_bridge::json::{to_json_text, JsonValue};

#[test]
fn scalars_render() {
    assert_eq!(to_json_text(&JsonValue::Null), "null");
    assert_eq!(to_json_text(&JsonValue::Bool(true)), "true");
    assert_eq!(to_json_text(&JsonValue::Bool(false)), "false");
    assert_eq!(to_json_text(&JsonValue::Num("3.25".to_string())), "3.25");
    assert_eq!(to_json_text(&JsonValue::Str("plain".to_string())), "\"plain\"");
}

#[test]
fn strings_are_escaped() {
    assert_eq!(to_json_text(&JsonValue::Str("a\"b\\c".to_string())), "\"a\\\"b\\\\c\"");
    assert_eq!(
        to_json_text(&JsonValue::Str("l1\nl2\tt\r\u{8}\u{c}".to_string())),
        "\"l1\\nl2\\tt\\r\\b\\f\""
    );
    assert_eq!(to_json_text(&JsonValue::Str("\u{1}\u{1f}".to_string())), "\"\\u0001\\u001f\"");
    assert_eq!(
        to_json_text(&JsonValue::Str("h\u{e9}llo \u{2603}".to_string())),
        "\"h\u{e9}llo \u{2603}\""
    );
}

#[test]
fn escaping_matches_reference_encoder() {
    let s = "q\" b\\ \n\t\r \u{8}\u{c}\u{1}\u{1f} \u{e9}\u{2603}";
    let mine = to_json_text(&JsonValue::Str(s.to_string()));
    let reference = serde_json::to_string(&serde_json::Value::String(s.to_string())).unwrap();
    assert_eq!(mine, reference);
}

#[test]
fn arrays_render() {
    let v = JsonValue::Arr(vec![
        JsonValue::Null,
        JsonValue::Bool(false),
        JsonValue::Str("x".to_string()),
        JsonValue::Arr(vec![]),
    ]);
    assert_eq!(to_json_text(&v), "[null,false,\"x\",[]]");
}

#[test]
fn objects_render() {
    let o = JsonValue::Obj(vec![
        ("a".to_string(), JsonValue::Num("1".to_string())),
        ("b".to_string(), JsonValue::Obj(vec![])),
    ]);
    assert_eq!(to_json_text(&o), "{\"a\":1,\"b\":{}}");
}

#[test]
fn rendered_text_parses_back() {
    let o = JsonValue::Obj(vec![("k e\"y".to_string(), JsonValue::Str("v\n".to_string()))]);
    let text = to_json_text(&o);
    let parsed: serde_json::Value = serde_json::from_str(&text).unwrap();
    assert_eq!(parsed.get("k e\"y").unwrap(), &serde_json::Value::String("v\n".to_string()));
}
