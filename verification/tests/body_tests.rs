use request_core::{encode_body, Body, RequestError};
use serde_json::Value;

fn json_body(text: &str) -> Body {
    Body::from_tag("json".to_string(), serde_json::from_str::<Value>(text).unwrap())
}

#[test]
fn json_string_value_is_sent_verbatim() {
    let b = Body::from_tag("json".to_string(), Value::String("{\"a\":1}".to_string()));
    let r = encode_body(false, &b).unwrap();
    assert_eq!(r, Some("{\"a\":1}".to_string()));
}

#[test]
fn json_structured_value_is_serialized_compactly() {
    let b = json_body("{\"a\":1}");
    let r = encode_body(false, &b).unwrap();
    assert_eq!(r, Some("{\"a\":1}".to_string()));
}

#[test]
fn get_attaches_no_body() {
    let b = Body::from_tag("json".to_string(), Value::String("{\"a\":1}".to_string()));
    let r = encode_body(true, &b).unwrap();
    assert_eq!(r, None);
}

#[test]
fn none_body_attaches_nothing() {
    let b = Body::from_tag("none".to_string(), Value::String("ignored".to_string()));
    let r = encode_body(false, &b).unwrap();
    assert_eq!(r, None);
}

#[test]
fn form_entries_encode_only_enabled_non_empty_keys() {
    let b = Body::from_tag(
        "form".to_string(),
        serde_json::from_str::<Value>(
            "[{\"key\":\"a\",\"value\":\"1\",\"enabled\":true},{\"key\":\"b\",\"value\":\"2\",\"enabled\":false}]",
        )
        .unwrap(),
    );
    let r = encode_body(false, &b).unwrap();
    assert_eq!(r, Some("a=1".to_string()));
}

#[test]
fn form_encoding_escapes_reserved_characters() {
    let b = Body::from_tag(
        "form".to_string(),
        serde_json::from_str::<Value>(
            "[{\"key\":\"a b\",\"value\":\"c&d\",\"enabled\":true},{\"key\":\"e\",\"value\":\"f\",\"enabled\":true}]",
        )
        .unwrap(),
    );
    let r = encode_body(false, &b).unwrap();
    assert_eq!(r, Some("a+b=c%26d&e=f".to_string()));
}

#[test]
fn form_entry_with_missing_fields_uses_defaults() {
    let b = Body::from_tag(
        "form".to_string(),
        serde_json::from_str::<Value>("[{\"key\":\"a\",\"value\":\"1\"}]").unwrap(),
    );
    let r = encode_body(false, &b).unwrap();
    assert_eq!(r, Some("".to_string()));
}

#[test]
fn form_body_that_is_no_array_is_rejected() {
    let b = Body::from_tag("form".to_string(), Value::String("nope".to_string()));
    let r = encode_body(false, &b);
    assert!(matches!(r, Err(RequestError::InvalidFormBody)));
}

#[test]
fn text_body_passes_string_through() {
    let b = Body::from_tag("text".to_string(), Value::String("hello world".to_string()));
    let r = encode_body(false, &b).unwrap();
    assert_eq!(r, Some("hello world".to_string()));
}

#[test]
fn text_body_of_non_string_value_is_empty() {
    let b = Body::from_tag("text".to_string(), serde_json::from_str::<Value>("[1,2]").unwrap());
    let r = encode_body(false, &b).unwrap();
    assert_eq!(r, Some("".to_string()));
}

#[test]
fn unknown_body_type_is_treated_as_text() {
    let b = Body::from_tag("mystery".to_string(), Value::String("raw".to_string()));
    let r = encode_body(false, &b).unwrap();
    assert_eq!(r, Some("raw".to_string()));
}

#[test]
fn form_entry_with_non_string_fields_uses_defaults() {
    let b = Body::from_tag(
        "form".to_string(),
        serde_json::from_str::<Value>(
            "[{\"key\":7,\"value\":\"x\",\"enabled\":true},{\"key\":\"k\",\"value\":\"v\",\"enabled\":\"yes\"}]",
        )
        .unwrap(),
    );
    let r = encode_body(false, &b).unwrap();
    assert_eq!(r, Some("".to_string()));
}

#[test]
fn structured_json_body_never_fails() {
    let b = json_body("[1,{\"deep\":[true,null,\"s\"]},2.5]");
    let r = encode_body(false, &b).unwrap();
    assert_eq!(r, Some("[1,{\"deep\":[true,null,\"s\"]},2.5]".to_string()));
}
