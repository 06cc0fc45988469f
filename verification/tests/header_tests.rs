use request_core::{assemble_headers, Auth, Body, Kv};
use serde_json::Value;

fn kv(key: &str, value: &str, enabled: bool) -> Kv {
    Kv { key: key.to_string(), value: value.to_string(), enabled }
}

#[test]
fn bearer_token_adds_authorization_header() {
    let r = assemble_headers(&vec![], &Auth::Bearer("xyz".to_string()), &Body::Empty);
    assert_eq!(r, vec![("Authorization".to_string(), "Bearer xyz".to_string())]);
}

#[test]
fn empty_bearer_token_adds_no_header() {
    let r = assemble_headers(&vec![], &Auth::Bearer("".to_string()), &Body::Empty);
    assert!(r.is_empty());
}

#[test]
fn no_auth_adds_no_header() {
    let r = assemble_headers(&vec![], &Auth::NoAuth, &Body::Empty);
    assert!(r.is_empty());
}

#[test]
fn absent_token_counts_as_empty() {
    let a = Auth::from_parts("bearer".to_string(), None);
    let r = assemble_headers(&vec![], &a, &Body::Empty);
    assert!(r.is_empty());
}

#[test]
fn unknown_auth_type_is_no_auth() {
    let a = Auth::from_parts("basic".to_string(), Some("xyz".to_string()));
    let r = assemble_headers(&vec![], &a, &Body::Empty);
    assert!(r.is_empty());
}

#[test]
fn disabled_and_empty_key_entries_are_excluded() {
    let headers = vec![
        kv("X-One", "1", true),
        kv("X-Two", "2", false),
        kv("", "3", true),
        kv("X-Four", "4", true),
    ];
    let r = assemble_headers(&headers, &Auth::NoAuth, &Body::Empty);
    assert_eq!(
        r,
        vec![
            ("X-One".to_string(), "1".to_string()),
            ("X-Four".to_string(), "4".to_string()),
        ],
    );
}

#[test]
fn duplicate_header_keys_all_stay_in_order() {
    let headers = vec![kv("X-Dup", "a", true), kv("X-Dup", "b", true)];
    let r = assemble_headers(&headers, &Auth::NoAuth, &Body::Empty);
    assert_eq!(
        r,
        vec![
            ("X-Dup".to_string(), "a".to_string()),
            ("X-Dup".to_string(), "b".to_string()),
        ],
    );
}

#[test]
fn json_body_forces_content_type() {
    let b = Body::from_tag("json".to_string(), Value::String("{}".to_string()));
    let r = assemble_headers(&vec![], &Auth::NoAuth, &b);
    assert_eq!(r, vec![("Content-Type".to_string(), "application/json".to_string())]);
}

#[test]
fn form_body_forces_form_content_type() {
    let b = Body::from_tag("form".to_string(), serde_json::from_str::<Value>("[]").unwrap());
    let r = assemble_headers(&vec![], &Auth::NoAuth, &b);
    assert_eq!(
        r,
        vec![("Content-Type".to_string(), "application/x-www-form-urlencoded".to_string())],
    );
}

#[test]
fn user_authorization_coexists_with_bearer() {
    let headers = vec![kv("Authorization", "Basic abc", true)];
    let r = assemble_headers(&headers, &Auth::Bearer("xyz".to_string()), &Body::Empty);
    assert_eq!(
        r,
        vec![
            ("Authorization".to_string(), "Basic abc".to_string()),
            ("Authorization".to_string(), "Bearer xyz".to_string()),
        ],
    );
}

#[test]
fn text_body_forces_no_content_type() {
    let b = Body::from_tag("text".to_string(), Value::String("raw".to_string()));
    let r = assemble_headers(&vec![], &Auth::NoAuth, &b);
    assert!(r.is_empty());
}
