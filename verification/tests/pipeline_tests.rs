use request_core::{build_url, prepare, Auth, Body, Kv, RequestError, RequestPayload};
use serde_json::Value;

fn kv(key: &str, value: &str, enabled: bool) -> Kv {
    Kv { key: key.to_string(), value: value.to_string(), enabled }
}

fn payload() -> RequestPayload {
    RequestPayload {
        method: "post".to_string(),
        url: "https://example.com/api".to_string(),
        auth: Auth::Bearer("xyz".to_string()),
        headers: vec![kv("X-One", "1", true), kv("X-Skip", "2", false)],
        query: vec![kv("q", "7", true), kv("", "8", true)],
        body: Body::from_tag("json".to_string(), Value::String("{\"a\":1}".to_string())),
        timeout_ms: None,
    }
}

#[test]
fn prepare_assembles_the_whole_request() {
    let p = prepare(&payload()).unwrap();
    assert_eq!(p.method.text, "POST");
    assert!(!p.method.get);
    assert_eq!(p.url.as_str(), "https://example.com/api?q=7");
    assert_eq!(
        p.headers,
        vec![
            ("X-One".to_string(), "1".to_string()),
            ("Authorization".to_string(), "Bearer xyz".to_string()),
            ("Content-Type".to_string(), "application/json".to_string()),
        ],
    );
    assert_eq!(p.body, Some("{\"a\":1}".to_string()));
    assert_eq!(p.timeout_ms, 15000);
}

#[test]
fn explicit_timeout_is_kept() {
    let mut pl = payload();
    pl.timeout_ms = Some(500);
    let p = prepare(&pl).unwrap();
    assert_eq!(p.timeout_ms, 500);
}

#[test]
fn get_method_still_forces_content_type_but_no_body() {
    let mut pl = payload();
    pl.method = "GET".to_string();
    let p = prepare(&pl).unwrap();
    assert!(p.method.get);
    assert_eq!(p.body, None);
    assert!(p.headers.contains(&("Content-Type".to_string(), "application/json".to_string())));
}

#[test]
fn invalid_method_is_reported_before_the_url() {
    let mut pl = payload();
    pl.method = "GE T".to_string();
    pl.url = "not a url".to_string();
    assert!(matches!(prepare(&pl), Err(RequestError::InvalidMethod)));
}

#[test]
fn invalid_url_fails_the_call_itself() {
    let mut pl = payload();
    pl.url = "not a url".to_string();
    assert!(matches!(prepare(&pl), Err(RequestError::InvalidUrl(_))));
}

#[test]
fn query_pairs_append_in_order_with_duplicates() {
    let query = vec![kv("a", "1", true), kv("a", "2", true), kv("b", "x y", true)];
    let u = build_url("https://example.com/p?seed=0", &query).unwrap();
    assert_eq!(u.as_str(), "https://example.com/p?seed=0&a=1&a=2&b=x+y");
}

#[test]
fn invalid_url_is_a_distinct_failure_from_an_unreachable_host() {
    // An unparsable URL fails the call itself; a well-formed URL for an
    // unreachable host passes validation, and only the transport can fail
    // later, inside a normally-returned result.
    assert!(matches!(
        build_url("http//missing-scheme", &vec![]),
        Err(RequestError::InvalidUrl(_)),
    ));
    assert!(build_url("http://192.0.2.1:9/", &vec![]).is_ok());
}
