use request_core::{canonical_method, RequestError};

#[test]
fn lowercase_get_is_canonicalized() {
    let m = canonical_method("get").unwrap();
    assert_eq!(m.text, "GET");
    assert!(m.get);
}

#[test]
fn uppercase_get_stays() {
    let m = canonical_method("GET").unwrap();
    assert_eq!(m.text, "GET");
    assert!(m.get);
}

#[test]
fn post_is_not_get() {
    let m = canonical_method("post").unwrap();
    assert_eq!(m.text, "POST");
    assert!(!m.get);
}

#[test]
fn custom_token_method_is_accepted() {
    let m = canonical_method("purge-cache").unwrap();
    assert_eq!(m.text, "PURGE-CACHE");
    assert!(!m.get);
}

#[test]
fn method_with_space_is_rejected() {
    let r = canonical_method("GE T");
    assert!(matches!(r, Err(RequestError::InvalidMethod)));
}

#[test]
fn empty_method_is_rejected() {
    let r = canonical_method("");
    assert!(matches!(r, Err(RequestError::InvalidMethod)));
}

#[test]
fn non_ascii_method_is_rejected() {
    let r = canonical_method("GÉT");
    assert!(matches!(r, Err(RequestError::InvalidMethod)));
}

#[test]
fn every_error_has_a_message() {
    assert!(!RequestError::InvalidMethod.message().is_empty());
    assert!(RequestError::InvalidUrl("empty host".to_string())
        .message()
        .contains("empty host"));
    assert!(!RequestError::InvalidFormBody.message().is_empty());
    assert!(!RequestError::Serialization("oops".to_string()).message().is_empty());
}
