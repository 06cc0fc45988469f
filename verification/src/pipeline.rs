//! The pre-send pipeline: validate the method, build the URL with its query,
//! encode the body, assemble the headers, resolve the timeout.  Validation
//! failures short-circuit here, before any network I/O; what comes out is
//! everything the transport needs to send the request.

use crate::body::{body_cannot_fail, body_err, body_ok, encode_body, Body};
use crate::headers::{assemble_headers, assembled_headers};
use crate::method::{canonical_chars, canonical_method, spec_is_get, valid_method, Method};
use crate::model::{enabled_pairs, kvs_model, RequestError, RequestPayload};
use crate::trusted::{url_initial_query, url_ok, url_query_pairs};
use crate::urlq::build_url;
use vstd::prelude::*;

verus! {

/// The timeout used when the payload names none.
pub const DEFAULT_TIMEOUT_MS: u64 = 15000;

/// The payload's timeout, or the default.
pub open spec fn spec_timeout(t: Option<u64>) -> u64 {
    match t {
        Some(v) => v,
        None => DEFAULT_TIMEOUT_MS,
    }
}

/// Everything the transport needs to send one request.
pub struct Prepared {
    pub method: Method,
    pub url: url::Url,
    pub headers: Vec<(String, String)>,
    pub body: Option<String>,
    pub timeout_ms: u64,
}

/// Validates the payload and assembles the request.  The method is checked
/// first, then the URL; body encoding failures come last.  On success every
/// part of the result is pinned: canonical method, URL with the enabled
/// query pairs appended, assembled headers, encoded body, resolved timeout.
pub fn prepare(payload: &RequestPayload) -> (r: Result<Prepared, RequestError>)
    ensures
        r matches Ok(p) ==> {
            &&& valid_method(payload.method@)
            &&& url_ok(payload.url@)
            &&& p.method.text@ == canonical_chars(payload.method@)
            &&& p.method.get == spec_is_get(payload.method@)
            &&& url_query_pairs(p.url) == url_initial_query(payload.url@) + enabled_pairs(
                kvs_model(payload.query@),
            )
            &&& p.headers.deep_view() == assembled_headers(
                payload.headers@,
                payload.auth,
                payload.body,
            )
            &&& body_ok(spec_is_get(payload.method@), payload.body, p.body)
            &&& p.timeout_ms == spec_timeout(payload.timeout_ms)
        },
        r matches Err(e) ==> match e {
            RequestError::InvalidMethod => !valid_method(payload.method@),
            RequestError::InvalidUrl(_) => valid_method(payload.method@) && !url_ok(
                payload.url@,
            ),
            RequestError::InvalidFormBody => valid_method(payload.method@) && url_ok(payload.url@)
                && body_err(spec_is_get(payload.method@), payload.body, e),
            RequestError::Serialization(_) => valid_method(payload.method@) && url_ok(
                payload.url@,
            ) && body_err(spec_is_get(payload.method@), payload.body, e),
        },
        !valid_method(payload.method@) ==> (r matches Err(e) && e matches
            RequestError::InvalidMethod),
        valid_method(payload.method@) && !url_ok(payload.url@) ==> (r matches Err(e) && e matches
            RequestError::InvalidUrl(_)),
        valid_method(payload.method@) && url_ok(payload.url@) && body_cannot_fail(
            spec_is_get(payload.method@),
            payload.body,
        ) ==> r is Ok,
{
    let method = match canonical_method(payload.method.as_str()) {
        Ok(m) => m,
        Err(e) => {
            return Err(e);
        },
    };
    let url = match build_url(payload.url.as_str(), &payload.query) {
        Ok(u) => u,
        Err(e) => {
            return Err(e);
        },
    };
    let body = match encode_body(method.get, &payload.body) {
        Ok(b) => b,
        Err(e) => {
            return Err(e);
        },
    };
    let headers = assemble_headers(&payload.headers, &payload.auth, &payload.body);
    let timeout_ms = match payload.timeout_ms {
        Some(t) => t,
        None => DEFAULT_TIMEOUT_MS,
    };
    Ok(Prepared { method, url, headers, body, timeout_ms })
}

} // verus!
