//! The data that one request execution carries: the caller's payload entries,
//! the normalized outcome, and the precondition errors.

use crate::body::Body;
use vstd::prelude::*;
use vstd::string::StringExecFns;

verus! {

/// One header, query or form entry as the caller wrote it.
#[derive(Debug)]
pub struct Kv {
    pub key: String,
    pub value: String,
    pub enabled: bool,
}

/// The caller's authentication choice, tagged at construction.
#[derive(Debug)]
pub enum Auth {
    NoAuth,
    Bearer(String),
}

/// The caller's declarative description of one HTTP request.
pub struct RequestPayload {
    pub method: String,
    pub url: String,
    pub auth: Auth,
    pub headers: Vec<Kv>,
    pub query: Vec<Kv>,
    pub body: Body,
    pub timeout_ms: Option<u64>,
}

/// The normalized outcome of one request execution.  `status` is present
/// exactly when the transport completed a round trip; a transport failure is
/// reported through `error`, never as a hard call failure.  `duration_ms` is
/// present on every result.
#[derive(Debug)]
pub struct RunResult {
    pub status: Option<u16>,
    pub duration_ms: u128,
    pub headers: Vec<(String, String)>,
    pub body: String,
    pub error: Option<String>,
}

/// A validation failure detected before any network I/O is attempted.  These
/// fail the call itself, unlike transport failures, which come back inside a
/// [`RunResult`].
#[derive(Debug)]
pub enum RequestError {
    InvalidMethod,
    InvalidUrl(String),
    InvalidFormBody,
    Serialization(String),
}

impl Auth {
    /// Tags the payload's `auth` field: the `"bearer"` type keeps its token
    /// (an absent token counts as empty); every other type carries none.
    pub fn from_parts(auth_type: String, token: Option<String>) -> (r: Auth)
        ensures
            auth_type@ == "bearer"@ ==> (match token {
                Some(t) => r == Auth::Bearer(t),
                None => (r matches Auth::Bearer(t2) && t2@ == Seq::<char>::empty()),
            }),
            auth_type@ != "bearer"@ ==> r matches Auth::NoAuth,
    {
        if auth_type == String::from_str("bearer") {
            match token {
                Some(t) => Auth::Bearer(t),
                None => Auth::Bearer(String::new()),
            }
        } else {
            Auth::NoAuth
        }
    }
}

impl RequestError {
    /// A short human-readable description, never empty; the URL and
    /// serialization variants carry their detail.
    pub fn message(&self) -> (r: String)
        ensures
            r@.len() > 0,
            *self matches RequestError::InvalidMethod ==> r@
                == "Invalid method: the token holds a character no HTTP method may use"@,
            *self matches RequestError::InvalidUrl(d) ==> r@ == "Invalid URL: "@ + d@,
            *self matches RequestError::InvalidFormBody ==> r@
                == "Invalid form body: the value must be an array of entries"@,
            *self matches RequestError::Serialization(d) ==> r@
                == "JSON serialization failed: "@ + d@,
    {
        proof {
            reveal_strlit("Invalid method: the token holds a character no HTTP method may use");
            reveal_strlit("Invalid URL: ");
            reveal_strlit("Invalid form body: the value must be an array of entries");
            reveal_strlit("JSON serialization failed: ");
        }
        match self {
            RequestError::InvalidMethod => String::from_str(
                "Invalid method: the token holds a character no HTTP method may use",
            ),
            RequestError::InvalidUrl(detail) => String::from_str("Invalid URL: ").concat(
                detail.as_str(),
            ),
            RequestError::InvalidFormBody => String::from_str(
                "Invalid form body: the value must be an array of entries",
            ),
            RequestError::Serialization(detail) => String::from_str(
                "JSON serialization failed: ",
            ).concat(detail.as_str()),
        }
    }
}

/// What a [`Kv`] entry says, as plain mathematical values: key, value, enabled.
pub type KvModel = (Seq<char>, Seq<char>, bool);

pub open spec fn kv_model(kv: Kv) -> KvModel {
    (kv.key@, kv.value@, kv.enabled)
}

pub open spec fn kvs_model(s: Seq<Kv>) -> Seq<KvModel> {
    s.map_values(|kv: Kv| kv_model(kv))
}

/// An entry takes part in the request exactly when it is enabled and its key
/// is non-empty.
pub open spec fn entry_on(e: KvModel) -> bool {
    e.2 && e.0.len() > 0
}

/// The entries that take part, in payload order.
pub open spec fn enabled_entries(s: Seq<KvModel>) -> Seq<KvModel>
    decreases s.len(),
{
    if s.len() == 0 {
        Seq::empty()
    } else {
        let rest = enabled_entries(s.drop_last());
        if entry_on(s.last()) {
            rest.push(s.last())
        } else {
            rest
        }
    }
}

/// The entries that take part, as (key, value) pairs in payload order.
pub open spec fn enabled_pairs(s: Seq<KvModel>) -> Seq<(Seq<char>, Seq<char>)>
    decreases s.len(),
{
    if s.len() == 0 {
        Seq::empty()
    } else {
        let rest = enabled_pairs(s.drop_last());
        if entry_on(s.last()) {
            rest.push((s.last().0, s.last().1))
        } else {
            rest
        }
    }
}

} // verus!
