//! Request-execution core of an HTTP API-testing client.
//!
//! A caller hands a declarative request description (method, URL, auth,
//! headers, query parameters, body) to [`pipeline::prepare`], which validates
//! it and assembles everything the transport needs; after the exchange the
//! caller hands the raw response back to [`response::success_result`] (or
//! [`response::failure_result`] for a transport failure) and receives a
//! normalized [`model::RunResult`].  The network send itself is left to the
//! surrounding host.

pub mod body;
pub mod headers;
pub mod laws;
pub mod method;
pub mod model;
pub mod pipeline;
pub mod response;
pub mod trusted;
pub mod urlq;

pub use body::{encode_body, encode_form, Body};
pub use headers::assemble_headers;
pub use method::{canonical_method, Method};
pub use model::{Auth, Kv, RequestError, RequestPayload, RunResult};
pub use pipeline::{prepare, Prepared, DEFAULT_TIMEOUT_MS};
pub use response::{failure_result, flatten_headers, success_result, MAX_BODY_SIZE};
pub use urlq::build_url;
