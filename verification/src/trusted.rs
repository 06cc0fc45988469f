//! The boundary to the outside crates: opaque declarations of their types,
//! names for what their functions return, and the thin wrappers whose
//! contracts the rest of the library is proved against.

use vstd::prelude::*;

verus! {

/// serde_json's JSON value; the payload's body carries one opaquely.
#[verifier::external_type_specification]
#[verifier::external_body]
pub struct ExValue(serde_json::Value);

/// url's parsed-URL type, carried opaquely from parsing to sending.
#[verifier::external_type_specification]
#[verifier::external_body]
pub struct ExUrl(url::Url);

/// The content a JSON value holds when it is a string, and nothing otherwise.
pub uninterp spec fn json_str_content(v: serde_json::Value) -> Option<Seq<char>>;

/// The compact serialization of a JSON value.
pub uninterp spec fn json_compact(v: serde_json::Value) -> Seq<char>;

/// The items a JSON value holds when it is an array, and nothing otherwise.
pub uninterp spec fn json_array_items(v: serde_json::Value) -> Option<Seq<serde_json::Value>>;

/// The member a JSON value holds under a field name, when it is an object
/// with that member.
pub uninterp spec fn json_field(v: serde_json::Value, name: Seq<char>) -> Option<
    serde_json::Value,
>;

/// The boolean a JSON value holds when it is a boolean, and nothing otherwise.
pub uninterp spec fn json_bool_content(v: serde_json::Value) -> Option<bool>;

/// Whether a text parses as an absolute URL.
pub uninterp spec fn url_ok(s: Seq<char>) -> bool;

/// The query pairs written in a URL text, as parsing decodes them.
pub uninterp spec fn url_initial_query(s: Seq<char>) -> Seq<(Seq<char>, Seq<char>)>;

/// The decoded query pairs a parsed URL holds, in order.
pub uninterp spec fn url_query_pairs(u: url::Url) -> Seq<(Seq<char>, Seq<char>)>;

/// The application/x-www-form-urlencoded encoding of a text.
pub uninterp spec fn form_encoded(s: Seq<char>) -> Seq<char>;

/// The UTF-8 decoding of the bytes, invalid sequences replaced.
pub uninterp spec fn utf8_lossy(bytes: Seq<u8>) -> Seq<char>;

/// Relies on url::Url::parse: `Ok` exactly when the text is a well-formed
/// absolute URL; the parsed URL's query holds the pairs the text wrote.
#[verifier::external_body]
pub(crate) fn parse_url(s: &str) -> (r: Result<url::Url, String>)
    ensures
        r is Ok <==> url_ok(s@),
        r matches Ok(u) ==> url_query_pairs(u) == url_initial_query(s@),
{
    url::Url::parse(s).map_err(|e| e.to_string())
}

/// Relies on url::Url::query_pairs_mut and form_urlencoded's
/// Serializer::append_pair: appends exactly one encoded pair to the URL's
/// query, keeping every earlier pair in place.
#[verifier::external_body]
pub(crate) fn url_append_pair(u: &mut url::Url, key: &str, value: &str)
    ensures
        url_query_pairs(*final (u)) == url_query_pairs(*old(u)).push((key@, value@)),
{
    u.query_pairs_mut().append_pair(key, value);
}

/// Relies on serde_json::Value::as_str: the string's content exactly when the
/// value is a JSON string.
#[verifier::external_body]
pub(crate) fn value_as_string(v: &serde_json::Value) -> (r: Option<String>)
    ensures
        r is Some <==> json_str_content(*v) is Some,
        r matches Some(s) ==> s@ == json_str_content(*v)->0,
{
    v.as_str().map(|s| s.to_string())
}

/// Relies on serde_json::to_string: the compact serialization, a function of
/// the value alone.  Serializing a `Value` has no failure path: its maps are
/// keyed by strings, its numbers are finite, and the in-memory writer cannot
/// fail, so the call always returns `Ok`.
#[verifier::external_body]
pub(crate) fn value_to_json_text(v: &serde_json::Value) -> (r: Result<String, String>)
    ensures
        r is Ok,
        r matches Ok(s) ==> s@ == json_compact(*v),
{
    serde_json::to_string(v).map_err(|e| e.to_string())
}

/// Relies on serde_json::Value::as_array: hands the array's items out,
/// exactly when the value is an array.
#[verifier::external_body]
pub(crate) fn value_array_items(v: &serde_json::Value) -> (r: Option<Vec<serde_json::Value>>)
    ensures
        r is Some <==> json_array_items(*v) is Some,
        r matches Some(items) ==> items@ == json_array_items(*v)->0,
{
    v.as_array().cloned()
}

/// Relies on serde_json::Value::get: the member under the field name,
/// exactly when the value is an object holding one.
#[verifier::external_body]
pub(crate) fn value_field(v: &serde_json::Value, name: &str) -> (r: Option<serde_json::Value>)
    ensures
        r is Some <==> json_field(*v, name@) is Some,
        r matches Some(f) ==> f == json_field(*v, name@)->0,
{
    v.get(name).cloned()
}

/// Relies on serde_json::Value::as_bool: the boolean's content, exactly when
/// the value is a JSON boolean.
#[verifier::external_body]
pub(crate) fn value_as_bool(v: &serde_json::Value) -> (r: Option<bool>)
    ensures
        r == json_bool_content(*v),
{
    v.as_bool()
}

/// Relies on form_urlencoded::byte_serialize: the
/// application/x-www-form-urlencoded encoding of the text, a function of the
/// text alone.
#[verifier::external_body]
pub(crate) fn form_component(s: &str) -> (r: String)
    ensures
        r@ == form_encoded(s@),
{
    url::form_urlencoded::byte_serialize(s.as_bytes()).collect()
}

/// Relies on String::from_utf8_lossy: decodes the bytes as UTF-8 with lossy
/// replacement, a function of the bytes alone; it never fails.
#[verifier::external_body]
pub(crate) fn lossy_utf8(bytes: &[u8]) -> (r: String)
    ensures
        r@ == utf8_lossy(bytes@),
{
    String::from_utf8_lossy(bytes).to_string()
}

/// Relies on String::from_utf8: ASCII bytes are valid UTF-8 and decode to the
/// characters with the same codes.
#[verifier::external_body]
pub(crate) fn ascii_string(bytes: Vec<u8>) -> (r: String)
    requires
        forall|i: int| 0 <= i < bytes@.len() ==> bytes@[i] < 128,
    ensures
        r@ == bytes@.map_values(|b: u8| b as char),
{
    String::from_utf8(bytes).unwrap_or_default()
}

} // verus!
