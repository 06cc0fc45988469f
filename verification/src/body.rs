//! Request-body encoding, dispatched on the declared body type.  No body is
//! attached for `GET` or for the `"none"` type; JSON string values are sent
//! verbatim, structured values serialized compactly; form entries are
//! filtered and form-urlencoded; anything else is sent as raw text.

use crate::model::{enabled_entries, entry_on, kv_model, kvs_model, Kv, KvModel, RequestError};
use crate::trusted::{
    form_component, form_encoded, json_array_items, json_bool_content, json_compact, json_field,
    json_str_content, value_array_items, value_as_bool, value_as_string, value_field,
    value_to_json_text,
};
use vstd::prelude::*;
use vstd::string::StringExecFns;

verus! {

/// The payload's body, tagged by its declared type.  The JSON value inside
/// the `Json`, `Form` and `Text` variants is read only through the library's
/// trusted boundary.
pub enum Body {
    Empty,
    Json(serde_json::Value),
    Form(serde_json::Value),
    Text(serde_json::Value),
}

impl Body {
    /// Tags the payload's `body` field by its `type` string: `"none"` carries
    /// nothing, `"json"` and `"form"` keep the value for their encodings, and
    /// every other type is treated as raw text.
    pub fn from_tag(tag: String, value: serde_json::Value) -> (r: Body)
        ensures
            tag@ == "none"@ ==> r matches Body::Empty,
            tag@ == "json"@ ==> (r matches Body::Json(v) && v == value),
            tag@ != "none"@ && tag@ == "form"@ ==> (r matches Body::Form(v) && v == value),
            tag@ != "none"@ && tag@ != "json"@ && tag@ != "form"@ ==> (r matches Body::Text(v)
                && v == value),
    {
        proof {
            reveal_strlit("none");
            reveal_strlit("json");
            reveal_strlit("form");
            assert(("none"@)[0] != ("json"@)[0]);
            assert(("none"@)[0] != ("form"@)[0]);
            assert(("json"@)[0] != ("form"@)[0]);
        }
        if tag == String::from_str("none") {
            Body::Empty
        } else if tag == String::from_str("json") {
            Body::Json(value)
        } else if tag == String::from_str("form") {
            Body::Form(value)
        } else {
            Body::Text(value)
        }
    }
}

/// A form entry's `key` field: the member's string content, or empty when
/// the member is missing or no string.
pub open spec fn entry_key(item: serde_json::Value) -> Seq<char> {
    match json_field(item, "key"@) {
        Some(f) => match json_str_content(f) {
            Some(content) => content,
            None => Seq::empty(),
        },
        None => Seq::empty(),
    }
}

/// A form entry's `value` field, with the same empty-string default.
pub open spec fn entry_value(item: serde_json::Value) -> Seq<char> {
    match json_field(item, "value"@) {
        Some(f) => match json_str_content(f) {
            Some(content) => content,
            None => Seq::empty(),
        },
        None => Seq::empty(),
    }
}

/// A form entry's `enabled` field: the member's boolean content, or false
/// when the member is missing or no boolean.
pub open spec fn entry_enabled(item: serde_json::Value) -> bool {
    match json_field(item, "enabled"@) {
        Some(f) => match json_bool_content(f) {
            Some(b) => b,
            None => false,
        },
        None => false,
    }
}

/// What one array item says as a form entry, fields defaulted as above.
pub open spec fn entry_model(item: serde_json::Value) -> KvModel {
    (entry_key(item), entry_value(item), entry_enabled(item))
}

/// What a form body's array says, item by item.
pub open spec fn form_entries_model(items: Seq<serde_json::Value>) -> Seq<KvModel> {
    items.map_values(|item: serde_json::Value| entry_model(item))
}

/// Reads a form body's entries: nothing when the value is no array;
/// otherwise each item's `key`, `value` and `enabled` members, a missing or
/// differently-typed member defaulting to the empty string or false.
pub fn read_form_entries(v: &serde_json::Value) -> (r: Option<Vec<Kv>>)
    ensures
        r is Some <==> json_array_items(*v) is Some,
        r matches Some(es) ==> kvs_model(es@) == form_entries_model(json_array_items(*v)->0),
{
    let items = match value_array_items(v) {
        Some(items) => items,
        None => {
            return None;
        },
    };
    let mut out: Vec<Kv> = Vec::new();
    let mut i: usize = 0;
    while i < items.len()
        invariant
            0 <= i <= items@.len(),
            items@ == json_array_items(*v)->0,
            kvs_model(out@) == form_entries_model(items@.take(i as int)),
        decreases items@.len() - i,
    {
        let item = &items[i];
        let key = match value_field(item, "key") {
            Some(f) => match value_as_string(&f) {
                Some(content) => content,
                None => String::new(),
            },
            None => String::new(),
        };
        let value = match value_field(item, "value") {
            Some(f) => match value_as_string(&f) {
                Some(content) => content,
                None => String::new(),
            },
            None => String::new(),
        };
        let enabled = match value_field(item, "enabled") {
            Some(f) => match value_as_bool(&f) {
                Some(b) => b,
                None => false,
            },
            None => false,
        };
        let entry = Kv { key, value, enabled };
        proof {
            assert(kv_model(entry) == entry_model(items@[i as int]));
        }
        let ghost prev = out@;
        out.push(entry);
        proof {
            let next = items@.take(i as int + 1);
            assert(kvs_model(prev).len() == prev.len());
            assert(form_entries_model(items@.take(i as int)).len() == i);
            assert(prev.len() == i);
            assert forall|j: int| 0 <= j < out@.len() implies kvs_model(out@)[j]
                == form_entries_model(next)[j] by {
                if j < i {
                    assert(out@[j] == prev[j]);
                    assert(kvs_model(prev)[j] == form_entries_model(items@.take(i as int))[j]);
                    assert(form_entries_model(items@.take(i as int))[j] == entry_model(
                        items@[j],
                    ));
                } else {
                    assert(out@[j] == entry);
                    assert(next[j] == items@[i as int]);
                }
            }
            assert(kvs_model(out@) =~= form_entries_model(next));
        }
        i = i + 1;
    }
    proof {
        assert(items@.take(items@.len() as int) =~= items@);
    }
    Some(out)
}

/// One encoded form pair: encoded key, `=`, encoded value.
pub open spec fn form_pair_text(e: KvModel) -> Seq<char> {
    form_encoded(e.0) + "="@ + form_encoded(e.1)
}

/// The form-urlencoded body of the given entries, joined with `&`.
pub open spec fn form_body_text(s: Seq<KvModel>) -> Seq<char>
    decreases s.len(),
{
    if s.len() == 0 {
        Seq::empty()
    } else if s.len() == 1 {
        form_pair_text(s[0])
    } else {
        form_body_text(s.drop_last()) + "&"@ + form_pair_text(s.last())
    }
}

/// Encodes the enabled, non-empty-key entries as
/// application/x-www-form-urlencoded, in payload order.
pub fn encode_form(entries: &Vec<Kv>) -> (r: String)
    ensures
        r@ == form_body_text(enabled_entries(kvs_model(entries@))),
{
    let mut out = String::new();
    let mut first: bool = true;
    let mut i: usize = 0;
    while i < entries.len()
        invariant
            0 <= i <= entries@.len(),
            out@ == form_body_text(enabled_entries(kvs_model(entries@.take(i as int)))),
            first <==> enabled_entries(kvs_model(entries@.take(i as int))).len() == 0,
        decreases entries@.len() - i,
    {
        let ghost prefix = enabled_entries(kvs_model(entries@.take(i as int)));
        let e = &entries[i];
        if e.enabled && !e.key.as_str().is_empty() {
            if !first {
                out.append("&");
            }
            let ek = form_component(e.key.as_str());
            out.append(ek.as_str());
            out.append("=");
            let ev = form_component(e.value.as_str());
            out.append(ev.as_str());
            first = false;
        }
        proof {
            assert(kvs_model(entries@.take(i as int + 1)).drop_last() =~= kvs_model(
                entries@.take(i as int),
            ));
            assert(kvs_model(entries@.take(i as int + 1)).last() == kv_model(entries@[i as int]));
            let next = enabled_entries(kvs_model(entries@.take(i as int + 1)));
            if entry_on(kv_model(entries@[i as int])) {
                assert(next =~= prefix.push(kv_model(entries@[i as int])));
                if prefix.len() == 0 {
                    assert(out@ =~= form_body_text(next));
                } else {
                    assert(next.drop_last() =~= prefix);
                    assert(out@ =~= form_body_text(next));
                }
            } else {
                assert(next =~= prefix);
            }
        }
        i = i + 1;
    }
    proof {
        assert(entries@.take(entries@.len() as int) =~= entries@);
    }
    out
}

/// What an encoded body is when encoding succeeds: nothing for `GET` or an
/// empty body; otherwise the text the declared type calls for.
pub open spec fn body_ok(get: bool, b: Body, ob: Option<String>) -> bool {
    if get {
        ob is None
    } else {
        match b {
            Body::Empty => ob is None,
            Body::Json(v) => ob matches Some(s) && (if json_str_content(v) is Some {
                s@ == json_str_content(v)->0
            } else {
                s@ == json_compact(v)
            }),
            Body::Form(v) => json_array_items(v) is Some && (ob matches Some(s) && s@
                == form_body_text(
                    enabled_entries(form_entries_model(json_array_items(v)->0)),
                )),
            Body::Text(v) => ob matches Some(s) && (if json_str_content(v) is Some {
                s@ == json_str_content(v)->0
            } else {
                s@ == Seq::<char>::empty()
            }),
        }
    }
}

/// When encoding may fail, and with which error: only a form body whose
/// value is no array (serializing a structured JSON value never fails).
pub open spec fn body_err(get: bool, b: Body, e: RequestError) -> bool {
    !get && match b {
        Body::Form(v) => json_array_items(v) is None && e matches RequestError::InvalidFormBody,
        _ => false,
    }
}

/// When encoding is owed to succeed: always, except for a form body whose
/// value is no array.
pub open spec fn body_cannot_fail(get: bool, b: Body) -> bool {
    get || match b {
        Body::Empty => true,
        Body::Text(_) => true,
        Body::Json(_) => true,
        Body::Form(v) => json_array_items(v) is Some,
    }
}

/// Encodes the request body.  `get` skips encoding entirely, as does an
/// empty body; a form body fails exactly when its value is no array; a JSON
/// string value is passed through verbatim.
pub fn encode_body(get: bool, body: &Body) -> (r: Result<Option<String>, RequestError>)
    ensures
        r matches Ok(ob) ==> body_ok(get, *body, ob),
        r matches Err(e) ==> body_err(get, *body, e),
        body_cannot_fail(get, *body) ==> r is Ok,
        !get ==> (*body matches Body::Form(v) ==> (r is Ok <==> json_array_items(v) is Some)),
{
    if get {
        return Ok(None);
    }
    match body {
        Body::Empty => Ok(None),
        Body::Json(v) => {
            match value_as_string(v) {
                Some(s) => Ok(Some(s)),
                None => match value_to_json_text(v) {
                    Ok(s) => Ok(Some(s)),
                    Err(detail) => Err(RequestError::Serialization(detail)),
                },
            }
        },
        Body::Form(v) => {
            match read_form_entries(v) {
                Some(entries) => {
                    let encoded = encode_form(&entries);
                    Ok(Some(encoded))
                },
                None => Err(RequestError::InvalidFormBody),
            }
        },
        Body::Text(v) => {
            match value_as_string(v) {
                Some(s) => Ok(Some(s)),
                None => Ok(Some(String::new())),
            }
        },
    }
}

} // verus!
