//! Header and auth assembly: the enabled, non-empty-key header entries in
//! payload order, then a bearer `Authorization` header when a non-empty token
//! is present, then the `Content-Type` the declared body type calls for.

use crate::body::Body;
use crate::model::{enabled_pairs, entry_on, kv_model, kvs_model, Auth, Kv};
use vstd::prelude::*;
use vstd::string::StringExecFns;

verus! {

/// The header the auth choice adds: `Authorization: Bearer <token>` for a
/// bearer token that is non-empty, nothing otherwise.
pub open spec fn auth_headers(a: Auth) -> Seq<(Seq<char>, Seq<char>)> {
    match a {
        Auth::Bearer(t) => if t@.len() > 0 {
            seq![("Authorization"@, "Bearer "@ + t@)]
        } else {
            Seq::empty()
        },
        Auth::NoAuth => Seq::empty(),
    }
}

/// The `Content-Type` header the declared body type forces: JSON and form
/// bodies each add theirs; text and empty bodies add none.
pub open spec fn content_type_headers(b: Body) -> Seq<(Seq<char>, Seq<char>)> {
    match b {
        Body::Json(_) => seq![("Content-Type"@, "application/json"@)],
        Body::Form(_) => seq![("Content-Type"@, "application/x-www-form-urlencoded"@)],
        _ => Seq::empty(),
    }
}

/// Every header the request carries, in order: the enabled user entries,
/// the auth header, the forced `Content-Type`.  Duplicate names all stay.
pub open spec fn assembled_headers(hs: Seq<Kv>, a: Auth, b: Body) -> Seq<(Seq<char>, Seq<char>)> {
    enabled_pairs(kvs_model(hs)) + auth_headers(a) + content_type_headers(b)
}

/// Builds the request's header list from the payload.
pub fn assemble_headers(headers: &Vec<Kv>, auth: &Auth, body: &Body) -> (r: Vec<(String, String)>)
    ensures
        r.deep_view() == assembled_headers(headers@, *auth, *body),
{
    let mut out: Vec<(String, String)> = Vec::new();
    let mut i: usize = 0;
    while i < headers.len()
        invariant
            0 <= i <= headers@.len(),
            out.deep_view() == enabled_pairs(kvs_model(headers@.take(i as int))),
        decreases headers@.len() - i,
    {
        let ghost prefix = enabled_pairs(kvs_model(headers@.take(i as int)));
        let h = &headers[i];
        if h.enabled && !h.key.as_str().is_empty() {
            out.push((h.key.clone(), h.value.clone()));
        }
        proof {
            assert(kvs_model(headers@.take(i as int + 1)).drop_last() =~= kvs_model(
                headers@.take(i as int),
            ));
            assert(kvs_model(headers@.take(i as int + 1)).last() == kv_model(headers@[i as int]));
            let next = enabled_pairs(kvs_model(headers@.take(i as int + 1)));
            if entry_on(kv_model(headers@[i as int])) {
                assert(out.deep_view() =~= prefix.push(
                    (headers@[i as int].key@, headers@[i as int].value@),
                ));
                assert(next =~= prefix.push((headers@[i as int].key@, headers@[i as int].value@)));
            } else {
                assert(next =~= prefix);
            }
        }
        i = i + 1;
    }
    proof {
        assert(headers@.take(headers@.len() as int) =~= headers@);
    }
    match auth {
        Auth::Bearer(t) => {
            if !t.as_str().is_empty() {
                let value = String::from_str("Bearer ").concat(t.as_str());
                out.push((String::from_str("Authorization"), value));
                proof {
                    assert(out.deep_view() =~= enabled_pairs(kvs_model(headers@)) + auth_headers(
                        *auth,
                    ));
                }
            } else {
                proof {
                    assert(out.deep_view() =~= enabled_pairs(kvs_model(headers@)) + auth_headers(
                        *auth,
                    ));
                }
            }
        },
        Auth::NoAuth => {
            proof {
                assert(out.deep_view() =~= enabled_pairs(kvs_model(headers@)) + auth_headers(
                    *auth,
                ));
            }
        },
    }
    match body {
        Body::Json(_) => {
            out.push(
                (String::from_str("Content-Type"), String::from_str("application/json")),
            );
        },
        Body::Form(_) => {
            out.push(
                (
                    String::from_str("Content-Type"),
                    String::from_str("application/x-www-form-urlencoded"),
                ),
            );
        },
        _ => {},
    }
    proof {
        assert(out.deep_view() =~= assembled_headers(headers@, *auth, *body));
    }
    out
}

} // verus!
