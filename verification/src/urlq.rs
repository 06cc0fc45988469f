//! URL and query assembly: the text must parse as an absolute URL, and each
//! enabled, non-empty-key query entry is appended as a query pair in payload
//! order — duplicates allowed, later entries never overwriting earlier ones.

use crate::model::{enabled_pairs, entry_on, kv_model, kvs_model, Kv, RequestError};
use crate::trusted::{parse_url, url_append_pair, url_initial_query, url_ok, url_query_pairs};
use vstd::prelude::*;

verus! {

/// Parses the URL text and appends the enabled query entries.  Fails with
/// `InvalidUrl` exactly when the text does not parse; on success the URL's
/// query holds the pairs the text wrote, then the enabled entries, in order.
pub fn build_url(url_text: &str, query: &Vec<Kv>) -> (r: Result<url::Url, RequestError>)
    ensures
        r is Ok <==> url_ok(url_text@),
        r matches Ok(u) ==> url_query_pairs(u) == url_initial_query(url_text@) + enabled_pairs(
            kvs_model(query@),
        ),
        r matches Err(e) ==> e matches RequestError::InvalidUrl(_),
{
    let mut u = match parse_url(url_text) {
        Ok(u) => u,
        Err(detail) => {
            return Err(RequestError::InvalidUrl(detail));
        },
    };
    let ghost base = url_query_pairs(u);
    let mut i: usize = 0;
    while i < query.len()
        invariant
            0 <= i <= query@.len(),
            url_query_pairs(u) == base + enabled_pairs(kvs_model(query@.take(i as int))),
        decreases query@.len() - i,
    {
        let ghost prefix = enabled_pairs(kvs_model(query@.take(i as int)));
        let q = &query[i];
        if q.enabled && !q.key.as_str().is_empty() {
            url_append_pair(&mut u, q.key.as_str(), q.value.as_str());
        }
        proof {
            assert(kvs_model(query@.take(i as int + 1)).drop_last() =~= kvs_model(
                query@.take(i as int),
            ));
            assert(kvs_model(query@.take(i as int + 1)).last() == kv_model(query@[i as int]));
            let next = enabled_pairs(kvs_model(query@.take(i as int + 1)));
            if entry_on(kv_model(query@[i as int])) {
                assert(next =~= prefix.push((query@[i as int].key@, query@[i as int].value@)));
                assert(base + next =~= (base + prefix).push(
                    (query@[i as int].key@, query@[i as int].value@),
                ));
            } else {
                assert(next =~= prefix);
            }
        }
        i = i + 1;
    }
    proof {
        assert(query@.take(query@.len() as int) =~= query@);
    }
    Ok(u)
}

} // verus!
