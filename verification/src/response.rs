//! Response normalization: response headers are flattened into one value per
//! name (repeats joined with a comma, first-seen name order kept), and the
//! body is decoded as lossy UTF-8, truncated at a fixed cap with an exact
//! marker appended.

use crate::model::RunResult;
use crate::trusted::{lossy_utf8, utf8_lossy};
use vstd::prelude::*;
use vstd::string::StringExecFns;

verus! {

/// The largest number of body bytes a result keeps.
pub const MAX_BODY_SIZE: usize = 2 * 1024 * 1024;

/// The exact text appended to a truncated body.
pub open spec fn truncation_marker() -> Seq<char> {
    "\n\n[Truncated: body exceeded 2097152 bytes]"@
}

/// The returned body text: the lossy UTF-8 decoding of the bytes, cut to the
/// cap with the marker appended when they exceed it.
pub open spec fn body_text(bytes: Seq<u8>) -> Seq<char> {
    if bytes.len() > MAX_BODY_SIZE {
        utf8_lossy(bytes.take(MAX_BODY_SIZE as int)) + truncation_marker()
    } else {
        utf8_lossy(bytes)
    }
}

/// The index of the first pair in `acc` whose name is `k`, or -1.
pub open spec fn find_name(acc: Seq<(Seq<char>, Seq<char>)>, k: Seq<char>) -> int
    decreases acc.len(),
{
    if acc.len() == 0 {
        -1
    } else if acc[0].0 == k {
        0
    } else {
        let r = find_name(acc.drop_first(), k);
        if r == -1 {
            -1
        } else {
            r + 1
        }
    }
}

/// One flattening step: a pair with a fresh name is appended; one whose name
/// is already present has its value joined onto that entry with a comma.
pub open spec fn flatten_step(
    acc: Seq<(Seq<char>, Seq<char>)>,
    p: (Seq<char>, Seq<char>),
) -> Seq<(Seq<char>, Seq<char>)> {
    let j = find_name(acc, p.0);
    if j == -1 {
        acc.push(p)
    } else {
        acc.update(j, (acc[j].0, acc[j].1 + ","@ + p.1))
    }
}

/// The flattened header list: one entry per name, in first-seen order, each
/// carrying its values joined with commas in arrival order.
pub open spec fn flatten_spec(s: Seq<(Seq<char>, Seq<char>)>) -> Seq<(Seq<char>, Seq<char>)>
    decreases s.len(),
{
    if s.len() == 0 {
        Seq::empty()
    } else {
        flatten_step(flatten_spec(s.drop_last()), s.last())
    }
}

pub proof fn lemma_find_name_at(acc: Seq<(Seq<char>, Seq<char>)>, k: Seq<char>, j: int)
    requires
        0 <= j < acc.len(),
        acc[j].0 == k,
        forall|i: int| 0 <= i < j ==> acc[i].0 != k,
    ensures
        find_name(acc, k) == j,
    decreases j,
{
    if j == 0 {
    } else {
        assert(acc[0].0 != k);
        assert(acc.drop_first()[j - 1] == acc[j]);
        assert(forall|i: int| 0 <= i < j - 1 ==> acc.drop_first()[i] == acc[i + 1]);
        lemma_find_name_at(acc.drop_first(), k, j - 1);
    }
}

pub proof fn lemma_find_name_none(acc: Seq<(Seq<char>, Seq<char>)>, k: Seq<char>)
    requires
        forall|i: int| 0 <= i < acc.len() ==> acc[i].0 != k,
    ensures
        find_name(acc, k) == -1,
    decreases acc.len(),
{
    if acc.len() > 0 {
        assert(forall|i: int| 0 <= i < acc.drop_first().len() ==> acc.drop_first()[i] == acc[i
            + 1]);
        lemma_find_name_none(acc.drop_first(), k);
    }
}

fn find_key(out: &Vec<(String, String)>, key: &String) -> (r: Option<usize>)
    ensures
        match r {
            Some(j) => j < out@.len() && find_name(out.deep_view(), key@) == j,
            None => find_name(out.deep_view(), key@) == -1,
        },
{
    let mut j: usize = 0;
    while j < out.len()
        invariant
            0 <= j <= out@.len(),
            forall|jj: int| 0 <= jj < j ==> out.deep_view()[jj].0 != key@,
        decreases out@.len() - j,
    {
        if out[j].0 == *key {
            proof {
                assert(out.deep_view()[j as int].0 == key@);
                lemma_find_name_at(out.deep_view(), key@, j as int);
            }
            return Some(j);
        }
        proof {
            assert(out.deep_view()[j as int].0 == out@[j as int].0@);
        }
        j = j + 1;
    }
    proof {
        lemma_find_name_none(out.deep_view(), key@);
    }
    None
}

/// Flattens raw response headers: names keep their first-seen order, and a
/// repeated name's values are joined with a comma, in arrival order.
pub fn flatten_headers(raw: &Vec<(String, String)>) -> (r: Vec<(String, String)>)
    ensures
        r.deep_view() == flatten_spec(raw.deep_view()),
{
    let mut out: Vec<(String, String)> = Vec::new();
    let mut i: usize = 0;
    while i < raw.len()
        invariant
            0 <= i <= raw@.len(),
            out.deep_view() == flatten_spec(raw.deep_view().take(i as int)),
        decreases raw@.len() - i,
    {
        let ghost acc = out.deep_view();
        let key = &raw[i].0;
        let val = &raw[i].1;
        proof {
            assert(raw.deep_view()[i as int] == (raw@[i as int].0@, raw@[i as int].1@));
        }
        match find_key(&out, key) {
            Some(j) => {
                let cur = out[j].1.clone();
                out[j].1 = cur.concat(",").concat(val.as_str());
                proof {
                    assert(out.deep_view() =~= acc.update(
                        j as int,
                        (acc[j as int].0, acc[j as int].1 + ","@ + val@),
                    ));
                }
            },
            None => {
                out.push((key.clone(), val.clone()));
                proof {
                    assert(out.deep_view() =~= acc.push((key@, val@)));
                }
            },
        }
        proof {
            assert(raw.deep_view().take(i as int + 1).drop_last() =~= raw.deep_view().take(
                i as int,
            ));
            assert(out.deep_view() =~= flatten_spec(raw.deep_view().take(i as int + 1)));
        }
        i = i + 1;
    }
    proof {
        assert(raw.deep_view().take(raw@.len() as int) =~= raw.deep_view());
    }
    out
}

/// Builds the result of a completed round trip: the status, the flattened
/// headers, the capped-and-decoded body, no error.
pub fn success_result(
    status: u16,
    raw_headers: &Vec<(String, String)>,
    body_bytes: Vec<u8>,
    duration_ms: u128,
) -> (r: RunResult)
    ensures
        r.status == Some(status),
        r.error is None,
        r.duration_ms == duration_ms,
        r.headers.deep_view() == flatten_spec(raw_headers.deep_view()),
        r.body@ == body_text(body_bytes@),
{
    let mut bytes = body_bytes;
    let truncated = bytes.len() > MAX_BODY_SIZE;
    if truncated {
        bytes.truncate(MAX_BODY_SIZE);
        proof {
            assert(bytes@ =~= body_bytes@.take(MAX_BODY_SIZE as int));
        }
    }
    let mut body = lossy_utf8(bytes.as_slice());
    if truncated {
        body.append("\n\n[Truncated: body exceeded 2097152 bytes]");
    }
    RunResult {
        status: Some(status),
        duration_ms,
        headers: flatten_headers(raw_headers),
        body,
        error: None,
    }
}

/// Builds the result of a transport failure: no status, empty headers and
/// body, and a non-empty error message carrying the failure's description.
pub fn failure_result(detail: &str, duration_ms: u128) -> (r: RunResult)
    ensures
        r.status is None,
        r.error matches Some(e) && e@ == "Request failed: "@ + detail@,
        r.error matches Some(e2) ==> e2@.len() > 0,
        r.duration_ms == duration_ms,
        r.headers@.len() == 0,
        r.body@.len() == 0,
{
    let mut msg = String::from_str("Request failed: ");
    msg.append(detail);
    proof {
        reveal_strlit("Request failed: ");
    }
    RunResult {
        status: None,
        duration_ms,
        headers: Vec::new(),
        body: String::new(),
        error: Some(msg),
    }
}

} // verus!
