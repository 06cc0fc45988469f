//! Laws the library obeys across functions, proved here once and for all:
//! disabled or key-less entries leave no trace in the assembled request, every
//! enabled entry leaves exactly its trace, and response flattening loses no
//! header name and no header value.

use crate::model::{enabled_entries, enabled_pairs, entry_on, KvModel};
use crate::response::{find_name, flatten_spec, flatten_step};
use vstd::prelude::*;

verus! {

/// An entry that is disabled, or whose key is empty, is excluded entirely:
/// removing it from the payload changes nothing about the pairs the request
/// carries, whatever the other entries are.
pub proof fn lemma_excluded_entry_irrelevant(s: Seq<KvModel>, i: int)
    requires
        0 <= i < s.len(),
        !entry_on(s[i]),
    ensures
        enabled_pairs(s) == enabled_pairs(s.remove(i)),
    decreases s.len(),
{
    if i == s.len() - 1 {
        assert(s.remove(i) =~= s.drop_last());
    } else {
        lemma_excluded_entry_irrelevant(s.drop_last(), i);
        assert(s.remove(i).drop_last() =~= s.drop_last().remove(i));
        assert(s.remove(i).last() == s.last());
    }
}

/// The same exclusion holds for the entries a form body encodes: a disabled
/// or key-less entry changes nothing about what is encoded.
pub proof fn lemma_excluded_form_entry_irrelevant(s: Seq<KvModel>, i: int)
    requires
        0 <= i < s.len(),
        !entry_on(s[i]),
    ensures
        enabled_entries(s) == enabled_entries(s.remove(i)),
    decreases s.len(),
{
    if i == s.len() - 1 {
        assert(s.remove(i) =~= s.drop_last());
    } else {
        lemma_excluded_form_entry_irrelevant(s.drop_last(), i);
        assert(s.remove(i).drop_last() =~= s.drop_last().remove(i));
        assert(s.remove(i).last() == s.last());
    }
}

/// An enabled entry with a non-empty key always appears among the pairs the
/// request carries, as its own (key, value) pair.
pub proof fn lemma_enabled_entry_kept(s: Seq<KvModel>, i: int)
    requires
        0 <= i < s.len(),
        entry_on(s[i]),
    ensures
        enabled_pairs(s).contains((s[i].0, s[i].1)),
    decreases s.len(),
{
    let p = (s[i].0, s[i].1);
    if i == s.len() - 1 {
        let e = enabled_pairs(s);
        assert(e[e.len() - 1] == p);
    } else {
        lemma_enabled_entry_kept(s.drop_last(), i);
        let e0 = enabled_pairs(s.drop_last());
        let k = choose|k: int| 0 <= k < e0.len() && e0[k] == p;
        assert(enabled_pairs(s)[k] == p);
    }
}

/// One text occurs inside another as a contiguous run.
pub open spec fn contains_text(hay: Seq<char>, needle: Seq<char>) -> bool {
    exists|k: int|
        0 <= k <= hay.len() - needle.len() && #[trigger] hay.subrange(k, k + needle.len())
            == needle
}

proof fn lemma_contains_extend(a: Seq<char>, b: Seq<char>, n: Seq<char>)
    requires
        contains_text(a, n),
    ensures
        contains_text(a + b, n),
{
    let k = choose|k: int|
        0 <= k <= a.len() - n.len() && #[trigger] a.subrange(k, k + n.len()) == n;
    assert((a + b).subrange(k, k + n.len()) =~= a.subrange(k, k + n.len()));
}

proof fn lemma_contains_at_end(a: Seq<char>, n: Seq<char>)
    ensures
        contains_text(a + n, n),
{
    let k = a.len() as int;
    assert((a + n).subrange(k, k + n.len()) =~= n);
}

proof fn lemma_contains_self(n: Seq<char>)
    ensures
        contains_text(n, n),
{
    let k: int = 0;
    assert(n.subrange(k, k + n.len()) =~= n);
}

/// Flattening a step never renames what is already there: every entry keeps
/// its index and its name.
proof fn lemma_step_keeps_prefix(acc: Seq<(Seq<char>, Seq<char>)>, p: (Seq<char>, Seq<char>))
    ensures
        flatten_step(acc, p).len() >= acc.len(),
        forall|j: int|
            0 <= j < acc.len() ==> (#[trigger] flatten_step(acc, p)[j]).0 == acc[j].0,
{
    lemma_find_name_props(acc, p.0);
}

/// Response flattening loses nothing: for every raw response header, the
/// flattened list holds an entry with that name whose value carries the raw
/// value as a contiguous run (values merge with commas, they never vanish).
pub proof fn lemma_flatten_keeps_entry(raw: Seq<(Seq<char>, Seq<char>)>, i: int)
    requires
        0 <= i < raw.len(),
    ensures
        exists|j: int|
            0 <= j < flatten_spec(raw).len() && (#[trigger] flatten_spec(raw)[j]).0 == raw[i].0
                && contains_text(flatten_spec(raw)[j].1, raw[i].1),
    decreases raw.len(),
{
    let s = raw.drop_last();
    let p = raw.last();
    let f0 = flatten_spec(s);
    let f = flatten_spec(raw);
    let j0 = find_name(f0, p.0);
    assert(f == flatten_step(f0, p));
    if i == raw.len() - 1 {
        if j0 == -1 {
            assert(f[f.len() - 1] == p);
            lemma_contains_self(p.1);
        } else {
            lemma_find_name_props(f0, p.0);
            assert(f[j0].1 == f0[j0].1 + ","@ + p.1);
            lemma_contains_at_end(f0[j0].1 + ","@, p.1);
            assert(f[j0].0 == p.0);
        }
    } else {
        lemma_flatten_keeps_entry(s, i);
        assert(s[i] == raw[i]);
        let j = choose|j: int|
            0 <= j < f0.len() && (#[trigger] f0[j]).0 == s[i].0 && contains_text(
                f0[j].1,
                s[i].1,
            );
        lemma_step_keeps_prefix(f0, p);
        if j0 == -1 {
            assert(f[j] == f0[j]);
        } else {
            lemma_find_name_props(f0, p.0);
            if j == j0 {
                assert(f[j].1 == f0[j].1 + ","@ + p.1);
                lemma_contains_extend(f0[j].1, ","@ + p.1, s[i].1);
                assert(f0[j].1 + (","@ + p.1) =~= f0[j].1 + ","@ + p.1);
                assert(contains_text(f[j].1, s[i].1));
            } else {
                assert(f[j] == f0[j]);
            }
        }
        assert((#[trigger] f[j]).0 == raw[i].0 && contains_text(f[j].1, raw[i].1));
    }
}

/// What `find_name` returns is either -1 or a fitting index.
proof fn lemma_find_name_props(acc: Seq<(Seq<char>, Seq<char>)>, k: Seq<char>)
    ensures
        find_name(acc, k) == -1 || (0 <= find_name(acc, k) < acc.len() && acc[find_name(
            acc,
            k,
        )].0 == k),
    decreases acc.len(),
{
    if acc.len() > 0 && acc[0].0 != k {
        lemma_find_name_props(acc.drop_first(), k);
    }
}

} // verus!
