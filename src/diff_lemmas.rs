//! What holds of every comparison: a document never differs from itself, the
//! list of differences is empty exactly when the verdict is "equal", and type
//! mismatches close the list.
use vstd::prelude::*;
use vstd::seq_lib::*;
use vstd::set_lib::*;
use crate::json::{Json, key_position, keys_unique, well_formed, lemma_key_position, lemma_key_position_unique};
use crate::diff::{
    DiffType, Difference, diff_at, entry_diffs, extra_entries, element_diffs, structurally_equal,
    entries_equal, elements_equal, field_path, index_path, of_group, diff_report,
};

verus! {

proof fn lemma_self_entries(es: Seq<(Seq<char>, Json)>, path: Seq<char>, n: nat)
    requires
        n <= es.len(),
        keys_unique(es),
        forall|i: int| 0 <= i < es.len() ==> well_formed(#[trigger] es[i].1),
    ensures
        entry_diffs(es, es, path, n).len() == 0,
        extra_entries(es, es, path, n).len() == 0,
        entries_equal(es, es, n),
    decreases es, n,
{
    if n > 0 {
        lemma_self_entries(es, path, (n - 1) as nat);
        lemma_key_position_unique(es, n - 1);
        lemma_self_diff(es[n - 1].1, field_path(path, es[n - 1].0));
    }
}

proof fn lemma_self_elements(xs: Seq<Json>, path: Seq<char>, n: nat)
    requires
        n <= xs.len(),
        forall|i: int| 0 <= i < xs.len() ==> well_formed(#[trigger] xs[i]),
    ensures
        element_diffs(xs, xs, path, n).len() == 0,
        elements_equal(xs, xs, n),
    decreases xs, n,
{
    if n > 0 {
        lemma_self_elements(xs, path, (n - 1) as nat);
        lemma_self_diff(xs[n - 1], index_path(path, (n - 1) as nat));
    }
}

proof fn lemma_self_diff(v: Json, path: Seq<char>)
    requires
        well_formed(v),
    ensures
        diff_at(v, v, path).len() == 0,
        structurally_equal(v, v),
    decreases v, 0nat,
{
    match v {
        Json::Object(es) => {
            lemma_self_entries(es, path, es.len());
        },
        Json::Array(xs) => {
            lemma_self_elements(xs, path, xs.len());
        },
        _ => {},
    }
}

proof fn lemma_group_kinds(s: Seq<Difference>, tm: bool)
    ensures
        forall|i: int|
            0 <= i < of_group(s, tm).len() ==> ((#[trigger] of_group(s, tm)[i]).kind
                == DiffType::TypeMismatch) == tm,
        of_group(s, true).len() + of_group(s, false).len() == s.len(),
    decreases s.len(),
{
    if s.len() > 0 {
        lemma_group_kinds(s.drop_last(), tm);
        lemma_group_kinds(s.drop_last(), !tm);
    }
}

/// A report holds as many differences as the walk found.
pub proof fn lemma_report_len(a: Json, b: Json)
    ensures
        diff_report(a, b).len() == diff_at(a, b, Seq::empty()).len(),
{
    lemma_group_kinds(diff_at(a, b, Seq::empty()), true);
}

/// A well-formed document does not differ from itself, and is structurally
/// equal to itself.
pub proof fn lemma_diff_reflexive(v: Json)
    requires
        well_formed(v),
    ensures
        diff_report(v, v).len() == 0,
        structurally_equal(v, v),
{
    lemma_self_diff(v, Seq::empty());
    lemma_report_len(v, v);
}

/// In every report, no type mismatch stands before a difference of another kind.
pub proof fn lemma_type_mismatches_last(a: Json, b: Json)
    ensures
        forall|i: int, j: int|
            0 <= i < j < diff_report(a, b).len() && (#[trigger] diff_report(a, b)[i]).kind
                == DiffType::TypeMismatch ==> (#[trigger] diff_report(a, b)[j]).kind
                == DiffType::TypeMismatch,
{
    let s = diff_at(a, b, Seq::empty());
    lemma_group_kinds(s, true);
    lemma_group_kinds(s, false);
    let r = diff_report(a, b);
    let k = of_group(s, false).len();
    assert forall|i: int, j: int|
        0 <= i < j < r.len() && (#[trigger] r[i]).kind == DiffType::TypeMismatch implies (
        #[trigger] r[j]).kind == DiffType::TypeMismatch by {
        if i < k {
            assert(r[i] == of_group(s, false)[i]);
        }
        assert(r[j] == of_group(s, true)[j - k]);
    }
}

pub open spec fn keys_of(es: Seq<(Seq<char>, Json)>) -> Set<Seq<char>> {
    es.map_values(|e: (Seq<char>, Json)| e.0).to_set()
}

proof fn lemma_keys_of(es: Seq<(Seq<char>, Json)>)
    requires
        keys_unique(es),
    ensures
        keys_of(es).finite(),
        keys_of(es).len() == es.len(),
        forall|k: Seq<char>| keys_of(es).contains(k) <==> key_position(es, k) >= 0,
{
    let ks = es.map_values(|e: (Seq<char>, Json)| e.0);
    assert(ks.no_duplicates());
    ks.unique_seq_to_set();
    seq_to_set_is_finite(ks);
    assert forall|k: Seq<char>| keys_of(es).contains(k) <==> key_position(es, k) >= 0 by {
        lemma_key_position(es, k);
        if key_position(es, k) >= 0 {
            assert(ks[key_position(es, k)] == k);
        }
        if keys_of(es).contains(k) {
            let i = choose|i: int| 0 <= i < ks.len() && ks[i] == k;
            assert(es[i].0 == k);
        }
    }
}

/// With unique keys, and every left key on the right, the objects have the
/// same size exactly when every right key is on the left.
proof fn lemma_keys_cover(ea: Seq<(Seq<char>, Json)>, eb: Seq<(Seq<char>, Json)>)
    requires
        keys_unique(ea),
        keys_unique(eb),
        forall|i: int| 0 <= i < ea.len() ==> key_position(eb, #[trigger] ea[i].0) >= 0,
    ensures
        (ea.len() == eb.len()) == (forall|j: int|
            0 <= j < eb.len() ==> key_position(ea, #[trigger] eb[j].0) >= 0),
{
    lemma_keys_of(ea);
    lemma_keys_of(eb);
    let sa = keys_of(ea);
    let sb = keys_of(eb);
    assert forall|k: Seq<char>| sa.contains(k) implies sb.contains(k) by {
        lemma_key_position(ea, k);
        let p = key_position(ea, k);
        assert(ea[p].0 == k);
    }
    assert(sa.subset_of(sb));
    if ea.len() == eb.len() {
        lemma_subset_equality(sa, sb);
        assert forall|j: int| 0 <= j < eb.len() implies key_position(ea, #[trigger] eb[j].0) >= 0 by {
            lemma_key_position(eb, eb[j].0);
            assert(sb.contains(eb[j].0));
        }
    }
    if forall|j: int| 0 <= j < eb.len() ==> key_position(ea, #[trigger] eb[j].0) >= 0 {
        assert forall|k: Seq<char>| sb.contains(k) implies sa.contains(k) by {
            lemma_key_position(eb, k);
            let p = key_position(eb, k);
            assert(eb[p].0 == k);
        }
        lemma_len_subset(sa, sb);
        lemma_len_subset(sb, sa);
    }
}

proof fn lemma_entries_iff(ea: Seq<(Seq<char>, Json)>, eb: Seq<(Seq<char>, Json)>, path: Seq<char>, n: nat)
    requires
        n <= ea.len(),
        forall|i: int| 0 <= i < ea.len() ==> well_formed(#[trigger] ea[i].1),
        forall|i: int| 0 <= i < eb.len() ==> well_formed(#[trigger] eb[i].1),
    ensures
        (entry_diffs(ea, eb, path, n).len() == 0) == entries_equal(ea, eb, n),
        entries_equal(ea, eb, n) ==> forall|i: int|
            0 <= i < n ==> key_position(eb, #[trigger] ea[i].0) >= 0,
    decreases ea, n,
{
    if n > 0 {
        lemma_entries_iff(ea, eb, path, (n - 1) as nat);
        let k = ea[n - 1].0;
        lemma_key_position(eb, k);
        let p = key_position(eb, k);
        if 0 <= p < eb.len() {
            lemma_diff_iff(ea[n - 1].1, eb[p].1, field_path(path, k));
        }
    }
}

proof fn lemma_extra_iff(ea: Seq<(Seq<char>, Json)>, eb: Seq<(Seq<char>, Json)>, path: Seq<char>, n: nat)
    requires
        n <= eb.len(),
    ensures
        (extra_entries(ea, eb, path, n).len() == 0) == (forall|j: int|
            0 <= j < n ==> key_position(ea, #[trigger] eb[j].0) >= 0),
    decreases n,
{
    if n > 0 {
        lemma_extra_iff(ea, eb, path, (n - 1) as nat);
    }
}

proof fn lemma_elements_iff(xa: Seq<Json>, xb: Seq<Json>, path: Seq<char>, n: nat)
    requires
        n <= xa.len(),
        n <= xb.len(),
        forall|i: int| 0 <= i < xa.len() ==> well_formed(#[trigger] xa[i]),
        forall|i: int| 0 <= i < xb.len() ==> well_formed(#[trigger] xb[i]),
    ensures
        (element_diffs(xa, xb, path, n).len() == 0) == elements_equal(xa, xb, n),
    decreases xa, n,
{
    if n > 0 {
        lemma_elements_iff(xa, xb, path, (n - 1) as nat);
        lemma_diff_iff(xa[n - 1], xb[n - 1], index_path(path, (n - 1) as nat));
    }
}

proof fn lemma_diff_iff(a: Json, b: Json, path: Seq<char>)
    requires
        well_formed(a),
        well_formed(b),
    ensures
        (diff_at(a, b, path).len() == 0) == structurally_equal(a, b),
    decreases a, 0nat,
{
    match a {
        Json::Object(ea) => match b {
            Json::Object(eb) => {
                lemma_entries_iff(ea, eb, path, ea.len());
                lemma_extra_iff(ea, eb, path, eb.len());
                if entries_equal(ea, eb, ea.len()) {
                    lemma_keys_cover(ea, eb);
                }
            },
            _ => {},
        },
        Json::Array(xa) => match b {
            Json::Array(xb) => {
                let n = if xa.len() <= xb.len() {
                    xa.len()
                } else {
                    xb.len()
                };
                lemma_elements_iff(xa, xb, path, n);
            },
            _ => {},
        },
        _ => {},
    }
}

/// For well-formed documents the report is empty exactly when the documents
/// are structurally equal: `json_diff` and `json_equal` agree.
pub proof fn lemma_diff_empty_iff_equal(a: Json, b: Json)
    requires
        well_formed(a),
        well_formed(b),
    ensures
        (diff_report(a, b).len() == 0) == structurally_equal(a, b),
{
    lemma_diff_iff(a, b, Seq::empty());
    lemma_report_len(a, b);
}

} // verus!
