//! Structural comparison of two JSON documents.
//!
//! `json_diff` walks both documents and lists every difference it finds;
//! `json_equal` answers the same question without building the list. Both are
//! stated over the models of `crate::json`: `diff_at` is the list of
//! differences in discovery order, `structurally_equal` the verdict.
use vstd::prelude::*;
use crate::json::{JsonValue, Json, key_position, es_model, find_key};
use crate::text::{decimal, decimal_text, lower_of, lowercase};

verus! {

/// What kind of difference was found at a path.
#[derive(Debug, Clone, Copy, PartialEq, Eq, Structural)]
pub enum DiffType {
    /// The two values differ.
    ValueMismatch,
    /// The field is on the reference side only.
    MissingInSidecar,
    /// The field is on the candidate side only.
    MissingInRust,
    /// The arrays have different lengths.
    ArrayLengthMismatch,
    /// The values are of different JSON kinds (string against number, ...).
    TypeMismatch,
}

/// One difference between the reference (`rust_value`) and the candidate
/// (`sidecar_value`) document.
#[derive(Debug)]
pub struct JsonDiff {
    /// Where the difference is, as `a.b[0].c`.
    pub path: String,
    /// The value on the reference side, `None` where the field is missing.
    pub rust_value: Option<JsonValue>,
    /// The value on the candidate side, `None` where the field is missing.
    pub sidecar_value: Option<JsonValue>,
    pub diff_type: DiffType,
}

/// The model of a `JsonDiff`.
pub struct Difference {
    pub path: Seq<char>,
    pub left: Option<Json>,
    pub right: Option<Json>,
    pub kind: DiffType,
}

pub open spec fn opt_model(v: Option<JsonValue>) -> Option<Json> {
    match v {
        Some(x) => Some(x.model()),
        None => None,
    }
}

impl JsonDiff {
    pub open spec fn model(self) -> Difference {
        Difference {
            path: self.path@,
            left: opt_model(self.rust_value),
            right: opt_model(self.sidecar_value),
            kind: self.diff_type,
        }
    }
}

pub open spec fn diffs_model(s: Seq<JsonDiff>) -> Seq<Difference> {
    s.map_values(|d: JsonDiff| d.model())
}

/// Strings are compared without regard to case.
pub open spec fn text_matches(x: Seq<char>, y: Seq<char>) -> bool {
    lower_of(x) == lower_of(y)
}

/// Both values are of the same JSON kind.
pub open spec fn same_kind(a: Json, b: Json) -> bool {
    match a {
        Json::Null => b is Null,
        Json::Bool(_) => b is Bool,
        Json::Number(_) => b is Number,
        Json::Str(_) => b is Str,
        Json::Array(_) => b is Array,
        Json::Object(_) => b is Object,
    }
}

/// The path of field `key` below `path`: `key` at the root, else `path.key`.
pub open spec fn field_path(path: Seq<char>, key: Seq<char>) -> Seq<char> {
    if path.len() == 0 {
        key
    } else {
        path + "."@ + key
    }
}

/// The path of element `i` below `path`: `path[i]`.
pub open spec fn index_path(path: Seq<char>, i: nat) -> Seq<char> {
    path + "["@ + decimal(i) + "]"@
}

pub open spec fn one(path: Seq<char>, left: Option<Json>, right: Option<Json>, kind: DiffType) -> Seq<
    Difference,
> {
    seq![Difference { path, left, right, kind }]
}

/// The differences between `a` and `b` at `path`, in discovery order.
pub open spec fn diff_at(a: Json, b: Json, path: Seq<char>) -> Seq<Difference>
    decreases a, 0nat,
{
    match a {
        Json::Object(ea) => match b {
            Json::Object(eb) => entry_diffs(ea, eb, path, ea.len()) + extra_entries(
                ea,
                eb,
                path,
                eb.len(),
            ),
            _ => one(path, Some(a), Some(b), DiffType::TypeMismatch),
        },
        Json::Array(xa) => match b {
            Json::Array(xb) => {
                let n = if xa.len() <= xb.len() {
                    xa.len()
                } else {
                    xb.len()
                };
                let head = if xa.len() != xb.len() {
                    one(path, Some(a), Some(b), DiffType::ArrayLengthMismatch)
                } else {
                    Seq::empty()
                };
                head + element_diffs(xa, xb, path, n)
            },
            _ => one(path, Some(a), Some(b), DiffType::TypeMismatch),
        },
        Json::Str(x) => match b {
            Json::Str(y) => if text_matches(x, y) {
                Seq::empty()
            } else {
                one(path, Some(a), Some(b), DiffType::ValueMismatch)
            },
            _ => one(path, Some(a), Some(b), DiffType::TypeMismatch),
        },
        _ => if !same_kind(a, b) {
            one(path, Some(a), Some(b), DiffType::TypeMismatch)
        } else if a == b {
            Seq::empty()
        } else {
            one(path, Some(a), Some(b), DiffType::ValueMismatch)
        },
    }
}

/// The differences found through the first `n` entries of the left object.
pub open spec fn entry_diffs(
    ea: Seq<(Seq<char>, Json)>,
    eb: Seq<(Seq<char>, Json)>,
    path: Seq<char>,
    n: nat,
) -> Seq<Difference>
    decreases ea, n,
{
    if n == 0 || n > ea.len() {
        Seq::empty()
    } else {
        let k = ea[n - 1].0;
        let p = key_position(eb, k);
        let here = if 0 <= p < eb.len() {
            diff_at(ea[n - 1].1, eb[p].1, field_path(path, k))
        } else {
            one(field_path(path, k), Some(ea[n - 1].1), None, DiffType::MissingInSidecar)
        };
        entry_diffs(ea, eb, path, (n - 1) as nat) + here
    }
}

/// The fields among the first `n` entries of the right object that the left lacks.
pub open spec fn extra_entries(
    ea: Seq<(Seq<char>, Json)>,
    eb: Seq<(Seq<char>, Json)>,
    path: Seq<char>,
    n: nat,
) -> Seq<Difference>
    decreases n,
{
    if n == 0 || n > eb.len() {
        Seq::empty()
    } else {
        let k = eb[n - 1].0;
        let here = if key_position(ea, k) < 0 {
            one(field_path(path, k), None, Some(eb[n - 1].1), DiffType::MissingInRust)
        } else {
            Seq::empty()
        };
        extra_entries(ea, eb, path, (n - 1) as nat) + here
    }
}

/// The differences found through the first `n` element pairs of two arrays.
pub open spec fn element_diffs(xa: Seq<Json>, xb: Seq<Json>, path: Seq<char>, n: nat) -> Seq<
    Difference,
>
    decreases xa, n,
{
    if n == 0 || n > xa.len() || n > xb.len() {
        Seq::empty()
    } else {
        element_diffs(xa, xb, path, (n - 1) as nat) + diff_at(
            xa[n - 1],
            xb[n - 1],
            index_path(path, (n - 1) as nat),
        )
    }
}

/// The entries of `s` that are (`tm`) or are not (`!tm`) type mismatches, in order.
pub open spec fn of_group(s: Seq<Difference>, tm: bool) -> Seq<Difference>
    decreases s.len(),
{
    if s.len() == 0 {
        s
    } else {
        let rest = of_group(s.drop_last(), tm);
        if (s.last().kind == DiffType::TypeMismatch) == tm {
            rest.push(s.last())
        } else {
            rest
        }
    }
}

/// Every other difference first, then the type mismatches, each group in
/// discovery order.
pub open spec fn report_order(s: Seq<Difference>) -> Seq<Difference> {
    of_group(s, false) + of_group(s, true)
}

/// The full report for two documents.
pub open spec fn diff_report(a: Json, b: Json) -> Seq<Difference> {
    report_order(diff_at(a, b, Seq::empty()))
}

/// Whether two documents agree under the rules of `diff_at`.
pub open spec fn structurally_equal(a: Json, b: Json) -> bool
    decreases a, 0nat,
{
    match a {
        Json::Object(ea) => match b {
            Json::Object(eb) => ea.len() == eb.len() && entries_equal(ea, eb, ea.len()),
            _ => false,
        },
        Json::Array(xa) => match b {
            Json::Array(xb) => xa.len() == xb.len() && elements_equal(xa, xb, xa.len()),
            _ => false,
        },
        Json::Str(x) => match b {
            Json::Str(y) => text_matches(x, y),
            _ => false,
        },
        _ => a == b,
    }
}

/// Each of the first `n` left entries has its key on the right with an equal value.
pub open spec fn entries_equal(ea: Seq<(Seq<char>, Json)>, eb: Seq<(Seq<char>, Json)>, n: nat) -> bool
    decreases ea, n,
{
    if n == 0 || n > ea.len() {
        true
    } else {
        let p = key_position(eb, ea[n - 1].0);
        entries_equal(ea, eb, (n - 1) as nat) && 0 <= p < eb.len() && structurally_equal(
            ea[n - 1].1,
            eb[p].1,
        )
    }
}

/// The first `n` element pairs are equal.
pub open spec fn elements_equal(xa: Seq<Json>, xb: Seq<Json>, n: nat) -> bool
    decreases xa, n,
{
    if n == 0 || n > xa.len() || n > xb.len() {
        true
    } else {
        elements_equal(xa, xb, (n - 1) as nat) && structurally_equal(xa[n - 1], xb[n - 1])
    }
}

/// Appends one difference.
fn record(
    diffs: &mut Vec<JsonDiff>,
    path: String,
    left: Option<JsonValue>,
    right: Option<JsonValue>,
    kind: DiffType,
)
    ensures
        diffs_model(final(diffs)@) == diffs_model(old(diffs)@) + one(
            path@,
            opt_model(left),
            opt_model(right),
            kind,
        ),
{
    let ghost before = diffs@;
    let d = JsonDiff { path, rust_value: left, sidecar_value: right, diff_type: kind };
    diffs.push(d);
    assert(diffs_model(diffs@) =~= diffs_model(before) + one(
        path@,
        opt_model(left),
        opt_model(right),
        kind,
    ));
}

fn same_kind_exec(a: &JsonValue, b: &JsonValue) -> (r: bool)
    ensures
        r == same_kind(a.model(), b.model()),
{
    match a {
        JsonValue::Null => matches!(b, JsonValue::Null),
        JsonValue::Bool(_) => matches!(b, JsonValue::Bool(_)),
        JsonValue::Number(_) => matches!(b, JsonValue::Number(_)),
        JsonValue::String(_) => matches!(b, JsonValue::String(_)),
        JsonValue::Array(_) => matches!(b, JsonValue::Array(_)),
        JsonValue::Object(_) => matches!(b, JsonValue::Object(_)),
    }
}

/// Equality of two scalars (null, booleans, numbers) of the same kind.
fn scalar_equal(a: &JsonValue, b: &JsonValue) -> (r: bool)
    requires
        same_kind(a.model(), b.model()),
        !(a.model() is Array),
        !(a.model() is Object),
        !(a.model() is Str),
    ensures
        r == (a.model() == b.model()),
{
    match a {
        JsonValue::Bool(x) => match b {
            JsonValue::Bool(y) => *x == *y,
            _ => false,
        },
        JsonValue::Number(x) => match b {
            JsonValue::Number(y) => *x == *y,
            _ => false,
        },
        _ => true,
    }
}

/// The path of field `key` below `path`.
fn join_field(path: &String, key: &String) -> (r: String)
    ensures
        r@ == field_path(path@, key@),
{
    if path.as_str().is_empty() {
        key.clone()
    } else {
        let mut p = path.clone();
        p.append(".");
        p.append(key.as_str());
        p
    }
}

/// The path of element `i` below `path`.
fn join_index(path: &String, i: usize) -> (r: String)
    ensures
        r@ == index_path(path@, i as nat),
{
    let mut p = path.clone();
    p.append("[");
    let d = decimal_text(i as u64);
    p.append(d.as_str());
    p.append("]");
    p
}

/// Appends the differences between `rust` and `sidecar` at `path`, in
/// discovery order.
fn json_diff_recursive(rust: &JsonValue, sidecar: &JsonValue, path: String, diffs: &mut Vec<JsonDiff>)
    ensures
        diffs_model(final(diffs)@) == diffs_model(old(diffs)@) + diff_at(
            rust.model(),
            sidecar.model(),
            path@,
        ),
    decreases rust,
{
    let ghost start = diffs@;
    match rust {
        JsonValue::Object(ra) => match sidecar {
            JsonValue::Object(sa) => {
                let ghost ma = rust.model()->Object_0;
                let ghost mb = sidecar.model()->Object_0;
                proof {
                    assert(ma =~= es_model(ra@));
                    assert(mb =~= es_model(sa@));
                    assert(diffs_model(diffs@) =~= diffs_model(start) + entry_diffs(ma, mb, path@, 0));
                }
                let mut i: usize = 0;
                while i < ra.len()
                    invariant
                        i <= ra.len(),
                        ma == es_model(ra@),
                        mb == es_model(sa@),
                        decreases_to!(*rust => *ra),
                        diffs_model(diffs@) == diffs_model(start) + entry_diffs(ma, mb, path@, i as nat),
                    decreases ra.len() - i,
                {
                    let fp = join_field(&path, &ra[i].0);
                    let ghost before = diffs@;
                    match find_key(sa, &ra[i].0) {
                        Some(j) => {
                            proof {
                                assert(decreases_to!(*ra => ra[i as int]));
                                assert(decreases_to!(ra[i as int] => ra[i as int].1));
                            }
                            json_diff_recursive(&ra[i].1, &sa[j].1, fp, diffs);
                        },
                        None => {
                            let v = ra[i].1.duplicate();
                            record(diffs, fp, Some(v), None, DiffType::MissingInSidecar);
                        },
                    }
                    proof {
                        assert(diffs_model(diffs@) =~= diffs_model(start) + entry_diffs(
                            ma,
                            mb,
                            path@,
                            (i + 1) as nat,
                        ));
                    }
                    i = i + 1;
                }
                let ghost mid = diffs@;
                proof {
                    assert(diffs_model(diffs@) =~= diffs_model(start) + entry_diffs(ma, mb, path@, ma.len())
                        + extra_entries(ma, mb, path@, 0));
                }
                let mut j: usize = 0;
                while j < sa.len()
                    invariant
                        j <= sa.len(),
                        ma == es_model(ra@),
                        mb == es_model(sa@),
                        diffs_model(diffs@) == diffs_model(start) + entry_diffs(ma, mb, path@, ma.len())
                            + extra_entries(ma, mb, path@, j as nat),
                    decreases sa.len() - j,
                {
                    let ghost before = diffs@;
                    if find_key(ra, &sa[j].0).is_none() {
                        let fp = join_field(&path, &sa[j].0);
                        let v = sa[j].1.duplicate();
                        record(diffs, fp, None, Some(v), DiffType::MissingInRust);
                    }
                    proof {
                        assert(diffs_model(diffs@) =~= diffs_model(start) + entry_diffs(ma, mb, path@, ma.len())
                            + extra_entries(ma, mb, path@, (j + 1) as nat));
                    }
                    j = j + 1;
                }
            },
            _ => {
                let l = rust.duplicate();
                let r = sidecar.duplicate();
                record(diffs, path, Some(l), Some(r), DiffType::TypeMismatch);
            },
        },
        JsonValue::Array(ra) => match sidecar {
            JsonValue::Array(sa) => {
                let ghost xa = rust.model()->Array_0;
                let ghost xb = sidecar.model()->Array_0;
                if ra.len() != sa.len() {
                    let l = rust.duplicate();
                    let r = sidecar.duplicate();
                    record(diffs, path.clone(), Some(l), Some(r), DiffType::ArrayLengthMismatch);
                }
                let ghost head = diffs@;
                let n = if ra.len() <= sa.len() {
                    ra.len()
                } else {
                    sa.len()
                };
                proof {
                    assert(diffs_model(diffs@) =~= diffs_model(head) + element_diffs(xa, xb, path@, 0));
                }
                let mut i: usize = 0;
                while i < n
                    invariant
                        i <= n,
                        n <= ra.len(),
                        n <= sa.len(),
                        xa.len() == ra.len(),
                        xb.len() == sa.len(),
                        forall|k: int| 0 <= k < ra.len() ==> xa[k] == (#[trigger] ra[k]).model(),
                        forall|k: int| 0 <= k < sa.len() ==> xb[k] == (#[trigger] sa[k]).model(),
                        decreases_to!(*rust => *ra),
                        diffs_model(diffs@) == diffs_model(head) + element_diffs(xa, xb, path@, i as nat),
                    decreases n - i,
                {
                    let ep = join_index(&path, i);
                    proof {
                        assert(decreases_to!(*ra => ra[i as int]));
                    }
                    let ghost before = diffs@;
                    json_diff_recursive(&ra[i], &sa[i], ep, diffs);
                    proof {
                        assert(diffs_model(diffs@) =~= diffs_model(head) + element_diffs(
                            xa,
                            xb,
                            path@,
                            (i + 1) as nat,
                        ));
                    }
                    i = i + 1;
                }
                proof {
                    assert(diffs_model(diffs@) =~= diffs_model(start) + diff_at(
                        rust.model(),
                        sidecar.model(),
                        path@,
                    ));
                }
            },
            _ => {
                let l = rust.duplicate();
                let r = sidecar.duplicate();
                record(diffs, path, Some(l), Some(r), DiffType::TypeMismatch);
            },
        },
        JsonValue::String(x) => match sidecar {
            JsonValue::String(y) => {
                let lx = lowercase(x.as_str());
                let ly = lowercase(y.as_str());
                if lx != ly {
                    let l = rust.duplicate();
                    let r = sidecar.duplicate();
                    record(diffs, path, Some(l), Some(r), DiffType::ValueMismatch);
                } else {
                    assert(diffs_model(diffs@) =~= diffs_model(start) + diff_at(
                        rust.model(),
                        sidecar.model(),
                        path@,
                    ));
                }
            },
            _ => {
                let l = rust.duplicate();
                let r = sidecar.duplicate();
                record(diffs, path, Some(l), Some(r), DiffType::TypeMismatch);
            },
        },
        _ => {
            if !same_kind_exec(rust, sidecar) {
                let l = rust.duplicate();
                let r = sidecar.duplicate();
                record(diffs, path, Some(l), Some(r), DiffType::TypeMismatch);
            } else if !scalar_equal(rust, sidecar) {
                let l = rust.duplicate();
                let r = sidecar.duplicate();
                record(diffs, path, Some(l), Some(r), DiffType::ValueMismatch);
            } else {
                assert(diffs_model(diffs@) =~= diffs_model(start) + diff_at(
                    rust.model(),
                    sidecar.model(),
                    path@,
                ));
            }
        },
    }
}

/// Finds all differences between the reference document `rust` and the
/// candidate `sidecar`. Type mismatches come last; within each group the
/// differences keep the order in which the walk found them.
pub fn json_diff(rust: &JsonValue, sidecar: &JsonValue) -> (r: Vec<JsonDiff>)
    ensures
        diffs_model(r@) == diff_report(rust.model(), sidecar.model()),
{
    let mut raw: Vec<JsonDiff> = Vec::new();
    json_diff_recursive(rust, sidecar, String::new(), &mut raw);
    let ghost all = diffs_model(raw@);
    proof {
        assert(all =~= diff_at(rust.model(), sidecar.model(), Seq::empty()));
    }
    let mut others: Vec<JsonDiff> = Vec::new();
    let mut mismatches: Vec<JsonDiff> = Vec::new();
    let ghost n = raw.len();
    proof {
        assert(all.subrange(0, 0) =~= Seq::<Difference>::empty());
        assert(diffs_model(raw@) =~= all.subrange(0, n as int));
    }
    while raw.len() > 0
        invariant
            raw.len() <= n,
            all.len() == n,
            diffs_model(raw@) == all.subrange(n - raw.len(), n as int),
            diffs_model(others@) == of_group(all.subrange(0, n - raw.len()), false),
            diffs_model(mismatches@) == of_group(all.subrange(0, n - raw.len()), true),
        decreases raw.len(),
    {
        let ghost k = n - raw.len();
        let ghost before_raw = raw@;
        let d = raw.remove(0);
        proof {
            assert(d.model() == diffs_model(before_raw)[0]);
            assert(all.subrange(0, k + 1).drop_last() =~= all.subrange(0, k));
            assert(all.subrange(0, k + 1).last() == all[k]);
            assert forall|i: int| 0 <= i < raw.len() implies #[trigger] diffs_model(raw@)[i] == all[k
                + 1 + i] by {
                assert(raw@[i] == before_raw[i + 1]);
                assert(diffs_model(before_raw)[i + 1] == all.subrange(k, n as int)[i + 1]);
            }
            assert(diffs_model(raw@) =~= all.subrange(n - raw.len(), n as int));
        }
        let ghost prev_o = others@;
        let ghost prev_m = mismatches@;
        if d.diff_type == DiffType::TypeMismatch {
            mismatches.push(d);
            proof {
                assert(diffs_model(mismatches@) =~= diffs_model(prev_m).push(all[k]));
            }
        } else {
            others.push(d);
            proof {
                assert(diffs_model(others@) =~= diffs_model(prev_o).push(all[k]));
            }
        }
    }
    let ghost o = others@;
    let ghost m = mismatches@;
    others.append(&mut mismatches);
    proof {
        assert(all.subrange(0, n as int) =~= all);
        assert(diffs_model(others@) =~= diffs_model(o) + diffs_model(m));
    }
    others
}

proof fn lemma_entries_equal_prefix(
    ea: Seq<(Seq<char>, Json)>,
    eb: Seq<(Seq<char>, Json)>,
    m: nat,
    n: nat,
)
    requires
        m <= n <= ea.len(),
        entries_equal(ea, eb, n),
    ensures
        entries_equal(ea, eb, m),
    decreases n,
{
    if m < n {
        lemma_entries_equal_prefix(ea, eb, m, (n - 1) as nat);
    }
}

proof fn lemma_elements_equal_prefix(xa: Seq<Json>, xb: Seq<Json>, m: nat, n: nat)
    requires
        m <= n <= xa.len(),
        n <= xb.len(),
        elements_equal(xa, xb, n),
    ensures
        elements_equal(xa, xb, m),
    decreases n,
{
    if m < n {
        lemma_elements_equal_prefix(xa, xb, m, (n - 1) as nat);
    }
}

/// Compares two documents: true exactly when `json_diff` would find nothing
/// (for well-formed documents, see `lemma_diff_empty_iff_equal`).
pub fn json_equal(a: &JsonValue, b: &JsonValue) -> (r: bool)
    ensures
        r == structurally_equal(a.model(), b.model()),
    decreases a,
{
    match a {
        JsonValue::Object(am) => match b {
            JsonValue::Object(bm) => {
                if am.len() != bm.len() {
                    return false;
                }
                let ghost ma = a.model()->Object_0;
                let ghost mb = b.model()->Object_0;
                proof {
                    assert(ma =~= es_model(am@));
                    assert(mb =~= es_model(bm@));
                }
                let mut i: usize = 0;
                while i < am.len()
                    invariant
                        i <= am.len(),
                        ma == es_model(am@),
                        mb == es_model(bm@),
                        ma.len() == mb.len(),
                        decreases_to!(*a => *am),
                        entries_equal(ma, mb, i as nat),
                        structurally_equal(a.model(), b.model()) == entries_equal(ma, mb, ma.len()),
                    decreases am.len() - i,
                {
                    match find_key(bm, &am[i].0) {
                        None => {
                            proof {
                                if entries_equal(ma, mb, ma.len()) {
                                    lemma_entries_equal_prefix(ma, mb, (i + 1) as nat, ma.len());
                                }
                            }
                            return false;
                        },
                        Some(j) => {
                            proof {
                                assert(decreases_to!(*am => am[i as int]));
                                assert(decreases_to!(am[i as int] => am[i as int].1));
                            }
                            if !json_equal(&am[i].1, &bm[j].1) {
                                proof {
                                    if entries_equal(ma, mb, ma.len()) {
                                        lemma_entries_equal_prefix(ma, mb, (i + 1) as nat, ma.len());
                                    }
                                }
                                return false;
                            }
                        },
                    }
                    i = i + 1;
                }
                true
            },
            _ => false,
        },
        JsonValue::Array(xs) => match b {
            JsonValue::Array(ys) => {
                if xs.len() != ys.len() {
                    return false;
                }
                let ghost xa = a.model()->Array_0;
                let ghost xb = b.model()->Array_0;
                let mut i: usize = 0;
                while i < xs.len()
                    invariant
                        i <= xs.len(),
                        xs.len() == ys.len(),
                        xa.len() == xs.len(),
                        xb.len() == ys.len(),
                        forall|k: int| 0 <= k < xs.len() ==> xa[k] == (#[trigger] xs[k]).model(),
                        forall|k: int| 0 <= k < ys.len() ==> xb[k] == (#[trigger] ys[k]).model(),
                        decreases_to!(*a => *xs),
                        elements_equal(xa, xb, i as nat),
                        structurally_equal(a.model(), b.model()) == elements_equal(xa, xb, xa.len()),
                    decreases xs.len() - i,
                {
                    proof {
                        assert(decreases_to!(*xs => xs[i as int]));
                    }
                    if !json_equal(&xs[i], &ys[i]) {
                        proof {
                            if elements_equal(xa, xb, xa.len()) {
                                lemma_elements_equal_prefix(xa, xb, (i + 1) as nat, xa.len());
                            }
                        }
                        return false;
                    }
                    i = i + 1;
                }
                true
            },
            _ => false,
        },
        JsonValue::String(x) => match b {
            JsonValue::String(y) => {
                let lx = lowercase(x.as_str());
                let ly = lowercase(y.as_str());
                lx == ly
            },
            _ => false,
        },
        _ => {
            if !same_kind_exec(a, b) {
                false
            } else {
                scalar_equal(a, b)
            }
        },
    }
}

/// The short name of a value's JSON kind, `null` for a missing value.
pub open spec fn kind_name(v: Option<Json>) -> Seq<char> {
    match v {
        None => "null"@,
        Some(Json::Null) => "null"@,
        Some(Json::Bool(_)) => "bool"@,
        Some(Json::Number(_)) => "number"@,
        Some(Json::Str(_)) => "string"@,
        Some(Json::Array(_)) => "array"@,
        Some(Json::Object(_)) => "object"@,
    }
}

/// The short name of a value's JSON kind, as difference reports show it.
pub fn value_type_name(v: Option<&JsonValue>) -> (r: &'static str)
    ensures
        r@ == kind_name(
            match v {
                Some(x) => Some(x.model()),
                None => None,
            },
        ),
{
    match v {
        None => "null",
        Some(JsonValue::Null) => "null",
        Some(JsonValue::Bool(_)) => "bool",
        Some(JsonValue::Number(_)) => "number",
        Some(JsonValue::String(_)) => "string",
        Some(JsonValue::Array(_)) => "array",
        Some(JsonValue::Object(_)) => "object",
    }
}

} // verus!
