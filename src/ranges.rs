//! Sets of tested identifiers, kept as sorted, merged inclusive ranges.
//!
//! A list of ranges is normalized when every range is non-empty and any two
//! of them are separated by at least one identifier that neither covers. A
//! normalized list is fixed by the identifiers it covers, so merging is
//! idempotent and the order of insertion does not matter.
use vstd::prelude::*;
use vstd::seq_lib::*;
use crate::text::{decimal, decimal_text};

verus! {

broadcast use vstd::seq_lib::group_to_multiset_ensures;

/// Identifier `x` lies in one of the ranges.
pub open spec fn covers(rs: Seq<(u32, u32)>, x: int) -> bool {
    exists|i: int| 0 <= i < rs.len() && #[trigger] rs[i].0 <= x <= rs[i].1
}

/// Non-empty ranges in ascending order, any two with a gap of at least one.
pub open spec fn normalized(rs: Seq<(u32, u32)>) -> bool {
    &&& forall|i: int| 0 <= i < rs.len() ==> (#[trigger] rs[i]).0 <= rs[i].1
    &&& forall|i: int, j: int| 0 <= i < j < rs.len() ==> (#[trigger] rs[i]).1 + 1 < (#[trigger] rs[j]).0
}

pub open spec fn same_coverage(a: Seq<(u32, u32)>, b: Seq<(u32, u32)>) -> bool {
    forall|x: int| covers(a, x) == covers(b, x)
}

/// `merged` is the normalized form of `ranges`.
pub open spec fn merge_of(ranges: Seq<(u32, u32)>, merged: Seq<(u32, u32)>) -> bool {
    normalized(merged) && same_coverage(merged, ranges)
}

pub open spec fn sorted_by_start(rs: Seq<(u32, u32)>) -> bool {
    forall|i: int, j: int| 0 <= i < j < rs.len() ==> (#[trigger] rs[i]).0 <= (#[trigger] rs[j]).0
}

/// Relies on `slice::sort_by_key`: the same ranges, ordered by start.
#[verifier::external_body]
fn sort_by_start(v: &mut Vec<(u32, u32)>)
    ensures
        final(v)@.to_multiset() == old(v)@.to_multiset(),
        sorted_by_start(final(v)@),
{
    v.sort_by_key(|r| r.0);
}

proof fn lemma_same_elements_same_coverage(a: Seq<(u32, u32)>, b: Seq<(u32, u32)>)
    requires
        a.to_multiset() == b.to_multiset(),
    ensures
        same_coverage(a, b),
{
    assert forall|x: int| covers(a, x) implies covers(b, x) by {
        let i = choose|i: int| 0 <= i < a.len() && #[trigger] a[i].0 <= x <= a[i].1;
        assert(a.to_multiset().count(a[i]) > 0);
        assert(b.contains(a[i]));
        let j = choose|j: int| 0 <= j < b.len() && b[j] == a[i];
        assert(b[j].0 <= x <= b[j].1);
    }
    assert forall|x: int| covers(b, x) implies covers(a, x) by {
        let i = choose|i: int| 0 <= i < b.len() && #[trigger] b[i].0 <= x <= b[i].1;
        assert(b.to_multiset().count(b[i]) > 0);
        assert(a.contains(b[i]));
        let j = choose|j: int| 0 <= j < a.len() && a[j] == b[i];
        assert(a[j].0 <= x <= a[j].1);
    }
}

/// Coverage of `rs` with the current open range `cur` added.
pub open spec fn covers_with(rs: Seq<(u32, u32)>, cur: Option<(u32, u32)>, x: int) -> bool {
    covers(rs, x) || match cur {
        Some(c) => c.0 <= x <= c.1,
        None => false,
    }
}

/// Brings a list of ranges into normalized form: sorts them by start, then
/// merges every range that overlaps or touches the one before it. Empty
/// ranges (start after end) cover nothing and are dropped.
pub fn merge_ranges(ranges: &mut Vec<(u32, u32)>)
    ensures
        merge_of(old(ranges)@, final(ranges)@),
{
    let ghost orig = ranges@;
    sort_by_start(ranges);
    proof {
        lemma_same_elements_same_coverage(orig, ranges@);
    }
    let ghost sorted = ranges@;
    let mut merged: Vec<(u32, u32)> = Vec::new();
    let mut cur: Option<(u32, u32)> = None;
    let mut i: usize = 0;
    while i < ranges.len()
        invariant
            i <= ranges.len(),
            ranges@ == sorted,
            sorted_by_start(sorted),
            normalized(merged@),
            match cur {
                Some(c) => {
                    &&& c.0 <= c.1
                    &&& forall|k: int| 0 <= k < merged@.len() ==> (#[trigger] merged@[k]).1 + 1 < c.0
                    &&& forall|k: int| i <= k < sorted.len() ==> c.0 <= (#[trigger] sorted[k]).0
                },
                None => merged@.len() == 0,
            },
            forall|x: int| covers_with(merged@, cur, x) == covers(sorted.subrange(0, i as int), x),
        decreases ranges.len() - i,
    {
        let (s, e) = ranges[i];
        let ghost cur0 = cur;
        let ghost prev = sorted.subrange(0, i as int);
        let ghost next = sorted.subrange(0, i + 1);
        proof {
            assert(next =~= prev.push((s, e)));
            assert forall|x: int| covers(next, x) == (covers(prev, x) || s <= x <= e) by {
                if covers(next, x) {
                    let k = choose|k: int| 0 <= k < next.len() && #[trigger] next[k].0 <= x <= next[k].1;
                    if k < prev.len() {
                        assert(prev[k] == next[k]);
                    }
                }
                if covers(prev, x) {
                    let k = choose|k: int| 0 <= k < prev.len() && #[trigger] prev[k].0 <= x <= prev[k].1;
                    assert(next[k] == prev[k]);
                }
                if s <= x <= e {
                    assert(next[i as int] == (s, e));
                }
            }
        }
        if s <= e {
            match cur {
                None => {
                    cur = Some((s, e));
                    assert forall|k: int| i + 1 <= k < sorted.len() implies s <= (
                    #[trigger] sorted[k]).0 by {
                        assert(sorted[i as int].0 <= sorted[k].0);
                    }
                    assert forall|x: int| covers_with(merged@, cur, x) == covers(next, x) by {
                        assert(covers_with(merged@, cur0, x) == covers(prev, x));
                    }
                },
                Some((cs, ce)) => {
                    assert(cs <= sorted[i as int].0);
                    if (s as u64) <= (ce as u64) + 1 {
                        let ne = if e > ce {
                            e
                        } else {
                            ce
                        };
                        cur = Some((cs, ne));
                        assert forall|x: int|
                            covers_with(merged@, cur, x) == covers(next, x) by {
                            assert(covers_with(merged@, cur0, x) == covers(prev, x));
                        }
                    } else {
                        let ghost old_m = merged@;
                        merged.push((cs, ce));
                        proof {
                            assert forall|x: int|
                                covers(merged@, x) == (covers(old_m, x) || cs <= x <= ce) by {
                                if covers(merged@, x) {
                                    let k = choose|k: int|
                                        0 <= k < merged@.len() && #[trigger] merged@[k].0 <= x
                                            <= merged@[k].1;
                                    if k < old_m.len() {
                                        assert(old_m[k] == merged@[k]);
                                    }
                                }
                                if covers(old_m, x) {
                                    let k = choose|k: int|
                                        0 <= k < old_m.len() && #[trigger] old_m[k].0 <= x <= old_m[k].1;
                                    assert(merged@[k] == old_m[k]);
                                }
                                if cs <= x <= ce {
                                    assert(merged@[old_m.len() as int] == (cs, ce));
                                }
                            }
                        }
                        cur = Some((s, e));
                        assert forall|k: int| 0 <= k < merged@.len() implies (#[trigger] merged@[k]).1
                            + 1 < s by {
                            if k < old_m.len() {
                                assert(merged@[k] == old_m[k]);
                            }
                        }
                        assert forall|k: int| i + 1 <= k < sorted.len() implies s <= (
                        #[trigger] sorted[k]).0 by {
                            assert(sorted[i as int].0 <= sorted[k].0);
                        }
                        assert forall|a: int, b: int| 0 <= a < b < merged@.len() implies (
                        #[trigger] merged@[a]).1 + 1 < (#[trigger] merged@[b]).0 by {
                            assert(merged@[a] == old_m[a]);
                            if b < old_m.len() {
                                assert(merged@[b] == old_m[b]);
                            }
                        }
                        assert forall|x: int|
                            covers_with(merged@, cur, x) == covers(next, x) by {
                            assert(cur0 == Some((cs, ce)));
                            assert(covers_with(old_m, cur0, x) == covers(prev, x));
                            assert(covers(merged@, x) == (covers(old_m, x) || cs <= x <= ce));
                        }
                    }
                },
            }
        }
        else {
            assert forall|x: int| covers_with(merged@, cur, x) == covers(next, x) by {
                assert(covers_with(merged@, cur0, x) == covers(prev, x));
            }
        }
        i = i + 1;
    }
    match cur {
        Some(c) => {
            let ghost old_m = merged@;
            merged.push(c);
            proof {
                assert forall|a: int, b: int| 0 <= a < b < merged@.len() implies (
                #[trigger] merged@[a]).1 + 1 < (#[trigger] merged@[b]).0 by {
                    assert(merged@[a] == old_m[a]);
                    if b < old_m.len() {
                        assert(merged@[b] == old_m[b]);
                    }
                }
                assert forall|x: int| covers(merged@, x) == covers_with(old_m, cur, x) by {
                    if covers(merged@, x) {
                        let k = choose|k: int|
                            0 <= k < merged@.len() && #[trigger] merged@[k].0 <= x <= merged@[k].1;
                        if k < old_m.len() {
                            assert(old_m[k] == merged@[k]);
                        }
                    }
                    if covers(old_m, x) {
                        let k = choose|k: int| 0 <= k < old_m.len() && #[trigger] old_m[k].0 <= x <= old_m[k].1;
                        assert(merged@[k] == old_m[k]);
                    }
                    if c.0 <= x <= c.1 {
                        assert(merged@[old_m.len() as int] == c);
                    }
                    assert(covers_with(old_m, cur, x) == covers(sorted.subrange(0, sorted.len() as int), x));
                }
            }
        },
        None => {},
    }
    proof {
        assert(sorted.subrange(0, sorted.len() as int) =~= sorted);
        assert forall|x: int| covers(merged@, x) == covers(orig, x) by {
            assert(covers_with(merged@, None, x) == covers(merged@, x));
        }
    }
    *ranges = merged;
}

proof fn lemma_covers_push(rs: Seq<(u32, u32)>, r: (u32, u32))
    ensures
        forall|x: int| #[trigger] covers(rs.push(r), x) == (covers(rs, x) || r.0 <= x <= r.1),
{
    assert forall|x: int| covers(rs.push(r), x) == (covers(rs, x) || r.0 <= x <= r.1) by {
        let t = rs.push(r);
        if covers(t, x) {
            let k = choose|k: int| 0 <= k < t.len() && #[trigger] t[k].0 <= x <= t[k].1;
            if k < rs.len() {
                assert(rs[k] == t[k]);
            }
        }
        if covers(rs, x) {
            let k = choose|k: int| 0 <= k < rs.len() && #[trigger] rs[k].0 <= x <= rs[k].1;
            assert(t[k] == rs[k]);
        }
        if r.0 <= x <= r.1 {
            assert(t[rs.len() as int] == r);
        }
    }
}

/// In a normalized list every covered identifier lies at or after the first
/// start, nothing just past the first range is covered, and the rest of the
/// list covers exactly what lies beyond that gap.
proof fn lemma_first_range(a: Seq<(u32, u32)>)
    requires
        normalized(a),
        a.len() > 0,
    ensures
        forall|x: int| covers(a, x) ==> a[0].0 <= x,
        !covers(a, a[0].1 + 1),
        forall|x: int| a[0].0 <= x <= a[0].1 ==> covers(a, x),
        normalized(a.drop_first()),
        forall|x: int| covers(a.drop_first(), x) == (covers(a, x) && x > a[0].1),
{
    let t = a.drop_first();
    assert forall|x: int| covers(a, x) implies a[0].0 <= x by {
        let k = choose|k: int| 0 <= k < a.len() && #[trigger] a[k].0 <= x <= a[k].1;
        if k > 0 {
            assert(a[0].1 + 1 < a[k].0);
        }
    }
    if covers(a, a[0].1 + 1) {
        let k = choose|k: int| 0 <= k < a.len() && #[trigger] a[k].0 <= a[0].1 + 1 <= a[k].1;
        if k > 0 {
            assert(a[0].1 + 1 < a[k].0);
        }
    }
    assert forall|x: int| a[0].0 <= x <= a[0].1 implies covers(a, x) by {
        assert(a[0].0 <= x <= a[0].1);
    }
    assert forall|i: int, j: int| 0 <= i < j < t.len() implies (#[trigger] t[i]).1 + 1 < (
    #[trigger] t[j]).0 by {
        assert(t[i] == a[i + 1]);
        assert(t[j] == a[j + 1]);
    }
    assert forall|i: int| 0 <= i < t.len() implies (#[trigger] t[i]).0 <= t[i].1 by {
        assert(t[i] == a[i + 1]);
    }
    assert forall|x: int| covers(t, x) == (covers(a, x) && x > a[0].1) by {
        if covers(t, x) {
            let k = choose|k: int| 0 <= k < t.len() && #[trigger] t[k].0 <= x <= t[k].1;
            assert(t[k] == a[k + 1]);
            assert(a[0].1 + 1 < a[k + 1].0);
        }
        if covers(a, x) && x > a[0].1 {
            let k = choose|k: int| 0 <= k < a.len() && #[trigger] a[k].0 <= x <= a[k].1;
            assert(k > 0);
            assert(t[k - 1] == a[k]);
        }
    }
}

/// A normalized list is fixed by the identifiers it covers.
pub proof fn lemma_normal_form_unique(a: Seq<(u32, u32)>, b: Seq<(u32, u32)>)
    requires
        normalized(a),
        normalized(b),
        same_coverage(a, b),
    ensures
        a == b,
    decreases a.len(),
{
    if a.len() == 0 || b.len() == 0 {
        if a.len() > 0 {
            lemma_first_range(a);
            assert(covers(a, a[0].0 as int));
        }
        if b.len() > 0 {
            lemma_first_range(b);
            assert(covers(b, b[0].0 as int));
        }
        assert(a =~= b);
    } else {
        lemma_first_range(a);
        lemma_first_range(b);
        assert(covers(a, a[0].0 as int));
        assert(covers(b, b[0].0 as int));
        assert(a[0].0 == b[0].0);
        if a[0].1 < b[0].1 {
            assert(covers(b, a[0].1 + 1));
        }
        if b[0].1 < a[0].1 {
            assert(covers(a, b[0].1 + 1));
        }
        assert(a[0] == b[0]);
        let ta = a.drop_first();
        let tb = b.drop_first();
        assert forall|x: int| covers(ta, x) == covers(tb, x) by {
            assert(covers(a, x) == covers(b, x));
        }
        lemma_normal_form_unique(ta, tb);
        assert forall|i: int| 0 <= i < a.len() implies a[i] == b[i] by {
            if i > 0 {
                assert(a[i] == ta[i - 1]);
                assert(b[i] == tb[i - 1]);
            }
        }
        assert(a =~= b);
    }
}

/// Merging is idempotent: adding the same range a second time changes nothing.
pub proof fn lemma_merge_idempotent(
    ranges: Seq<(u32, u32)>,
    r: (u32, u32),
    once: Seq<(u32, u32)>,
    twice: Seq<(u32, u32)>,
)
    requires
        merge_of(ranges.push(r), once),
        merge_of(once.push(r), twice),
    ensures
        twice == once,
{
    lemma_covers_push(ranges, r);
    lemma_covers_push(once, r);
    assert forall|x: int| covers(twice, x) == covers(once, x) by {
        assert(covers(twice, x) == covers(once.push(r), x));
        assert(covers(once, x) == covers(ranges.push(r), x));
    }
    lemma_normal_form_unique(twice, once);
}

/// The order in which two ranges are added does not change the result.
pub proof fn lemma_merge_order_free(
    ranges: Seq<(u32, u32)>,
    p: (u32, u32),
    q: (u32, u32),
    with_p: Seq<(u32, u32)>,
    with_pq: Seq<(u32, u32)>,
    with_q: Seq<(u32, u32)>,
    with_qp: Seq<(u32, u32)>,
)
    requires
        merge_of(ranges.push(p), with_p),
        merge_of(with_p.push(q), with_pq),
        merge_of(ranges.push(q), with_q),
        merge_of(with_q.push(p), with_qp),
    ensures
        with_pq == with_qp,
{
    lemma_covers_push(ranges, p);
    lemma_covers_push(ranges, q);
    lemma_covers_push(with_p, q);
    lemma_covers_push(with_q, p);
    assert forall|x: int| covers(with_pq, x) == covers(with_qp, x) by {
        assert(covers(with_pq, x) == covers(with_p.push(q), x));
        assert(covers(with_p, x) == covers(ranges.push(p), x));
        assert(covers(with_qp, x) == covers(with_q.push(p), x));
        assert(covers(with_q, x) == covers(ranges.push(q), x));
    }
    lemma_normal_form_unique(with_pq, with_qp);
}

/// One range as text: `start-end`.
pub open spec fn range_text(r: (u32, u32)) -> Seq<char> {
    decimal(r.0 as nat) + "-"@ + decimal(r.1 as nat)
}

/// The ranges as text, separated by `, `.
pub open spec fn ranges_text(rs: Seq<(u32, u32)>) -> Seq<char>
    decreases rs.len(),
{
    if rs.len() <= 1 {
        if rs.len() == 0 {
            Seq::empty()
        } else {
            range_text(rs[0])
        }
    } else {
        ranges_text(rs.drop_last()) + ", "@ + range_text(rs.last())
    }
}

/// Renders ranges for reports: `none` for no range, else `0-100, 500-600`.
pub fn format_ranges(ranges: &[(u32, u32)]) -> (r: String)
    ensures
        r@ == if ranges@.len() == 0 {
            "none"@
        } else {
            ranges_text(ranges@)
        },
{
    if ranges.len() == 0 {
        return String::from_str("none");
    }
    let mut out = String::new();
    let mut i: usize = 0;
    while i < ranges.len()
        invariant
            i <= ranges@.len(),
            ranges@.len() > 0,
            out@ == ranges_text(ranges@.subrange(0, i as int)),
        decreases ranges@.len() - i,
    {
        let ghost before = out@;
        let ghost prefix = ranges@.subrange(0, i + 1);
        proof {
            assert(prefix.drop_last() =~= ranges@.subrange(0, i as int));
            assert(prefix.last() == ranges@[i as int]);
        }
        if i > 0 {
            out.append(", ");
        }
        let (s, e) = ranges[i];
        let a = decimal_text(s as u64);
        let b = decimal_text(e as u64);
        out.append(a.as_str());
        out.append("-");
        out.append(b.as_str());
        proof {
            if i == 0 {
                assert(ranges_text(ranges@.subrange(0, 0)) =~= Seq::<char>::empty());
                assert(out@ =~= range_text(prefix[0]));
            } else {
                assert(out@ =~= before + ", "@ + range_text(prefix.last()));
            }
        }
        i = i + 1;
    }
    assert(ranges@.subrange(0, i as int) =~= ranges@);
    out
}

} // verus!
