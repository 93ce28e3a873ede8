//! The decisions of a batch scan: how an identifier range splits into
//! windows, how the outcomes of a window fold into the run's counters and
//! issue log, and how the two-phase (per-extrinsic) scan finds its fan-out.
//! Fetching, spawning and sleeping are left to the caller.
use vstd::prelude::*;
use crate::compare::TestResult;
use crate::diff::JsonDiff;
use crate::json::{JsonValue, Json, key_position, es_model, find_key};
use crate::chains::Pallet;
use crate::text::{has_part, lower_of, lowercase, text_contains, parse_u32, parsed_u32};

verus! {

/// Why an identifier is in the issue log.
#[derive(Debug)]
pub enum IssueKind {
    /// Both servers answered differently; the differences found.
    Mismatch(Vec<JsonDiff>),
    /// Only the reference server failed, with this message.
    RustError(String),
    /// Only the candidate server failed, with this message.
    SidecarError(String),
    /// Both servers failed, with different messages.
    BothErrors { rust_error: String, sidecar_error: String },
    /// The count lookup of a two-phase scan failed, with this message.
    LookupFailed(String),
    /// The count lookup of a two-phase scan answered without an extrinsic list.
    LookupUnreadable,
}

/// One entry of the issue log.
#[derive(Debug)]
pub struct Issue {
    pub id: u64,
    pub kind: IssueKind,
}

/// Counters and issue log of one scan (of one endpoint, or of one pallet).
#[derive(Debug)]
pub struct RunTally {
    pub matched: u32,
    pub mismatched: u32,
    pub rust_errors: u32,
    pub sidecar_errors: u32,
    /// Both servers failed with different messages.
    pub both_errors: u32,
    pub issues: Vec<Issue>,
}

impl RunTally {
    /// The identifiers counted so far.
    pub open spec fn total(self) -> int {
        self.matched + self.mismatched + self.rust_errors + self.sidecar_errors + self.both_errors
    }

    pub fn new() -> (r: Self)
        ensures
            r.matched == 0,
            r.mismatched == 0,
            r.rust_errors == 0,
            r.sidecar_errors == 0,
            r.both_errors == 0,
            r.total() == 0,
            r.issues@.len() == 0,
    {
        RunTally {
            matched: 0,
            mismatched: 0,
            rust_errors: 0,
            sidecar_errors: 0,
            both_errors: 0,
            issues: Vec::new(),
        }
    }

    /// Whether any mismatch or error was counted.
    pub fn has_issues(&self) -> (r: bool)
        ensures
            r == (self.mismatched > 0 || self.rust_errors > 0 || self.sidecar_errors > 0
                || self.both_errors > 0),
    {
        self.mismatched > 0 || self.rust_errors > 0 || self.sidecar_errors > 0
            || self.both_errors > 0
    }

    /// `self` is `old` with the outcome `result` for identifier `id` folded in.
    pub open spec fn after(self, old: RunTally, id: u64, result: TestResult) -> bool {
        &&& self.matched == old.matched + counts_as_match(result) as int
        &&& self.mismatched == old.mismatched + (result is Mismatch) as int
        &&& self.rust_errors == old.rust_errors + (result is RustError) as int
        &&& self.sidecar_errors == old.sidecar_errors + (result is SidecarError) as int
        &&& self.both_errors == old.both_errors + errors_differ(result) as int
        &&& self.issues@ == old.issues@ + issue_of(id, result)
    }

    /// Folds the outcome for identifier `id` into the counters. Each outcome
    /// counts once; both servers failing with the same message counts as a
    /// match and is not logged, every other non-match is logged.
    pub fn process_result(&mut self, id: u64, result: TestResult)
        requires
            old(self).total() < u32::MAX,
        ensures
            final(self).after(*old(self), id, result),
    {
        let ghost iss0 = self.issues@;
        let ghost r0 = result;
        match result {
            TestResult::Match => {
                self.matched = self.matched + 1;
            },
            TestResult::Mismatch { rust_response: _, sidecar_response: _, diffs } => {
                self.mismatched = self.mismatched + 1;
                self.issues.push(Issue { id, kind: IssueKind::Mismatch(diffs) });
            },
            TestResult::RustError(e) => {
                self.rust_errors = self.rust_errors + 1;
                self.issues.push(Issue { id, kind: IssueKind::RustError(e) });
            },
            TestResult::SidecarError(e) => {
                self.sidecar_errors = self.sidecar_errors + 1;
                self.issues.push(Issue { id, kind: IssueKind::SidecarError(e) });
            },
            TestResult::BothError { rust_error, sidecar_error } => {
                if rust_error == sidecar_error {
                    self.matched = self.matched + 1;
                } else {
                    self.both_errors = self.both_errors + 1;
                    self.issues.push(
                        Issue { id, kind: IssueKind::BothErrors { rust_error, sidecar_error } },
                    );
                }
            },
        }
        assert(self.issues@ =~= iss0 + issue_of(id, r0));
    }

    /// Folds a whole window of outcomes, in order. Every identifier of the
    /// window is counted exactly once.
    pub fn process_batch(&mut self, results: Vec<(u64, TestResult)>)
        requires
            old(self).total() + results@.len() <= u32::MAX,
        ensures
            final(self).total() == old(self).total() + results@.len(),
            final(self).matched == old(self).matched + matched_in(results@),
            final(self).mismatched == old(self).mismatched + mismatched_in(results@),
            final(self).rust_errors == old(self).rust_errors + rust_errors_in(results@),
            final(self).sidecar_errors == old(self).sidecar_errors + sidecar_errors_in(results@),
            final(self).both_errors == old(self).both_errors + both_errors_in(results@),
            final(self).issues@ == old(self).issues@ + issues_of(results@),
    {
        let mut results = results;
        let ghost all = results@;
        let ghost n = results@.len();
        let ghost start = *self;
        proof {
            assert(all.subrange(0, 0) =~= Seq::<(u64, TestResult)>::empty());
            assert(results@ =~= all.subrange(0, n as int));
            assert(start.issues@ + issues_of(all.subrange(0, 0)) =~= start.issues@);
        }
        while results.len() > 0
            invariant
                results@.len() <= n,
                all.len() == n,
                results@ == all.subrange(n - results@.len(), n as int),
                self.matched == start.matched + matched_in(all.subrange(0, n - results@.len())),
                self.mismatched == start.mismatched + mismatched_in(all.subrange(0, n - results@.len())),
                self.rust_errors == start.rust_errors + rust_errors_in(all.subrange(0, n - results@.len())),
                self.sidecar_errors == start.sidecar_errors + sidecar_errors_in(
                    all.subrange(0, n - results@.len()),
                ),
                self.both_errors == start.both_errors + both_errors_in(all.subrange(0, n - results@.len())),
                self.issues@ == start.issues@ + issues_of(all.subrange(0, n - results@.len())),
                self.total() == start.total() + (n - results@.len()),
                start.total() + n <= u32::MAX,
            decreases results.len(),
        {
            let ghost k = n - results@.len();
            let ghost before = results@;
            let ghost prev = *self;
            let (id, result) = results.remove(0);
            proof {
                assert((id, result) == all[k]);
                assert(all.subrange(0, k + 1).drop_last() =~= all.subrange(0, k));
                assert(all.subrange(0, k + 1).last() == all[k]);
                assert forall|i: int| 0 <= i < results@.len() implies #[trigger] results@[i] == all[k + 1
                    + i] by {
                    assert(results@[i] == before[i + 1]);
                }
                assert(results@ =~= all.subrange(n - results@.len(), n as int));
            }
            self.process_result(id, result);
            proof {
                assert(self.issues@ =~= start.issues@ + issues_of(all.subrange(0, k + 1)));
            }
        }
        proof {
            assert(all.subrange(0, n as int) =~= all);
        }
    }

    /// Records that the count lookup for `id` failed: it counts as a
    /// reference-side error and is logged.
    pub fn record_lookup_failure(&mut self, id: u64, message: String)
        requires
            old(self).total() < u32::MAX,
        ensures
            final(self).rust_errors == old(self).rust_errors + 1,
            final(self).matched == old(self).matched,
            final(self).mismatched == old(self).mismatched,
            final(self).sidecar_errors == old(self).sidecar_errors,
            final(self).both_errors == old(self).both_errors,
            final(self).issues@ == old(self).issues@.push(
                Issue { id, kind: IssueKind::LookupFailed(message) },
            ),
    {
        self.rust_errors = self.rust_errors + 1;
        self.issues.push(Issue { id, kind: IssueKind::LookupFailed(message) });
    }
}

/// Both servers failed, with the same message: counted as a match.
pub open spec fn errors_agree(r: TestResult) -> bool {
    r is BothError && r->BothError_rust_error@ == r->BothError_sidecar_error@
}

/// Both servers failed, with different messages.
pub open spec fn errors_differ(r: TestResult) -> bool {
    r is BothError && r->BothError_rust_error@ != r->BothError_sidecar_error@
}

pub open spec fn counts_as_match(r: TestResult) -> bool {
    r is Match || errors_agree(r)
}

/// The issue log entry an outcome makes: none for a match.
pub open spec fn issue_of(id: u64, r: TestResult) -> Seq<Issue> {
    match r {
        TestResult::Match => Seq::empty(),
        TestResult::Mismatch { diffs, .. } => seq![Issue { id, kind: IssueKind::Mismatch(diffs) }],
        TestResult::RustError(e) => seq![Issue { id, kind: IssueKind::RustError(e) }],
        TestResult::SidecarError(e) => seq![Issue { id, kind: IssueKind::SidecarError(e) }],
        TestResult::BothError { rust_error, sidecar_error } => if rust_error@ == sidecar_error@ {
            Seq::empty()
        } else {
            seq![Issue { id, kind: IssueKind::BothErrors { rust_error, sidecar_error } }]
        },
    }
}

/// How many outcomes of `rs` satisfy `p`.
pub open spec fn count_in(rs: Seq<(u64, TestResult)>, p: spec_fn(TestResult) -> bool) -> int
    decreases rs.len(),
{
    if rs.len() == 0 {
        0
    } else {
        count_in(rs.drop_last(), p) + p(rs.last().1) as int
    }
}

pub open spec fn matched_in(rs: Seq<(u64, TestResult)>) -> int {
    count_in(rs, |r: TestResult| counts_as_match(r))
}

pub open spec fn mismatched_in(rs: Seq<(u64, TestResult)>) -> int {
    count_in(rs, |r: TestResult| r is Mismatch)
}

pub open spec fn rust_errors_in(rs: Seq<(u64, TestResult)>) -> int {
    count_in(rs, |r: TestResult| r is RustError)
}

pub open spec fn sidecar_errors_in(rs: Seq<(u64, TestResult)>) -> int {
    count_in(rs, |r: TestResult| r is SidecarError)
}

pub open spec fn both_errors_in(rs: Seq<(u64, TestResult)>) -> int {
    count_in(rs, |r: TestResult| errors_differ(r))
}

/// Every outcome of a window lands in exactly one counter: the five counts
/// add up to the number of outcomes (identical failures on both sides count
/// as matches, and only there).
pub proof fn lemma_counts_add_up(rs: Seq<(u64, TestResult)>)
    ensures
        matched_in(rs) + mismatched_in(rs) + rust_errors_in(rs) + sidecar_errors_in(rs)
            + both_errors_in(rs) == rs.len(),
    decreases rs.len(),
{
    if rs.len() > 0 {
        lemma_counts_add_up(rs.drop_last());
    }
}

/// Both servers failing with the same message counts as one match and
/// leaves the issue log as it was.
pub proof fn lemma_identical_failures_match(
    before: RunTally,
    after: RunTally,
    id: u64,
    rust_error: String,
    sidecar_error: String,
)
    requires
        rust_error@ == sidecar_error@,
        after.after(before, id, TestResult::BothError { rust_error, sidecar_error }),
    ensures
        after.matched == before.matched + 1,
        after.mismatched == before.mismatched,
        after.rust_errors == before.rust_errors,
        after.sidecar_errors == before.sidecar_errors,
        after.both_errors == before.both_errors,
        after.issues@ == before.issues@,
{
    assert(before.issues@ + Seq::<Issue>::empty() =~= before.issues@);
}

/// The issue log entries of a window, in order.
pub open spec fn issues_of(rs: Seq<(u64, TestResult)>) -> Seq<Issue>
    decreases rs.len(),
{
    if rs.len() == 0 {
        Seq::empty()
    } else {
        issues_of(rs.drop_last()) + issue_of(rs.last().0, rs.last().1)
    }
}

/// The `i`-th window of `start..=end` in windows of `size`.
pub open spec fn window(start: u32, end: u32, size: u32, i: int) -> (u32, u32) {
    let lo = start + i * size;
    let hi = if lo + size - 1 <= end {
        lo + size - 1
    } else {
        end as int
    };
    (lo as u32, hi as u32)
}

/// How many windows of `size` cover `start..=end`.
pub open spec fn window_count(start: u32, end: u32, size: u32) -> int {
    if start > end {
        0
    } else {
        (end - start + size) / size as int
    }
}

/// The windows cover `start..=end` exactly once: the first starts at
/// `start`, each is non-empty and ends just before the next begins, and the
/// last ends at `end`. With one outcome per identifier of each window, a
/// scan's counters therefore add up to the number of identifiers in the range.
pub proof fn lemma_windows_partition(start: u32, end: u32, size: u32)
    requires
        start <= end,
        size > 0,
    ensures
        window_count(start, end, size) >= 1,
        window(start, end, size, 0).0 == start,
        window(start, end, size, window_count(start, end, size) - 1).1 == end,
        forall|i: int|
            0 <= i < window_count(start, end, size) ==> (#[trigger] window(start, end, size, i)).0
                <= window(start, end, size, i).1,
        forall|i: int|
            0 <= i < window_count(start, end, size) - 1 ==> (#[trigger] window(start, end, size, i)).1
                + 1 == window(start, end, size, i + 1).0,
{
    let d = end - start;
    let sz = size as int;
    let c = window_count(start, end, size);
    assert(c == (d + sz) / sz);
    assert(c >= 1 && (c - 1) * sz <= d && c * sz > d) by (nonlinear_arith)
        requires
            c == (d + sz) / sz,
            d >= 0,
            sz > 0,
    ;
    assert(window(start, end, size, 0).0 == start);
    assert forall|i: int| 0 <= i < c implies (#[trigger] window(start, end, size, i)).0 <= window(
        start,
        end,
        size,
        i,
    ).1 by {
        assert(i * sz <= (c - 1) * sz) by (nonlinear_arith)
            requires
                0 <= i < c,
                sz > 0,
        ;
    }
    assert forall|i: int| 0 <= i < c - 1 implies (#[trigger] window(start, end, size, i)).1 + 1
        == window(start, end, size, i + 1).0 by {
        assert((i + 1) * sz <= (c - 1) * sz) by (nonlinear_arith)
            requires
                0 <= i < c - 1,
                sz > 0,
        ;
        assert((i + 1) * sz == i * sz + sz) by (nonlinear_arith);
        assert(i * sz >= 0) by (nonlinear_arith)
            requires
                i >= 0,
                sz > 0,
        ;
    }
    assert((c - 1) * sz + sz == c * sz) by (nonlinear_arith);
    assert((c - 1) * sz >= 0) by (nonlinear_arith)
        requires
            c >= 1,
            sz > 0,
    ;
}

/// How many identifiers the first `k` windows hold.
pub open spec fn window_total(start: u32, end: u32, size: u32, k: int) -> int
    decreases k,
{
    if k <= 0 {
        0
    } else {
        window_total(start, end, size, k - 1) + (window(start, end, size, k - 1).1 - window(
            start,
            end,
            size,
            k - 1,
        ).0 + 1)
    }
}

proof fn lemma_window_total_prefix(start: u32, end: u32, size: u32, k: int)
    requires
        start <= end,
        size > 0,
        1 <= k <= window_count(start, end, size),
    ensures
        window_total(start, end, size, k) == window(start, end, size, k - 1).1 - start + 1,
    decreases k,
{
    lemma_windows_partition(start, end, size);
    assert(window_total(start, end, size, k) == window_total(start, end, size, k - 1) + (window(
        start,
        end,
        size,
        k - 1,
    ).1 - window(start, end, size, k - 1).0 + 1));
    if k > 1 {
        lemma_window_total_prefix(start, end, size, k - 1);
        assert(window(start, end, size, k - 2).1 + 1 == window(start, end, size, k - 1).0);
    } else {
        assert(window_total(start, end, size, 0) == 0);
    }
}

/// Over a whole scan the windows hold exactly the identifiers of
/// `start..=end`: with one outcome per identifier, the run's counters add up
/// to `end - start + 1`.
pub proof fn lemma_windows_add_up(start: u32, end: u32, size: u32)
    requires
        start <= end,
        size > 0,
    ensures
        window_total(start, end, size, window_count(start, end, size)) == end - start + 1,
{
    lemma_windows_partition(start, end, size);
    lemma_window_total_prefix(start, end, size, window_count(start, end, size));
}

/// Splits `start..=end` into consecutive inclusive windows of `batch_size`
/// identifiers, the last one possibly shorter. Nothing when `start > end`.
pub fn batch_windows(start: u32, end: u32, batch_size: u32) -> (r: Vec<(u32, u32)>)
    requires
        batch_size > 0,
    ensures
        r@.len() == window_count(start, end, batch_size),
        forall|i: int| 0 <= i < r@.len() ==> #[trigger] r@[i] == window(start, end, batch_size, i),
{
    let mut r: Vec<(u32, u32)> = Vec::new();
    if start > end {
        return r;
    }
    let mut lo: u64 = start as u64;
    let size = batch_size as u64;
    proof {
        assert(r@.len() == 0);
        assert(r@.len() * size == 0) by (nonlinear_arith)
            requires
                r@.len() == 0,
        ;
    }
    while lo <= end as u64
        invariant
            start <= end,
            size == batch_size,
            size > 0,
            lo == start + r@.len() * size,
            r@.len() * size <= end - start + size,
            forall|i: int| 0 <= i < r@.len() ==> #[trigger] r@[i] == window(start, end, batch_size, i),
        decreases end + size - lo,
    {
        let hi: u64 = if lo + size - 1 <= end as u64 {
            lo + size - 1
        } else {
            end as u64
        };
        let ghost k = r@.len() as int;
        r.push((lo as u32, hi as u32));
        proof {
            assert(r@[k] == window(start, end, batch_size, k));
            assert((k + 1) * size == k * size + size) by (nonlinear_arith);
        }
        lo = lo + size;
    }
    proof {
        let n = r@.len() as int;
        let d = end - start + size;
        assert(n * size <= d);
        assert(n * size > end - start);
        assert(d / (size as int) == n) by (nonlinear_arith)
            requires
                n * size <= d,
                n * size > d - size,
                size > 0,
        ;
    }
    r
}

/// The identifier of extrinsic `index` of `block` in a two-phase scan.
pub open spec fn composite(block: u32, index: u32) -> int {
    block * 10000 + index
}

/// Packs a block number and an extrinsic index into one identifier.
pub fn composite_id(block: u32, index: u32) -> (r: u64)
    ensures
        r == composite(block, index),
{
    block as u64 * 10000 + index as u64
}

/// How many extrinsics a lookup response lists: the length of its
/// `extrinsics` array, or of the response itself when it is an array.
pub open spec fn listed_count(j: Json) -> Option<nat> {
    match j {
        Json::Object(es) => {
            let p = key_position(es, "extrinsics"@);
            if p >= 0 && es[p].1 is Array {
                Some(es[p].1->Array_0.len())
            } else {
                None
            }
        },
        Json::Array(xs) => Some(xs.len()),
        _ => None,
    }
}

/// Reads the extrinsic count from a lookup response, as `listed_count`
/// describes; `None` where the response has no such list.
pub fn extrinsic_count(response: &JsonValue) -> (r: Option<usize>)
    ensures
        match r {
            Some(n) => listed_count(response.model()) == Some(n as nat),
            None => listed_count(response.model()) is None,
        },
{
    match response {
        JsonValue::Object(es) => {
            proof {
                assert(response.model()->Object_0 =~= es_model(es@));
            }
            let key = String::from_str("extrinsics");
            match find_key(es, &key) {
                Some(i) => match &es[i].1 {
                    JsonValue::Array(xs) => Some(xs.len()),
                    _ => None,
                },
                None => None,
            }
        },
        JsonValue::Array(xs) => Some(xs.len()),
        _ => None,
    }
}

/// The pallet's name contains the filter, regardless of case.
pub open spec fn pallet_selected(p: Pallet, filter: Seq<char>) -> bool {
    has_part(lower_of(p.name@), lower_of(filter))
}

/// The pallets of `ps` that the filter selects, in order.
pub open spec fn selected_pallets(ps: Seq<Pallet>, filter: Seq<char>) -> Seq<Pallet>
    decreases ps.len(),
{
    if ps.len() == 0 {
        ps
    } else {
        let rest = selected_pallets(ps.drop_last(), filter);
        if pallet_selected(ps.last(), filter) {
            rest.push(ps.last())
        } else {
            rest
        }
    }
}

/// The pallets to scan: those whose name contains `filter` regardless of
/// case, in order, or all of them without a filter.
pub fn filter_pallets(pallets: &Vec<Pallet>, filter: Option<&str>) -> (r: Vec<Pallet>)
    ensures
        match filter {
            Some(f) => r@ == selected_pallets(pallets@, f@),
            None => r@ == pallets@,
        },
{
    let mut r: Vec<Pallet> = Vec::new();
    match filter {
        None => {
            let mut i: usize = 0;
            while i < pallets.len()
                invariant
                    i <= pallets.len(),
                    r@ == pallets@.subrange(0, i as int),
                decreases pallets.len() - i,
            {
                r.push(pallets[i]);
                i = i + 1;
                assert(r@ =~= pallets@.subrange(0, i as int));
            }
            assert(pallets@.subrange(0, i as int) =~= pallets@);
        },
        Some(f) => {
            let lf = lowercase(f);
            let mut i: usize = 0;
            while i < pallets.len()
                invariant
                    i <= pallets.len(),
                    lf@ == lower_of(f@),
                    r@ == selected_pallets(pallets@.subrange(0, i as int), f@),
                decreases pallets.len() - i,
            {
                let p = pallets[i];
                let ln = lowercase(p.name);
                let ghost prefix = pallets@.subrange(0, i + 1);
                assert(prefix.drop_last() =~= pallets@.subrange(0, i as int));
                if text_contains(ln.as_str(), lf.as_str()) {
                    r.push(p);
                }
                i = i + 1;
            }
            assert(pallets@.subrange(0, i as int) =~= pallets@);
        },
    }
    r
}

/// What one pallet's scan found.
#[derive(Debug)]
pub struct PalletResult {
    pub name: String,
    pub index: u8,
    pub matched: u32,
    pub mismatched: u32,
    pub rust_errors: u32,
    pub sidecar_errors: u32,
    pub both_errors: u32,
    pub issues: Vec<Issue>,
}

/// What one account's scan found.
#[derive(Debug)]
pub struct AccountResult {
    /// How the account is shown in reports.
    pub label: String,
    pub address: String,
    pub matched: u32,
    pub mismatched: u32,
    pub rust_errors: u32,
    pub sidecar_errors: u32,
    pub both_errors: u32,
    pub issues: Vec<Issue>,
}

impl PalletResult {
    /// The result of pallet `pallet` from its finished tally.
    pub fn from_tally(pallet: Pallet, tally: RunTally) -> (r: Self)
        ensures
            r.name@ == pallet.name@,
            r.index == pallet.index,
            r.matched == tally.matched,
            r.mismatched == tally.mismatched,
            r.rust_errors == tally.rust_errors,
            r.sidecar_errors == tally.sidecar_errors,
            r.both_errors == tally.both_errors,
            r.issues == tally.issues,
    {
        PalletResult {
            name: String::from_str(pallet.name),
            index: pallet.index,
            matched: tally.matched,
            mismatched: tally.mismatched,
            rust_errors: tally.rust_errors,
            sidecar_errors: tally.sidecar_errors,
            both_errors: tally.both_errors,
            issues: tally.issues,
        }
    }
}

impl AccountResult {
    /// The result of one account from its finished tally.
    pub fn from_tally(label: String, address: String, tally: RunTally) -> (r: Self)
        ensures
            r.label == label,
            r.address == address,
            r.matched == tally.matched,
            r.mismatched == tally.mismatched,
            r.rust_errors == tally.rust_errors,
            r.sidecar_errors == tally.sidecar_errors,
            r.both_errors == tally.both_errors,
            r.issues == tally.issues,
    {
        AccountResult {
            label,
            address,
            matched: tally.matched,
            mismatched: tally.mismatched,
            rust_errors: tally.rust_errors,
            sidecar_errors: tally.sidecar_errors,
            both_errors: tally.both_errors,
            issues: tally.issues,
        }
    }
}

/// The block number of a `/blocks/head` response: its `number` field, a
/// decimal string.
pub open spec fn head_number(j: Json) -> Option<u32> {
    match j {
        Json::Object(es) => {
            let p = key_position(es, "number"@);
            if p >= 0 && es[p].1 is Str {
                parsed_u32(es[p].1->Str_0)
            } else {
                None
            }
        },
        _ => None,
    }
}

/// Reads the latest block number from a `/blocks/head` response, as
/// `head_number` describes; `None` where it is missing or not a number.
pub fn latest_block_number(head: &JsonValue) -> (r: Option<u32>)
    ensures
        r == head_number(head.model()),
{
    match head {
        JsonValue::Object(es) => {
            proof {
                assert(head.model()->Object_0 =~= es_model(es@));
            }
            let key = String::from_str("number");
            match find_key(es, &key) {
                Some(i) => match &es[i].1 {
                    JsonValue::String(t) => parse_u32(t.as_str()),
                    _ => None,
                },
                None => None,
            }
        },
        _ => None,
    }
}

/// How many extrinsic indices of a listed count can be addressed: all of
/// them, up to the indices that fit in `u32`.
pub open spec fn addressable(n: nat) -> nat {
    if n > u32::MAX + 1 {
        (u32::MAX + 1) as nat
    } else {
        n
    }
}

/// Decides the fan-out of one block in a two-phase scan from its count
/// lookup. A failed lookup, or one that answers without an extrinsic list,
/// counts as a reference-side error, is logged once, and fans out to
/// nothing; otherwise the indices `0..n` of the listed extrinsics are
/// returned and the tally is left as it was.
pub fn plan_extrinsics(tally: &mut RunTally, block: u32, lookup: Result<JsonValue, String>) -> (r:
    Vec<u32>)
    requires
        old(tally).total() < u32::MAX,
    ensures
        match lookup {
            Err(e) => {
                &&& r@.len() == 0
                &&& final(tally).rust_errors == old(tally).rust_errors + 1
                &&& final(tally).matched == old(tally).matched
                &&& final(tally).mismatched == old(tally).mismatched
                &&& final(tally).sidecar_errors == old(tally).sidecar_errors
                &&& final(tally).both_errors == old(tally).both_errors
                &&& final(tally).issues@ == old(tally).issues@.push(
                    Issue { id: block as u64, kind: IssueKind::LookupFailed(e) },
                )
            },
            Ok(j) => match listed_count(j.model()) {
                Some(n) => {
                    &&& *final(tally) == *old(tally)
                    &&& r@.len() == addressable(n)
                    &&& forall|i: int| 0 <= i < r@.len() ==> #[trigger] r@[i] == i
                },
                None => {
                    &&& r@.len() == 0
                    &&& final(tally).rust_errors == old(tally).rust_errors + 1
                    &&& final(tally).matched == old(tally).matched
                    &&& final(tally).mismatched == old(tally).mismatched
                    &&& final(tally).sidecar_errors == old(tally).sidecar_errors
                    &&& final(tally).both_errors == old(tally).both_errors
                    &&& final(tally).issues@ == old(tally).issues@.push(
                        Issue { id: block as u64, kind: IssueKind::LookupUnreadable },
                    )
                },
            },
        },
{
    let mut out: Vec<u32> = Vec::new();
    match lookup {
        Err(e) => {
            tally.record_lookup_failure(block as u64, e);
        },
        Ok(j) => {
            match extrinsic_count(&j) {
                Some(n) => {
                    let limit: u64 = if n as u64 > u32::MAX as u64 {
                        u32::MAX as u64 + 1
                    } else {
                        n as u64
                    };
                    let mut i: u64 = 0;
                    while i < limit
                        invariant
                            i <= limit,
                            limit <= u32::MAX + 1,
                            out@.len() == i,
                            forall|k: int| 0 <= k < i ==> #[trigger] out@[k] == k,
                        decreases limit - i,
                    {
                        out.push(i as u32);
                        i = i + 1;
                    }
                },
                None => {
                    tally.rust_errors = tally.rust_errors + 1;
                    tally.issues.push(Issue { id: block as u64, kind: IssueKind::LookupUnreadable });
                },
            }
        },
    }
    out
}

} // verus!
