//! Coverage accumulated across runs: which block ranges of which endpoint
//! (and, for pallet endpoints, of which pallet) have been compared, and with
//! what outcome.
//!
//! Each level keys its children by name; a name stands at most once, new
//! names are appended, so the order of first use is kept.
use vstd::prelude::*;
use crate::ranges::{merge_of, merge_ranges};
use crate::compare::TestResult;
use crate::scan::{counts_as_match, errors_differ};

verus! {

/// Position of the first `k` in `names`, or -1.
pub open spec fn name_position(names: Seq<Seq<char>>, k: Seq<char>) -> int
    decreases names.len(),
{
    if names.len() == 0 {
        -1
    } else {
        let p = name_position(names.drop_last(), k);
        if p >= 0 {
            p
        } else if names.last() == k {
            names.len() - 1
        } else {
            -1
        }
    }
}

pub open spec fn names_unique(names: Seq<Seq<char>>) -> bool {
    forall|i: int, j: int| 0 <= i < j < names.len() ==> names[i] != names[j]
}

pub proof fn lemma_name_position(names: Seq<Seq<char>>, k: Seq<char>)
    ensures
        -1 <= name_position(names, k) < names.len(),
        name_position(names, k) >= 0 ==> names[name_position(names, k)] == k,
        name_position(names, k) >= 0 ==> forall|i: int|
            0 <= i < name_position(names, k) ==> names[i] != k,
        name_position(names, k) < 0 ==> forall|i: int| 0 <= i < names.len() ==> names[i] != k,
    decreases names.len(),
{
    if names.len() > 0 {
        lemma_name_position(names.drop_last(), k);
        assert(forall|i: int| 0 <= i < names.len() - 1 ==> names.drop_last()[i] == names[i]);
    }
}

/// Appending a name that is not there keeps the names unique.
proof fn lemma_push_unique(names: Seq<Seq<char>>, k: Seq<char>)
    requires
        names_unique(names),
        name_position(names, k) < 0,
    ensures
        names_unique(names.push(k)),
        name_position(names.push(k), k) == names.len(),
{
    lemma_name_position(names, k);
    let t = names.push(k);
    assert(t.drop_last() =~= names);
    assert forall|i: int, j: int| 0 <= i < j < t.len() implies t[i] != t[j] by {
        if j < names.len() {
            assert(t[i] == names[i] && t[j] == names[j]);
        } else {
            assert(t[i] == names[i]);
        }
    }
}

/// How many blocks a run over `start..=end` counts: one when `end < start`.
pub open spec fn blocks_in_run(start: u32, end: u32) -> int {
    if end >= start {
        end - start + 1
    } else {
        1
    }
}

/// The five outcome counters of a run or a resource.
pub open spec fn sum5(a: u32, b: u32, c: u32, d: u32, e: u32) -> int {
    a + b + c + d + e
}

/// Coverage of one pallet under one endpoint.
#[derive(Debug)]
pub struct PalletCoverage {
    pub pallet: String,
    /// Block ranges tested, normalized after every run.
    pub block_ranges: Vec<(u32, u32)>,
    pub total_blocks_tested: u32,
    pub matched: u32,
    pub mismatched: u32,
    pub rust_errors: u32,
    pub sidecar_errors: u32,
    pub both_errors: u32,
    /// When the pallet was last tested (RFC 3339), empty before the first run.
    pub last_tested: String,
}

impl PalletCoverage {
    /// A pallet that has not been tested yet.
    pub open spec fn is_fresh(self, name: Seq<char>) -> bool {
        &&& self.pallet@ == name
        &&& self.block_ranges@.len() == 0
        &&& self.total_blocks_tested == 0
        &&& self.matched == 0
        &&& self.mismatched == 0
        &&& self.rust_errors == 0
        &&& self.sidecar_errors == 0
        &&& self.both_errors == 0
        &&& self.last_tested@.len() == 0
    }

    /// The counters can take one more run without overflow.
    pub open spec fn has_room(
        self,
        start: u32,
        end: u32,
        matched: u32,
        mismatched: u32,
        rust_errors: u32,
        sidecar_errors: u32,
        both_errors: u32,
    ) -> bool {
        &&& self.total_blocks_tested + blocks_in_run(start, end) <= u32::MAX
        &&& self.matched + matched <= u32::MAX
        &&& self.mismatched + mismatched <= u32::MAX
        &&& self.rust_errors + rust_errors <= u32::MAX
        &&& self.sidecar_errors + sidecar_errors <= u32::MAX
        &&& self.both_errors + both_errors <= u32::MAX
    }

    /// `self` is `old` after one run over `start..=end` with these counts.
    pub open spec fn after_run(
        self,
        old: PalletCoverage,
        start: u32,
        end: u32,
        matched: u32,
        mismatched: u32,
        rust_errors: u32,
        sidecar_errors: u32,
        both_errors: u32,
    ) -> bool {
        &&& self.pallet@ == old.pallet@
        &&& merge_of(old.block_ranges@.push((start, end)), self.block_ranges@)
        &&& self.total_blocks_tested == old.total_blocks_tested + blocks_in_run(start, end)
        &&& self.matched == old.matched + matched
        &&& self.mismatched == old.mismatched + mismatched
        &&& self.rust_errors == old.rust_errors + rust_errors
        &&& self.sidecar_errors == old.sidecar_errors + sidecar_errors
        &&& self.both_errors == old.both_errors + both_errors
    }

    /// `self` is the pallet `name` after one run: from `base` where there was
    /// an entry, else from a fresh one.
    pub open spec fn recorded(
        self,
        base: Option<PalletCoverage>,
        name: Seq<char>,
        start: u32,
        end: u32,
        matched: u32,
        mismatched: u32,
        rust_errors: u32,
        sidecar_errors: u32,
        both_errors: u32,
    ) -> bool {
        match base {
            Some(old) => old.pallet@ == name && self.after_run(
                old,
                start,
                end,
                matched,
                mismatched,
                rust_errors,
                sidecar_errors,
                both_errors,
            ),
            None => {
                &&& self.pallet@ == name
                &&& merge_of(seq![(start, end)], self.block_ranges@)
                &&& self.total_blocks_tested == blocks_in_run(start, end)
                &&& self.matched == matched
                &&& self.mismatched == mismatched
                &&& self.rust_errors == rust_errors
                &&& self.sidecar_errors == sidecar_errors
                &&& self.both_errors == both_errors
            },
        }
    }

    pub fn new(pallet: &str) -> (r: Self)
        ensures
            r.is_fresh(pallet@),
    {
        PalletCoverage {
            pallet: String::from_str(pallet),
            block_ranges: Vec::new(),
            total_blocks_tested: 0,
            matched: 0,
            mismatched: 0,
            rust_errors: 0,
            sidecar_errors: 0,
            both_errors: 0,
            last_tested: String::new(),
        }
    }

    /// Folds one run over `start_block..=end_block` into the pallet: the
    /// range joins the tested ranges, the counts add to the totals.
    pub fn add_run(
        &mut self,
        start_block: u32,
        end_block: u32,
        matched: u32,
        mismatched: u32,
        rust_errors: u32,
        sidecar_errors: u32,
        both_errors: u32,
        now: &str,
    )
        requires
            old(self).has_room(
                start_block,
                end_block,
                matched,
                mismatched,
                rust_errors,
                sidecar_errors,
                both_errors,
            ),
        ensures
            final(self).last_tested@ == now@,
            final(self).after_run(
                *old(self),
                start_block,
                end_block,
                matched,
                mismatched,
                rust_errors,
                sidecar_errors,
                both_errors,
            ),
    {
        self.block_ranges.push((start_block, end_block));
        merge_ranges(&mut self.block_ranges);
        let blocks_in_run: u32 = if end_block >= start_block {
            end_block - start_block + 1
        } else {
            1
        };
        self.total_blocks_tested = self.total_blocks_tested + blocks_in_run;
        self.matched = self.matched + matched;
        self.mismatched = self.mismatched + mismatched;
        self.rust_errors = self.rust_errors + rust_errors;
        self.sidecar_errors = self.sidecar_errors + sidecar_errors;
        self.both_errors = self.both_errors + both_errors;
        self.last_tested = String::from_str(now);
    }

    /// All comparisons counted for the pallet.
    pub fn total_tests(&self) -> (r: u64)
        ensures
            r == sum5(
                self.matched,
                self.mismatched,
                self.rust_errors,
                self.sidecar_errors,
                self.both_errors,
            ),
    {
        self.matched as u64 + self.mismatched as u64 + self.rust_errors as u64
            + self.sidecar_errors as u64 + self.both_errors as u64
    }
}

pub open spec fn pallet_names(ps: Seq<PalletCoverage>) -> Seq<Seq<char>> {
    ps.map_values(|p: PalletCoverage| p.pallet@)
}

fn find_pallet(ps: &Vec<PalletCoverage>, name: &String) -> (r: Option<usize>)
    ensures
        match r {
            Some(i) => i < ps.len() && name_position(pallet_names(ps@), name@) == i,
            None => name_position(pallet_names(ps@), name@) == -1,
        },
{
    let ghost names = pallet_names(ps@);
    proof {
        lemma_name_position(names, name@);
    }
    let mut i: usize = 0;
    while i < ps.len()
        invariant
            i <= ps.len(),
            names == pallet_names(ps@),
            -1 <= name_position(names, name@) < names.len(),
            name_position(names, name@) >= 0 ==> names[name_position(names, name@)] == name@,
            name_position(names, name@) >= 0 ==> forall|j: int|
                0 <= j < name_position(names, name@) ==> names[j] != name@,
            name_position(names, name@) < 0 ==> forall|j: int| 0 <= j < names.len() ==> names[j] != name@,
            forall|j: int| 0 <= j < i ==> names[j] != name@,
        decreases ps.len() - i,
    {
        if ps[i].pallet == *name {
            assert(names[i as int] == name@);
            return Some(i);
        }
        i = i + 1;
    }
    None
}

/// Coverage of one endpoint: per pallet for pallet endpoints, else its own
/// ranges and counters.
#[derive(Debug)]
pub struct EndpointCoverage {
    pub endpoint: String,
    /// Per-pallet coverage, in order of first use; `None` for endpoints that
    /// are not iterated by pallet.
    pub pallets: Option<Vec<PalletCoverage>>,
    /// Block ranges tested (endpoints that are not iterated by pallet).
    pub block_ranges: Vec<(u32, u32)>,
    pub matched: u32,
    pub mismatched: u32,
    pub rust_errors: u32,
    pub sidecar_errors: u32,
    pub both_errors: u32,
    /// Whether the endpoint has been tested at all.
    pub tested: bool,
    pub last_tested: String,
}

impl EndpointCoverage {
    /// Each pallet stands once.
    pub open spec fn well_formed(self) -> bool {
        match self.pallets {
            Some(ps) => names_unique(pallet_names(ps@)),
            None => true,
        }
    }

    pub open spec fn is_fresh(self, name: Seq<char>, is_pallet_endpoint: bool) -> bool {
        &&& self.endpoint@ == name
        &&& (match self.pallets {
            Some(ps) => is_pallet_endpoint && ps@.len() == 0,
            None => !is_pallet_endpoint,
        })
        &&& self.block_ranges@.len() == 0
        &&& self.matched == 0
        &&& self.mismatched == 0
        &&& self.rust_errors == 0
        &&& self.sidecar_errors == 0
        &&& self.both_errors == 0
        &&& !self.tested
        &&& self.last_tested@.len() == 0
    }

    /// The flat counters and ranges are those of `old`.
    pub open spec fn same_flat(self, old: EndpointCoverage) -> bool {
        &&& self.block_ranges@ == old.block_ranges@
        &&& self.matched == old.matched
        &&& self.mismatched == old.mismatched
        &&& self.rust_errors == old.rust_errors
        &&& self.sidecar_errors == old.sidecar_errors
        &&& self.both_errors == old.both_errors
    }

    pub fn new(endpoint: &str, is_pallet_endpoint: bool) -> (r: Self)
        ensures
            r.is_fresh(endpoint@, is_pallet_endpoint),
            r.well_formed(),
    {
        EndpointCoverage {
            endpoint: String::from_str(endpoint),
            pallets: if is_pallet_endpoint {
                Some(Vec::new())
            } else {
                None
            },
            block_ranges: Vec::new(),
            matched: 0,
            mismatched: 0,
            rust_errors: 0,
            sidecar_errors: 0,
            both_errors: 0,
            tested: false,
            last_tested: String::new(),
        }
    }

    /// The pallet run can be recorded without overflow.
    pub open spec fn has_room_for_pallet(
        self,
        pallet: Seq<char>,
        start: u32,
        end: u32,
        matched: u32,
        mismatched: u32,
        rust_errors: u32,
        sidecar_errors: u32,
        both_errors: u32,
    ) -> bool {
        &&& blocks_in_run(start, end) <= u32::MAX
        &&& match self.pallets {
            Some(ps) => {
                let p = name_position(pallet_names(ps@), pallet);
                p < 0 || ps@[p].has_room(
                    start,
                    end,
                    matched,
                    mismatched,
                    rust_errors,
                    sidecar_errors,
                    both_errors,
                )
            },
            None => true,
        }
    }

    /// Records a run of one pallet. The pallet's entry is created on first
    /// use and appended; endpoints that are not iterated by pallet only get
    /// marked as tested.
    pub fn add_pallet_run(
        &mut self,
        pallet: &str,
        start_block: u32,
        end_block: u32,
        matched: u32,
        mismatched: u32,
        rust_errors: u32,
        sidecar_errors: u32,
        both_errors: u32,
        now: &str,
    )
        requires
            old(self).well_formed(),
            old(self).has_room_for_pallet(
                pallet@,
                start_block,
                end_block,
                matched,
                mismatched,
                rust_errors,
                sidecar_errors,
                both_errors,
            ),
        ensures
            final(self).last_tested@ == now@,
            final(self).well_formed(),
            final(self).tested,
            final(self).endpoint@ == old(self).endpoint@,
            final(self).same_flat(*old(self)),
            match old(self).pallets {
                None => final(self).pallets is None,
                Some(ops) => final(self).pallets is Some && {
                    let nps = final(self).pallets->0@;
                    let p = name_position(pallet_names(ops@), pallet@);
                    let q = if p >= 0 {
                        p
                    } else {
                        ops@.len() as int
                    };
                    &&& nps.len() == (if p >= 0 {
                        ops@.len() as int
                    } else {
                        ops@.len() + 1 as int
                    })
                    &&& forall|i: int| 0 <= i < ops@.len() && i != q ==> nps[i] == ops@[i]
                    &&& name_position(pallet_names(nps), pallet@) == q
                    &&& nps[q].last_tested@ == now@
                    &&& nps[q].recorded(
                        if p >= 0 {
                            Some(ops@[p])
                        } else {
                            None
                        },
                        pallet@,
                        start_block,
                        end_block,
                        matched,
                        mismatched,
                        rust_errors,
                        sidecar_errors,
                        both_errors,
                    )
                },
            },
    {
        self.tested = true;
        self.last_tested = String::from_str(now);
        let name = String::from_str(pallet);
        match self.pallets.take() {
            None => {},
            Some(mut ps) => {
                let ghost ops = ps@;
                match find_pallet(&ps, &name) {
                    Some(i) => {
                        let mut entry = ps.remove(i);
                        entry.add_run(
                            start_block,
                            end_block,
                            matched,
                            mismatched,
                            rust_errors,
                            sidecar_errors,
                            both_errors,
                            now,
                        );
                        ps.insert(i, entry);
                        proof {
                            assert(ps@ =~= ops.update(i as int, entry));
                            assert(pallet_names(ps@) =~= pallet_names(ops));
                            lemma_name_position(pallet_names(ops), pallet@);
                        }
                    },
                    None => {
                        let mut entry = PalletCoverage::new(pallet);
                        let ghost fresh = entry;
                        entry.add_run(
                            start_block,
                            end_block,
                            matched,
                            mismatched,
                            rust_errors,
                            sidecar_errors,
                            both_errors,
                            now,
                        );
                        ps.push(entry);
                        proof {
                            assert(pallet_names(ps@) =~= pallet_names(ops).push(pallet@));
                            lemma_push_unique(pallet_names(ops), pallet@);
                            assert(fresh.block_ranges@.push((start_block, end_block)) =~= seq![
                                (start_block, end_block),
                            ]);
                        }
                    },
                }
                self.pallets = Some(ps);
            },
        }
    }

    /// The flat counters can take one more run without overflow.
    pub open spec fn has_room(
        self,
        matched: u32,
        mismatched: u32,
        rust_errors: u32,
        sidecar_errors: u32,
        both_errors: u32,
    ) -> bool {
        &&& self.matched + matched <= u32::MAX
        &&& self.mismatched + mismatched <= u32::MAX
        &&& self.rust_errors + rust_errors <= u32::MAX
        &&& self.sidecar_errors + sidecar_errors <= u32::MAX
        &&& self.both_errors + both_errors <= u32::MAX
    }

    /// `self` is `old` after one block run with these counts.
    pub open spec fn after_block_run(
        self,
        old: EndpointCoverage,
        start: u32,
        end: u32,
        matched: u32,
        mismatched: u32,
        rust_errors: u32,
        sidecar_errors: u32,
        both_errors: u32,
    ) -> bool {
        &&& self.endpoint@ == old.endpoint@
        &&& self.pallets == old.pallets
        &&& self.tested
        &&& merge_of(old.block_ranges@.push((start, end)), self.block_ranges@)
        &&& self.matched == old.matched + matched
        &&& self.mismatched == old.mismatched + mismatched
        &&& self.rust_errors == old.rust_errors + rust_errors
        &&& self.sidecar_errors == old.sidecar_errors + sidecar_errors
        &&& self.both_errors == old.both_errors + both_errors
    }

    /// Records a run of a block (or account) endpoint: the range joins the
    /// tested ranges, the counts add to the totals.
    pub fn add_block_run(
        &mut self,
        start_block: u32,
        end_block: u32,
        matched: u32,
        mismatched: u32,
        rust_errors: u32,
        sidecar_errors: u32,
        both_errors: u32,
        now: &str,
    )
        requires
            old(self).has_room(matched, mismatched, rust_errors, sidecar_errors, both_errors),
        ensures
            final(self).last_tested@ == now@,
            final(self).after_block_run(
                *old(self),
                start_block,
                end_block,
                matched,
                mismatched,
                rust_errors,
                sidecar_errors,
                both_errors,
            ),
    {
        self.tested = true;
        self.last_tested = String::from_str(now);
        self.block_ranges.push((start_block, end_block));
        merge_ranges(&mut self.block_ranges);
        self.matched = self.matched + matched;
        self.mismatched = self.mismatched + mismatched;
        self.rust_errors = self.rust_errors + rust_errors;
        self.sidecar_errors = self.sidecar_errors + sidecar_errors;
        self.both_errors = self.both_errors + both_errors;
    }

    /// Records a run of an account endpoint; the account itself is not kept.
    pub fn add_account_run(
        &mut self,
        _account: &str,
        start_block: u32,
        end_block: u32,
        matched: u32,
        mismatched: u32,
        rust_errors: u32,
        sidecar_errors: u32,
        both_errors: u32,
        now: &str,
    )
        requires
            old(self).has_room(matched, mismatched, rust_errors, sidecar_errors, both_errors),
        ensures
            final(self).last_tested@ == now@,
            final(self).after_block_run(
                *old(self),
                start_block,
                end_block,
                matched,
                mismatched,
                rust_errors,
                sidecar_errors,
                both_errors,
            ),
    {
        self.add_block_run(
            start_block,
            end_block,
            matched,
            mismatched,
            rust_errors,
            sidecar_errors,
            both_errors,
            now,
        );
    }

    /// All comparisons counted on the endpoint's own counters.
    pub fn total_tests(&self) -> (r: u64)
        ensures
            r == sum5(
                self.matched,
                self.mismatched,
                self.rust_errors,
                self.sidecar_errors,
                self.both_errors,
            ),
    {
        self.matched as u64 + self.mismatched as u64 + self.rust_errors as u64
            + self.sidecar_errors as u64 + self.both_errors as u64
    }

    /// Whether the endpoint's own counters show a mismatch or an error.
    pub fn has_issues(&self) -> (r: bool)
        ensures
            r == (self.mismatched > 0 || self.rust_errors > 0 || self.sidecar_errors > 0
                || self.both_errors > 0),
    {
        self.mismatched > 0 || self.rust_errors > 0 || self.sidecar_errors > 0
            || self.both_errors > 0
    }
}

pub open spec fn endpoint_names(es: Seq<EndpointCoverage>) -> Seq<Seq<char>> {
    es.map_values(|e: EndpointCoverage| e.endpoint@)
}

pub open spec fn chain_names(cs: Seq<ChainCoverage>) -> Seq<Seq<char>> {
    cs.map_values(|c: ChainCoverage| c.chain@)
}

fn find_endpoint(ps: &Vec<EndpointCoverage>, name: &String) -> (r: Option<usize>)
    ensures
        match r {
            Some(i) => i < ps.len() && name_position(endpoint_names(ps@), name@) == i,
            None => name_position(endpoint_names(ps@), name@) == -1,
        },
{
    let ghost names = endpoint_names(ps@);
    proof {
        lemma_name_position(names, name@);
    }
    let mut i: usize = 0;
    while i < ps.len()
        invariant
            i <= ps.len(),
            names == endpoint_names(ps@),
            -1 <= name_position(names, name@) < names.len(),
            name_position(names, name@) >= 0 ==> names[name_position(names, name@)] == name@,
            name_position(names, name@) >= 0 ==> forall|j: int|
                0 <= j < name_position(names, name@) ==> names[j] != name@,
            name_position(names, name@) < 0 ==> forall|j: int| 0 <= j < names.len() ==> names[j] != name@,
            forall|j: int| 0 <= j < i ==> names[j] != name@,
        decreases ps.len() - i,
    {
        if ps[i].endpoint == *name {
            assert(names[i as int] == name@);
            return Some(i);
        }
        i = i + 1;
    }
    None
}

fn find_chain(ps: &Vec<ChainCoverage>, name: &String) -> (r: Option<usize>)
    ensures
        match r {
            Some(i) => i < ps.len() && name_position(chain_names(ps@), name@) == i,
            None => name_position(chain_names(ps@), name@) == -1,
        },
{
    let ghost names = chain_names(ps@);
    proof {
        lemma_name_position(names, name@);
    }
    let mut i: usize = 0;
    while i < ps.len()
        invariant
            i <= ps.len(),
            names == chain_names(ps@),
            -1 <= name_position(names, name@) < names.len(),
            name_position(names, name@) >= 0 ==> names[name_position(names, name@)] == name@,
            name_position(names, name@) >= 0 ==> forall|j: int|
                0 <= j < name_position(names, name@) ==> names[j] != name@,
            name_position(names, name@) < 0 ==> forall|j: int| 0 <= j < names.len() ==> names[j] != name@,
            forall|j: int| 0 <= j < i ==> names[j] != name@,
        decreases ps.len() - i,
    {
        if ps[i].chain == *name {
            assert(names[i as int] == name@);
            return Some(i);
        }
        i = i + 1;
    }
    None
}

/// Coverage of one chain.
#[derive(Debug)]
pub struct ChainCoverage {
    pub chain: String,
    /// How many pallets the chain has, for completeness figures.
    pub total_pallets: usize,
    /// Per-endpoint coverage, in order of first use.
    pub endpoints: Vec<EndpointCoverage>,
    pub last_updated: String,
}

impl ChainCoverage {
    /// Each endpoint stands once, and each is well formed.
    pub open spec fn well_formed(self) -> bool {
        &&& names_unique(endpoint_names(self.endpoints@))
        &&& forall|i: int| 0 <= i < self.endpoints@.len() ==> (#[trigger] self.endpoints@[i]).well_formed()
    }

    pub fn new(chain: &str, total_pallets: usize, now: &str) -> (r: Self)
        ensures
            r.last_updated@ == now@,
            r.chain@ == chain@,
            r.total_pallets == total_pallets,
            r.endpoints@.len() == 0,
            r.well_formed(),
    {
        ChainCoverage {
            chain: String::from_str(chain),
            total_pallets,
            endpoints: Vec::new(),
            last_updated: String::from_str(now),
        }
    }

    /// The coverage of `endpoint`, created (empty, and appended) on first use.
    /// The chain stays well formed while the caller keeps the endpoint's name
    /// and well-formedness, as the `add_*` methods do.
    pub fn get_endpoint(&mut self, endpoint: &str, is_pallet_endpoint: bool, now: &str) -> (r:
        &mut EndpointCoverage)
        ensures
            final(self).last_updated@ == now@,
            final(self).chain@ == old(self).chain@,
            final(self).total_pallets == old(self).total_pallets,
            ({
                let p = name_position(endpoint_names(old(self).endpoints@), endpoint@);
                if p >= 0 {
                    &&& *r == old(self).endpoints@[p]
                    &&& final(self).endpoints@ == old(self).endpoints@.update(p, *final(r))
                } else {
                    &&& r.is_fresh(endpoint@, is_pallet_endpoint)
                    &&& r.well_formed()
                    &&& final(self).endpoints@ == old(self).endpoints@.push(*final(r))
                }
            }),
            old(self).well_formed() && final(r).endpoint@ == r.endpoint@ && final(r).well_formed()
                ==> final(self).well_formed(),
    {
        self.last_updated = String::from_str(now);
        let name = String::from_str(endpoint);
        let ghost names = endpoint_names(self.endpoints@);
        match find_endpoint(&self.endpoints, &name) {
            Some(i) => {
                let ghost old_eps = self.endpoints@;
                proof {
                    lemma_name_position(names, endpoint@);
                    assert forall|x: EndpointCoverage|
                        x.endpoint@ == old_eps[i as int].endpoint@ implies #[trigger] endpoint_names(
                        old_eps.update(i as int, x)) == names by {
                        assert(endpoint_names(old_eps.update(i as int, x)) =~= names);
                    }
                }
                &mut self.endpoints[i]
            },
            None => {
                let ghost old_eps = self.endpoints@;
                proof {
                    if names_unique(names) {
                        lemma_push_unique(names, endpoint@);
                    }
                    assert forall|x: EndpointCoverage| #[trigger]
                        endpoint_names(old_eps.push(x)) == names.push(x.endpoint@) by {
                        assert(endpoint_names(old_eps.push(x)) =~= names.push(x.endpoint@));
                    }
                }
                self.endpoints.push(EndpointCoverage::new(endpoint, is_pallet_endpoint));
                let n = self.endpoints.len();
                &mut self.endpoints[n - 1]
            },
        }
    }
}

/// Everything recorded so far, per chain.
#[derive(Debug)]
pub struct CoverageData {
    /// Version of the stored format.
    pub version: String,
    /// Per-chain coverage, in order of first use.
    pub chains: Vec<ChainCoverage>,
}

impl CoverageData {
    /// Each chain stands once, and each is well formed.
    pub open spec fn well_formed(self) -> bool {
        &&& names_unique(chain_names(self.chains@))
        &&& forall|i: int| 0 <= i < self.chains@.len() ==> (#[trigger] self.chains@[i]).well_formed()
    }

    /// An empty store of the current format, `1.0`.
    pub fn new() -> (r: Self)
        ensures
            r.version@ == "1.0"@,
            r.chains@.len() == 0,
            r.well_formed(),
    {
        CoverageData { version: String::from_str("1.0"), chains: Vec::new() }
    }

    /// The coverage of `chain`, created (empty, and appended) on first use.
    /// The store stays well formed while the caller keeps the chain's name
    /// and well-formedness.
    pub fn get_chain(&mut self, chain: &str, total_pallets: usize, now: &str) -> (r:
        &mut ChainCoverage)
        ensures
            final(self).version@ == old(self).version@,
            ({
                let p = name_position(chain_names(old(self).chains@), chain@);
                if p >= 0 {
                    &&& *r == old(self).chains@[p]
                    &&& final(self).chains@ == old(self).chains@.update(p, *final(r))
                } else {
                    &&& r.chain@ == chain@
                    &&& r.total_pallets == total_pallets
                    &&& r.endpoints@.len() == 0
                    &&& r.well_formed()
                    &&& final(self).chains@ == old(self).chains@.push(*final(r))
                }
            }),
            old(self).well_formed() && final(r).chain@ == r.chain@ && final(r).well_formed()
                ==> final(self).well_formed(),
    {
        let name = String::from_str(chain);
        let ghost names = chain_names(self.chains@);
        match find_chain(&self.chains, &name) {
            Some(i) => {
                let ghost old_cs = self.chains@;
                proof {
                    lemma_name_position(names, chain@);
                    assert forall|x: ChainCoverage|
                        x.chain@ == old_cs[i as int].chain@ && names_unique(names) implies names_unique(
                        chain_names(#[trigger] old_cs.update(i as int, x))) by {
                        assert(chain_names(old_cs.update(i as int, x)) =~= names);
                    }
                }
                &mut self.chains[i]
            },
            None => {
                let ghost old_cs = self.chains@;
                proof {
                    if names_unique(names) {
                        lemma_push_unique(names, chain@);
                    }
                    assert forall|x: ChainCoverage|
                        x.chain@ == chain@ && names_unique(names) implies names_unique(
                        chain_names(#[trigger] old_cs.push(x))) by {
                        assert(chain_names(old_cs.push(x)) =~= names.push(x.chain@));
                    }
                }
                self.chains.push(ChainCoverage::new(chain, total_pallets, now));
                let n = self.chains.len();
                &mut self.chains[n - 1]
            },
        }
    }
}

/// `x`, or `u64::MAX` where it does not fit.
pub open spec fn capped(x: int) -> int {
    if x > u64::MAX {
        u64::MAX as int
    } else {
        x
    }
}

/// Matched comparisons over the pallets.
pub open spec fn pallets_matched(ps: Seq<PalletCoverage>) -> int
    decreases ps.len(),
{
    if ps.len() == 0 {
        0
    } else {
        pallets_matched(ps.drop_last()) + ps.last().matched
    }
}

/// All comparisons over the pallets.
pub open spec fn pallets_tests(ps: Seq<PalletCoverage>) -> int
    decreases ps.len(),
{
    if ps.len() == 0 {
        0
    } else {
        pallets_tests(ps.drop_last()) + sum5(
            ps.last().matched,
            ps.last().mismatched,
            ps.last().rust_errors,
            ps.last().sidecar_errors,
            ps.last().both_errors,
        )
    }
}

/// Matched comparisons of an endpoint: over its pallets where it has them.
pub open spec fn endpoint_matched(e: EndpointCoverage) -> int {
    match e.pallets {
        Some(ps) => pallets_matched(ps@),
        None => e.matched as int,
    }
}

/// All comparisons of an endpoint: over its pallets where it has them.
pub open spec fn endpoint_tests(e: EndpointCoverage) -> int {
    match e.pallets {
        Some(ps) => pallets_tests(ps@),
        None => sum5(e.matched, e.mismatched, e.rust_errors, e.sidecar_errors, e.both_errors),
    }
}

/// Matched comparisons over the endpoints.
pub open spec fn endpoints_matched(es: Seq<EndpointCoverage>) -> int
    decreases es.len(),
{
    if es.len() == 0 {
        0
    } else {
        endpoints_matched(es.drop_last()) + endpoint_matched(es.last())
    }
}

/// All comparisons over the endpoints.
pub open spec fn endpoints_tests(es: Seq<EndpointCoverage>) -> int
    decreases es.len(),
{
    if es.len() == 0 {
        0
    } else {
        endpoints_tests(es.drop_last()) + endpoint_tests(es.last())
    }
}

proof fn lemma_pallet_sums_nonneg(ps: Seq<PalletCoverage>)
    ensures
        pallets_matched(ps) >= 0,
        pallets_tests(ps) >= 0,
    decreases ps.len(),
{
    if ps.len() > 0 {
        lemma_pallet_sums_nonneg(ps.drop_last());
    }
}

impl EndpointCoverage {
    /// Matched and total comparisons of the endpoint (over its pallets where
    /// it has them), each capped at `u64::MAX`.
    pub fn totals(&self) -> (r: (u64, u64))
        ensures
            r.0 == capped(endpoint_matched(*self)),
            r.1 == capped(endpoint_tests(*self)),
    {
        match &self.pallets {
            Some(ps) => {
                let mut m: u64 = 0;
                let mut t: u64 = 0;
                let mut i: usize = 0;
                while i < ps.len()
                    invariant
                        i <= ps.len(),
                        m == capped(pallets_matched(ps@.subrange(0, i as int))),
                        t == capped(pallets_tests(ps@.subrange(0, i as int))),
                    decreases ps.len() - i,
                {
                    let ghost prefix = ps@.subrange(0, i + 1);
                    proof {
                        assert(prefix.drop_last() =~= ps@.subrange(0, i as int));
                        lemma_pallet_sums_nonneg(ps@.subrange(0, i as int));
                    }
                    m = m.saturating_add(ps[i].matched as u64);
                    t = t.saturating_add(ps[i].total_tests());
                    i = i + 1;
                }
                assert(ps@.subrange(0, i as int) =~= ps@);
                (m, t)
            },
            None => (self.matched as u64, self.total_tests()),
        }
    }
}

impl ChainCoverage {
    /// Matched and total comparisons over all endpoints of the chain (over
    /// the pallets of pallet endpoints), each capped at `u64::MAX`.
    pub fn overall_stats(&self) -> (r: (u64, u64))
        ensures
            r.0 == capped(endpoints_matched(self.endpoints@)),
            r.1 == capped(endpoints_tests(self.endpoints@)),
    {
        let mut m: u64 = 0;
        let mut t: u64 = 0;
        let mut i: usize = 0;
        while i < self.endpoints.len()
            invariant
                i <= self.endpoints.len(),
                m == capped(endpoints_matched(self.endpoints@.subrange(0, i as int))),
                t == capped(endpoints_tests(self.endpoints@.subrange(0, i as int))),
                endpoints_matched(self.endpoints@.subrange(0, i as int)) >= 0,
                endpoints_tests(self.endpoints@.subrange(0, i as int)) >= 0,
            decreases self.endpoints.len() - i,
        {
            let ghost prefix = self.endpoints@.subrange(0, i + 1);
            let e = &self.endpoints[i];
            proof {
                assert(prefix.drop_last() =~= self.endpoints@.subrange(0, i as int));
                if e.pallets is Some {
                    lemma_pallet_sums_nonneg(e.pallets->0@);
                }
            }
            let (em, et) = e.totals();
            m = m.saturating_add(em);
            t = t.saturating_add(et);
            i = i + 1;
        }
        assert(self.endpoints@.subrange(0, i as int) =~= self.endpoints@);
        (m, t)
    }
}

impl EndpointCoverage {
    /// Records the outcome of a flat endpoint's single check under the same
    /// rule as every scan: each outcome raises its own counter, and both
    /// servers failing with the same message counts as a match.
    pub fn record_runtime_result(&mut self, result: &TestResult, now: &str)
        requires
            counts_as_match(*result) ==> old(self).matched < u32::MAX,
            *result is Mismatch ==> old(self).mismatched < u32::MAX,
            *result is RustError ==> old(self).rust_errors < u32::MAX,
            *result is SidecarError ==> old(self).sidecar_errors < u32::MAX,
            errors_differ(*result) ==> old(self).both_errors < u32::MAX,
        ensures
            final(self).endpoint@ == old(self).endpoint@,
            final(self).pallets == old(self).pallets,
            final(self).block_ranges@ == old(self).block_ranges@,
            final(self).tested,
            final(self).last_tested@ == now@,
            final(self).matched == old(self).matched + counts_as_match(*result) as int,
            final(self).mismatched == old(self).mismatched + (*result is Mismatch) as int,
            final(self).rust_errors == old(self).rust_errors + (*result is RustError) as int,
            final(self).sidecar_errors == old(self).sidecar_errors + (*result is SidecarError) as int,
            final(self).both_errors == old(self).both_errors + errors_differ(*result) as int,
    {
        self.tested = true;
        self.last_tested = String::from_str(now);
        match result {
            TestResult::Match => {
                self.matched = self.matched + 1;
            },
            TestResult::Mismatch { .. } => {
                self.mismatched = self.mismatched + 1;
            },
            TestResult::RustError(_) => {
                self.rust_errors = self.rust_errors + 1;
            },
            TestResult::SidecarError(_) => {
                self.sidecar_errors = self.sidecar_errors + 1;
            },
            TestResult::BothError { rust_error, sidecar_error } => {
                if *rust_error == *sidecar_error {
                    self.matched = self.matched + 1;
                } else {
                    self.both_errors = self.both_errors + 1;
                }
            },
        }
    }
}

} // verus!
