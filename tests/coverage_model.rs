use api_diff::coverage::{ChainCoverage, CoverageData, EndpointCoverage, PalletCoverage};
use api_diff::compare::TestResult;

const T: &str = "2024-05-01T12:00:00+00:00";

use api_diff::ranges::{format_ranges, merge_ranges};

fn merged(mut v: Vec<(u32, u32)>) -> Vec<(u32, u32)> {
    merge_ranges(&mut v);
    v
}

#[test]
fn same_range_twice_merges_to_one() {
    assert_eq!(merged(vec![(10, 20), (10, 20)]), vec![(10, 20)]);
}

#[test]
fn adjacent_ranges_merge() {
    assert_eq!(merged(vec![(10, 15), (16, 20)]), vec![(10, 20)]);
}

#[test]
fn ranges_with_a_gap_stay_apart() {
    assert_eq!(merged(vec![(10, 20), (22, 30)]), vec![(10, 20), (22, 30)]);
}

#[test]
fn merge_sorts_and_ignores_order() {
    assert_eq!(merged(vec![(50, 60), (1, 5), (4, 12), (13, 13), (40, 49)]), vec![(1, 13), (40, 60)]);
    assert_eq!(merged(vec![(16, 20), (10, 15)]), merged(vec![(10, 15), (16, 20)]));
    assert_eq!(merged(vec![]), vec![]);
    assert_eq!(merged(vec![(5, 1)]), vec![]);
    assert_eq!(merged(vec![(0, u32::MAX), (3, 4)]), vec![(0, u32::MAX)]);
    assert_eq!(merged(vec![(u32::MAX, u32::MAX), (0, u32::MAX - 1)]), vec![(0, u32::MAX)]);
}

#[test]
fn pallet_runs_accumulate() {
    let mut p = PalletCoverage::new("Balances");
    assert_eq!(p.pallet, "Balances");
    assert_eq!(p.total_tests(), 0);
    p.add_run(10, 20, 8, 1, 1, 1, 0, T);
    p.add_run(10, 20, 11, 0, 0, 0, 0, T);
    assert_eq!(p.block_ranges, vec![(10, 20)]);
    assert_eq!(p.total_blocks_tested, 22);
    assert_eq!((p.matched, p.mismatched, p.rust_errors, p.sidecar_errors, p.both_errors), (19, 1, 1, 1, 0));
    assert_eq!(p.total_tests(), 22);
    assert_eq!(p.last_tested, T);
    p.add_run(22, 30, 9, 0, 0, 0, 0, T);
    assert_eq!(p.block_ranges, vec![(10, 20), (22, 30)]);
    p.add_run(9, 3, 0, 0, 0, 0, 0, T);
    assert_eq!(p.total_blocks_tested, 32);
}

#[test]
fn pallet_endpoint_keeps_one_entry_per_pallet() {
    let mut e = EndpointCoverage::new("pallet-storage", true);
    assert!(!e.tested);
    e.add_pallet_run("System", 0, 9, 10, 0, 0, 0, 0, T);
    e.add_pallet_run("Balances", 0, 4, 4, 1, 0, 0, 0, T);
    e.add_pallet_run("System", 10, 19, 9, 0, 0, 1, 0, T);
    assert!(e.tested);
    let ps = e.pallets.as_ref().unwrap();
    assert_eq!(ps.len(), 2);
    assert_eq!(ps[0].pallet, "System");
    assert_eq!(ps[0].block_ranges, vec![(0, 19)]);
    assert_eq!((ps[0].matched, ps[0].sidecar_errors), (19, 1));
    assert_eq!(ps[1].pallet, "Balances");
    assert_eq!(e.totals(), (23, 25));
    assert!(!e.has_issues());
}

#[test]
fn block_and_runtime_endpoints_count_directly() {
    let mut e = EndpointCoverage::new("block", false);
    e.add_block_run(100, 199, 98, 1, 0, 0, 1, T);
    e.add_account_run("5Grw", 150, 250, 101, 0, 0, 0, 0, T);
    assert_eq!(e.block_ranges, vec![(100, 250)]);
    assert_eq!(e.totals(), (199, 201));
    assert!(e.has_issues());
    e.add_pallet_run("System", 0, 1, 2, 0, 0, 0, 0, T);
    assert!(e.pallets.is_none());
    let mut r = EndpointCoverage::new("runtime-spec", false);
    r.record_runtime_result(&TestResult::Match, T);
    r.record_runtime_result(&TestResult::RustError("HTTP 500".to_string()), T);
    assert_eq!((r.matched, r.rust_errors, r.mismatched), (1, 1, 0));
    assert_eq!(r.total_tests(), 2);
}

#[test]
fn store_creates_chains_and_endpoints_once() {
    let mut data = CoverageData::new();
    assert_eq!(data.version, "1.0");
    data.get_chain("polkadot", 70, T).get_endpoint("block", false, T).add_block_run(0, 9, 10, 0, 0, 0, 0, T);
    data.get_chain("polkadot", 70, T).get_endpoint("block", false, T).add_block_run(10, 19, 9, 1, 0, 0, 0, T);
    data.get_chain("kusama", 60, T).get_endpoint("pallet-consts", true, T).add_pallet_run("System", 0, 0, 1, 0, 0, 0, 0, T);
    assert_eq!(data.chains.len(), 2);
    let dot = &data.chains[0];
    assert_eq!((dot.chain.as_str(), dot.total_pallets, dot.endpoints.len()), ("polkadot", 70, 1));
    assert_eq!(dot.endpoints[0].block_ranges, vec![(0, 19)]);
    assert_eq!(dot.overall_stats(), (19, 20));
    assert_eq!(data.chains[1].overall_stats(), (1, 1));
    let fresh = ChainCoverage::new("westend", 3, T);
    assert_eq!(fresh.overall_stats(), (0, 0));
}

#[test]
fn ranges_render_for_reports() {
    assert_eq!(format_ranges(&[]), "none");
    assert_eq!(format_ranges(&[(0, 100)]), "0-100");
    assert_eq!(format_ranges(&[(0, 100), (500, 600)]), "0-100, 500-600");
    assert_eq!(format_ranges(&[(7, 7), (10, 4294967295)]), "7-7, 10-4294967295");
}

#[test]
fn runtime_outcomes_map_to_counters() {
    let mut e = EndpointCoverage::new("runtime-metadata", false);
    e.record_runtime_result(&TestResult::Match, T);
    e.record_runtime_result(&TestResult::SidecarError("HTTP 500".to_string()), T);
    e.record_runtime_result(&TestResult::BothError { rust_error: "a".to_string(), sidecar_error: "a".to_string() }, T);
    e.record_runtime_result(&TestResult::Mismatch {
        rust_response: api_diff::json::JsonValue::Null,
        sidecar_response: api_diff::json::JsonValue::Bool(true),
        diffs: Vec::new(),
    }, T);
    assert!(e.tested);
    assert_eq!((e.matched, e.mismatched, e.rust_errors, e.sidecar_errors, e.both_errors), (2, 1, 0, 1, 0));
    assert_eq!(e.last_tested, T);
    e.record_runtime_result(&TestResult::RustError("x".to_string()), T);
    e.record_runtime_result(&TestResult::BothError { rust_error: "a".to_string(), sidecar_error: "b".to_string() }, T);
    assert_eq!((e.matched, e.mismatched, e.rust_errors, e.sidecar_errors, e.both_errors), (2, 1, 1, 1, 1));
}
