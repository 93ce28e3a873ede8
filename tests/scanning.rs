use api_diff::chains::{Chain, Pallet};
use api_diff::compare::{compare_responses, TestResult};
use api_diff::json::JsonValue;
use api_diff::scan::{
    batch_windows, composite_id, extrinsic_count, filter_pallets, latest_block_number, plan_extrinsics, AccountResult, IssueKind,
    PalletResult, RunTally,
};

fn s(t: &str) -> JsonValue {
    JsonValue::String(t.to_string())
}

fn obj(entries: Vec<(&str, JsonValue)>) -> JsonValue {
    JsonValue::Object(entries.into_iter().map(|(k, v)| (k.to_string(), v)).collect())
}

fn total(t: &RunTally) -> u32 {
    t.matched + t.mismatched + t.rust_errors + t.sidecar_errors + t.both_errors
}

#[test]
fn identical_errors_on_both_sides_count_as_match() {
    let mut tally = RunTally::new();
    let outcome = compare_responses(Err("HTTP 404 Not Found".to_string()), Err("HTTP 404 Not Found".to_string()));
    tally.process_result(999, outcome);
    assert_eq!(tally.matched, 1);
    assert_eq!(tally.both_errors, 0);
    assert!(tally.issues.is_empty());
    assert!(!tally.has_issues());
}

#[test]
fn different_errors_on_both_sides_are_logged() {
    let mut tally = RunTally::new();
    tally.process_result(7, TestResult::BothError { rust_error: "HTTP 404".to_string(), sidecar_error: "HTTP 500".to_string() });
    assert_eq!(tally.matched, 0);
    assert_eq!(tally.both_errors, 1);
    assert_eq!(tally.issues.len(), 1);
    assert_eq!(tally.issues[0].id, 7);
    assert!(matches!(&tally.issues[0].kind, IssueKind::BothErrors { rust_error, sidecar_error } if rust_error == "HTTP 404" && sidecar_error == "HTTP 500"));
    assert!(tally.has_issues());
}

#[test]
fn every_outcome_is_counted_once() {
    let mut tally = RunTally::new();
    let batch = vec![
        (1u64, TestResult::Match),
        (2, compare_responses(Ok(obj(vec![("number", s("5"))])), Ok(obj(vec![("number", s("6"))])))),
        (3, TestResult::RustError("Request failed: refused".to_string())),
        (4, TestResult::SidecarError("HTTP 502 Bad Gateway".to_string())),
        (5, TestResult::BothError { rust_error: "x".to_string(), sidecar_error: "x".to_string() }),
        (6, TestResult::BothError { rust_error: "x".to_string(), sidecar_error: "y".to_string() }),
        (7, TestResult::Match),
    ];
    let n = batch.len() as u32;
    tally.process_batch(batch);
    assert_eq!(total(&tally), n);
    assert_eq!((tally.matched, tally.mismatched, tally.rust_errors, tally.sidecar_errors, tally.both_errors), (3, 1, 1, 1, 1));
    let ids: Vec<u64> = tally.issues.iter().map(|i| i.id).collect();
    assert_eq!(ids, vec![2, 3, 4, 6]);
    assert!(matches!(&tally.issues[0].kind, IssueKind::Mismatch(d) if d.len() == 1));
    assert!(matches!(&tally.issues[1].kind, IssueKind::RustError(e) if e == "Request failed: refused"));
    assert!(matches!(&tally.issues[2].kind, IssueKind::SidecarError(e) if e == "HTTP 502 Bad Gateway"));
}

#[test]
fn failed_lookup_counts_as_reference_error() {
    let mut tally = RunTally::new();
    tally.record_lookup_failure(12, "HTTP 404 Not Found".to_string());
    assert_eq!(tally.rust_errors, 1);
    assert_eq!(total(&tally), 1);
    assert!(matches!(&tally.issues[0].kind, IssueKind::LookupFailed(e) if e == "HTTP 404 Not Found"));
}

#[test]
fn windows_partition_the_range() {
    assert_eq!(batch_windows(0, 9, 4), vec![(0, 3), (4, 7), (8, 9)]);
    assert_eq!(batch_windows(5, 5, 10), vec![(5, 5)]);
    assert_eq!(batch_windows(10, 19, 5), vec![(10, 14), (15, 19)]);
    assert!(batch_windows(6, 5, 3).is_empty());
    assert_eq!(batch_windows(u32::MAX - 1, u32::MAX, 1), vec![(u32::MAX - 1, u32::MAX - 1), (u32::MAX, u32::MAX)]);
    assert_eq!(batch_windows(0, u32::MAX, u32::MAX), vec![(0, u32::MAX - 1), (u32::MAX, u32::MAX)]);
}

#[test]
fn composite_ids_pack_block_and_index() {
    assert_eq!(composite_id(5, 3), 50003);
    assert_eq!(composite_id(1_000_000, 0), 10_000_000_000);
    assert_eq!(composite_id(u32::MAX, u32::MAX), u32::MAX as u64 * 10000 + u32::MAX as u64);
}

#[test]
fn extrinsic_count_reads_list_or_root_array() {
    let listed = obj(vec![("number", s("1")), ("extrinsics", JsonValue::Array(vec![s("a"), s("b"), s("c")]))]);
    assert_eq!(extrinsic_count(&listed), Some(3));
    assert_eq!(extrinsic_count(&JsonValue::Array(vec![s("a")])), Some(1));
    assert_eq!(extrinsic_count(&obj(vec![("extrinsics", s("none"))])), None);
    assert_eq!(extrinsic_count(&obj(vec![("other", JsonValue::Array(vec![]))])), None);
    assert_eq!(extrinsic_count(&JsonValue::Null), None);
}

#[test]
fn pallet_filter_matches_case_insensitively() {
    let pallets = vec![
        Pallet { name: "System", index: 0 },
        Pallet { name: "Staking", index: 7 },
        Pallet { name: "NominationPools", index: 39 },
        Pallet { name: "FastUnstake", index: 40 },
    ];
    let picked: Vec<&str> = filter_pallets(&pallets, Some("STAK")).iter().map(|p| p.name).collect();
    assert_eq!(picked, vec!["Staking", "FastUnstake"]);
    assert_eq!(filter_pallets(&pallets, None).len(), 4);
    assert!(filter_pallets(&pallets, Some("nothing")).is_empty());
    let polkadot = Chain::Polkadot.pallets();
    assert!(filter_pallets(&polkadot, Some("system")).iter().any(|p| p.name == "System"));
}

#[test]
fn results_take_the_tally() {
    let mut tally = RunTally::new();
    tally.process_result(3, TestResult::RustError("e".to_string()));
    let r = PalletResult::from_tally(Pallet { name: "Balances", index: 5 }, tally);
    assert_eq!((r.name.as_str(), r.index, r.rust_errors, r.issues.len()), ("Balances", 5, 1, 1));
    let a = AccountResult::from_tally("alice".to_string(), "5Grw".to_string(), RunTally::new());
    assert_eq!((a.label.as_str(), a.address.as_str(), a.matched, a.issues.len()), ("alice", "5Grw", 0, 0));
}

#[test]
fn head_block_number_is_read_from_text() {
    assert_eq!(latest_block_number(&obj(vec![("hash", s("0x1")), ("number", s("12345"))])), Some(12345));
    assert_eq!(latest_block_number(&obj(vec![("number", s("+7"))])), Some(7));
    assert_eq!(latest_block_number(&obj(vec![("number", s("4294967295"))])), Some(u32::MAX));
    assert_eq!(latest_block_number(&obj(vec![("number", s("4294967296"))])), None);
    assert_eq!(latest_block_number(&obj(vec![("number", s("12a"))])), None);
    assert_eq!(latest_block_number(&obj(vec![("number", s(""))])), None);
    assert_eq!(latest_block_number(&obj(vec![("number", s("+"))])), None);
    assert_eq!(latest_block_number(&obj(vec![("number", s("-1"))])), None);
    assert_eq!(latest_block_number(&obj(vec![("number", JsonValue::Number("5".to_string()))])), None);
    assert_eq!(latest_block_number(&JsonValue::Array(vec![])), None);
}

#[test]
fn two_phase_fan_out_per_block() {
    let mut tally = RunTally::new();
    let listed = obj(vec![("extrinsics", JsonValue::Array(vec![s("a"), s("b"), s("c")]))]);
    assert_eq!(plan_extrinsics(&mut tally, 5, Ok(listed)), vec![0, 1, 2]);
    assert_eq!(total(&tally), 0);
    assert!(plan_extrinsics(&mut tally, 6, Ok(obj(vec![("other", s("x"))]))).is_empty());
    assert_eq!(tally.rust_errors, 1);
    assert!(matches!(tally.issues[0].kind, IssueKind::LookupUnreadable));
    assert!(plan_extrinsics(&mut tally, 7, Err("HTTP 500 Internal Server Error".to_string())).is_empty());
    assert_eq!(tally.rust_errors, 2);
    assert_eq!(tally.issues.len(), 2);
    assert_eq!(tally.issues[1].id, 7);
}
