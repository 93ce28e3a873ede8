//! Classification of one paired request: both responses arrived and agree,
//! they differ, or one or both sides failed.
use vstd::prelude::*;
use crate::diff::{json_diff, json_equal, diffs_model, diff_report, structurally_equal, JsonDiff};
use crate::json::JsonValue;

verus! {

/// The outcome of comparing one identifier on both servers.
#[derive(Debug)]
pub enum TestResult {
    /// Both servers answered, and the answers agree.
    Match,
    /// Both servers answered, and the answers differ.
    Mismatch { rust_response: JsonValue, sidecar_response: JsonValue, diffs: Vec<JsonDiff> },
    /// Only the reference server failed.
    RustError(String),
    /// Only the candidate server failed.
    SidecarError(String),
    /// Both servers failed.
    BothError { rust_error: String, sidecar_error: String },
}

/// Classifies the two fetch results for one identifier: the reference
/// (`rust`) and the candidate (`sidecar`). A fetch that failed carries its
/// message.
pub fn compare_responses(rust: Result<JsonValue, String>, sidecar: Result<JsonValue, String>) -> (r:
    TestResult)
    ensures
        match (rust, sidecar) {
            (Ok(a), Ok(b)) => if structurally_equal(a.model(), b.model()) {
                r is Match
            } else {
                &&& r is Mismatch
                &&& r->Mismatch_rust_response.model() == a.model()
                &&& r->Mismatch_sidecar_response.model() == b.model()
                &&& diffs_model(r->Mismatch_diffs@) == diff_report(a.model(), b.model())
            },
            (Err(e), Ok(_)) => r == TestResult::RustError(e),
            (Ok(_), Err(e)) => r == TestResult::SidecarError(e),
            (Err(e1), Err(e2)) => r == (TestResult::BothError { rust_error: e1, sidecar_error: e2 }),
        },
{
    match rust {
        Ok(a) => match sidecar {
            Ok(b) => {
                if json_equal(&a, &b) {
                    TestResult::Match
                } else {
                    let diffs = json_diff(&a, &b);
                    TestResult::Mismatch { rust_response: a, sidecar_response: b, diffs }
                }
            },
            Err(e) => TestResult::SidecarError(e),
        },
        Err(e1) => match sidecar {
            Ok(_) => TestResult::RustError(e1),
            Err(e2) => TestResult::BothError { rust_error: e1, sidecar_error: e2 },
        },
    }
}

} // verus!
