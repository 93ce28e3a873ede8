//! Differential testing of two HTTP JSON APIs that should answer alike.
//!
//! - `json`, `diff`: JSON documents and their structural comparison.
//! - `compare`, `scan`: classifying paired responses, batching identifier
//!   ranges and folding outcomes into counters and issue logs.
//! - `ranges`, `coverage`: tested block ranges and coverage across runs.
//! - `endpoints`, `chains`: the endpoints, chains and pallets under test.
pub mod chains;
pub mod compare;
pub mod coverage;
pub mod diff;
pub mod diff_lemmas;
pub mod endpoints;
pub mod git;
pub mod json;
pub mod ranges;
pub mod scan;
pub mod text;
