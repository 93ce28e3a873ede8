use api_diff::compare::{compare_responses, TestResult};
use api_diff::diff::{json_diff, json_equal, value_type_name, DiffType, JsonDiff};
use api_diff::json::JsonValue;

fn s(t: &str) -> JsonValue {
    JsonValue::String(t.to_string())
}

fn n(t: &str) -> JsonValue {
    JsonValue::Number(t.to_string())
}

fn arr(items: Vec<JsonValue>) -> JsonValue {
    JsonValue::Array(items)
}

fn obj(entries: Vec<(&str, JsonValue)>) -> JsonValue {
    JsonValue::Object(entries.into_iter().map(|(k, v)| (k.to_string(), v)).collect())
}

fn sample() -> JsonValue {
    obj(vec![
        ("number", s("42")),
        ("hash", s("0xABCdef")),
        ("flags", arr(vec![JsonValue::Bool(true), JsonValue::Null, n("-3")])),
        (
            "nested",
            obj(vec![("inner", arr(vec![obj(vec![("x", n("1.5"))]), arr(vec![])])), ("empty", obj(vec![]))]),
        ),
    ])
}

fn kinds(d: &[JsonDiff]) -> Vec<DiffType> {
    d.iter().map(|x| x.diff_type).collect()
}

fn paths(d: &[JsonDiff]) -> Vec<String> {
    d.iter().map(|x| x.path.clone()).collect()
}

#[test]
fn document_has_no_difference_with_itself() {
    let v = sample();
    assert!(json_diff(&v, &v).is_empty());
    assert!(json_equal(&v, &v));
    assert!(json_diff(&JsonValue::Null, &JsonValue::Null).is_empty());
    assert!(json_equal(&arr(vec![]), &arr(vec![])));
}

#[test]
fn diff_is_empty_exactly_when_equal() {
    let pairs = vec![
        (sample(), sample()),
        (obj(vec![("a", n("1"))]), obj(vec![("a", n("2"))])),
        (obj(vec![("a", n("1"))]), obj(vec![("a", n("1")), ("b", n("2"))])),
        (obj(vec![("a", s("X"))]), obj(vec![("a", s("x"))])),
        (arr(vec![n("1")]), arr(vec![n("1"), n("2")])),
        (n("5"), s("5")),
        (JsonValue::Bool(true), JsonValue::Bool(false)),
        (obj(vec![("a", n("1")), ("b", n("2"))]), obj(vec![("b", n("2")), ("a", n("1"))])),
    ];
    for (a, b) in pairs {
        assert_eq!(json_diff(&a, &b).is_empty(), json_equal(&a, &b));
        assert_eq!(json_diff(&b, &a).is_empty(), json_equal(&b, &a));
    }
}

#[test]
fn string_comparison_ignores_case() {
    let left = obj(vec![("x", s("Hi"))]);
    let right = obj(vec![("x", s("hi"))]);
    assert!(json_diff(&left, &right).is_empty());
    assert!(json_equal(&left, &right));
}

#[test]
fn different_strings_are_a_value_mismatch() {
    let left = obj(vec![("x", s("Hi"))]);
    let right = obj(vec![("x", s("Ho"))]);
    let d = json_diff(&left, &right);
    assert_eq!(kinds(&d), vec![DiffType::ValueMismatch]);
    assert_eq!(paths(&d), vec!["x".to_string()]);
    assert!(matches!(&d[0].rust_value, Some(JsonValue::String(t)) if t == "Hi"));
    assert!(matches!(&d[0].sidecar_value, Some(JsonValue::String(t)) if t == "Ho"));
    assert!(!json_equal(&left, &right));
}

#[test]
fn missing_keys_are_directional() {
    let one = obj(vec![("a", n("1"))]);
    let empty = obj(vec![]);
    let d = json_diff(&one, &empty);
    assert_eq!(kinds(&d), vec![DiffType::MissingInSidecar]);
    assert_eq!(paths(&d), vec!["a".to_string()]);
    assert!(d[0].rust_value.is_some() && d[0].sidecar_value.is_none());
    let d = json_diff(&empty, &one);
    assert_eq!(kinds(&d), vec![DiffType::MissingInRust]);
    assert_eq!(paths(&d), vec!["a".to_string()]);
    assert!(d[0].rust_value.is_none() && d[0].sidecar_value.is_some());
}

#[test]
fn array_length_mismatch_with_equal_prefix() {
    let left = arr(vec![n("1"), n("2"), n("9")]);
    let right = arr(vec![n("1"), n("2")]);
    let d = json_diff(&left, &right);
    assert_eq!(kinds(&d), vec![DiffType::ArrayLengthMismatch]);
    assert_eq!(paths(&d), vec![String::new()]);
    assert!(matches!(&d[0].rust_value, Some(JsonValue::Array(x)) if x.len() == 3));
    assert!(matches!(&d[0].sidecar_value, Some(JsonValue::Array(x)) if x.len() == 2));
}

#[test]
fn array_length_mismatch_still_reports_elements() {
    let left = obj(vec![("xs", arr(vec![n("1"), n("3"), n("9")]))]);
    let right = obj(vec![("xs", arr(vec![n("1"), n("2")]))]);
    let d = json_diff(&left, &right);
    assert_eq!(kinds(&d), vec![DiffType::ArrayLengthMismatch, DiffType::ValueMismatch]);
    assert_eq!(paths(&d), vec!["xs".to_string(), "xs[1]".to_string()]);
}

#[test]
fn type_mismatches_come_last() {
    let left = obj(vec![("a", n("1")), ("b", s("x")), ("c", n("2")), ("d", JsonValue::Null)]);
    let right = obj(vec![("a", s("1")), ("b", s("y")), ("c", n("3")), ("d", JsonValue::Bool(false))]);
    let d = json_diff(&left, &right);
    assert_eq!(
        kinds(&d),
        vec![DiffType::ValueMismatch, DiffType::ValueMismatch, DiffType::TypeMismatch, DiffType::TypeMismatch]
    );
    assert_eq!(paths(&d), vec!["b".to_string(), "c".to_string(), "a".to_string(), "d".to_string()]);
}

#[test]
fn nested_paths_join_keys_and_indices() {
    let left = obj(vec![("x", obj(vec![("y", arr(vec![n("1"), obj(vec![("z", n("2"))])]))]))]);
    let right = obj(vec![("x", obj(vec![("y", arr(vec![n("1"), obj(vec![("z", n("7"))])]))]))]);
    let d = json_diff(&left, &right);
    assert_eq!(paths(&d), vec!["x.y[1].z".to_string()]);
    let left = arr(vec![n("0"), n("0"), n("0"), n("0"), n("0"), n("0"), n("0"), n("0"), n("0"), n("0"), n("0"), n("1")]);
    let right = arr(vec![n("0"), n("0"), n("0"), n("0"), n("0"), n("0"), n("0"), n("0"), n("0"), n("0"), n("0"), n("2")]);
    assert_eq!(paths(&json_diff(&left, &right)), vec!["[11]".to_string()]);
}

#[test]
fn missing_keys_in_both_directions_keep_discovery_order() {
    let left = obj(vec![("a", n("1")), ("b", n("2")), ("c", n("3"))]);
    let right = obj(vec![("d", n("4")), ("b", n("2")), ("e", n("5"))]);
    let d = json_diff(&left, &right);
    assert_eq!(
        kinds(&d),
        vec![DiffType::MissingInSidecar, DiffType::MissingInSidecar, DiffType::MissingInRust, DiffType::MissingInRust]
    );
    assert_eq!(paths(&d), vec!["a".to_string(), "c".to_string(), "d".to_string(), "e".to_string()]);
    assert!(!json_equal(&left, &right));
}

#[test]
fn numbers_compare_by_text() {
    assert!(json_equal(&n("5"), &n("5")));
    let d = json_diff(&n("5"), &n("5.0"));
    assert_eq!(kinds(&d), vec![DiffType::ValueMismatch]);
    assert_eq!(kinds(&json_diff(&JsonValue::Bool(true), &JsonValue::Bool(false))), vec![DiffType::ValueMismatch]);
    assert_eq!(kinds(&json_diff(&JsonValue::Null, &n("0"))), vec![DiffType::TypeMismatch]);
    assert_eq!(kinds(&json_diff(&obj(vec![]), &arr(vec![]))), vec![DiffType::TypeMismatch]);
}

#[test]
fn equal_responses_are_a_match() {
    let r = compare_responses(Ok(obj(vec![("number", s("5"))])), Ok(obj(vec![("number", s("5"))])));
    assert!(matches!(r, TestResult::Match));
}

#[test]
fn differing_responses_are_a_mismatch() {
    let r = compare_responses(Ok(obj(vec![("number", s("5"))])), Ok(obj(vec![("number", s("6"))])));
    match r {
        TestResult::Mismatch { diffs, rust_response, sidecar_response } => {
            assert_eq!(kinds(&diffs), vec![DiffType::ValueMismatch]);
            assert_eq!(paths(&diffs), vec!["number".to_string()]);
            assert!(json_equal(&rust_response, &obj(vec![("number", s("5"))])));
            assert!(json_equal(&sidecar_response, &obj(vec![("number", s("6"))])));
        }
        other => panic!("expected a mismatch, got {:?}", other),
    }
}

#[test]
fn failed_fetches_are_classified_by_side() {
    let r = compare_responses(Err("HTTP 500 Internal Server Error".to_string()), Ok(JsonValue::Null));
    assert!(matches!(r, TestResult::RustError(ref e) if e == "HTTP 500 Internal Server Error"));
    let r = compare_responses(Ok(JsonValue::Null), Err("Invalid JSON: eof".to_string()));
    assert!(matches!(r, TestResult::SidecarError(ref e) if e == "Invalid JSON: eof"));
    let r = compare_responses(Err("a".to_string()), Err("b".to_string()));
    assert!(matches!(r, TestResult::BothError { ref rust_error, ref sidecar_error } if rust_error == "a" && sidecar_error == "b"));
}

#[test]
fn kind_names_for_reports() {
    assert_eq!(value_type_name(None), "null");
    assert_eq!(value_type_name(Some(&JsonValue::Null)), "null");
    assert_eq!(value_type_name(Some(&n("1"))), "number");
    assert_eq!(value_type_name(Some(&s("x"))), "string");
    assert_eq!(value_type_name(Some(&arr(vec![]))), "array");
    assert_eq!(value_type_name(Some(&obj(vec![]))), "object");
    assert_eq!(value_type_name(Some(&JsonValue::Bool(false))), "bool");
}

#[test]
fn negative_zero_reads_as_zero() {
    assert!(json_equal(&JsonValue::number("-0.0".to_string()), &JsonValue::number("0.0".to_string())));
    assert!(!json_equal(&JsonValue::number("0".to_string()), &JsonValue::number("0.0".to_string())));
    assert!(matches!(JsonValue::number("12".to_string()), JsonValue::Number(ref t) if t == "12"));
}
