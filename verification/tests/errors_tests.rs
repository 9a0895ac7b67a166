use bear_bridge_engine::{errors_to_json, BearBridgeError, PyErrorKind};
use polars::prelude::PolarsError;

fn column(column: &str, side: &str) -> BearBridgeError {
    BearBridgeError::ColumnNotFound { column: column.into(), side: side.into() }
}

#[test]
fn messages_follow_their_templates() {
    assert_eq!(
        BearBridgeError::InvalidOperator("~".into()).to_string(),
        "Invalid operator ~. Allowed: >, <, >=, <=, ==, != "
    );
    assert_eq!(column("score", "left").to_string(), "Column score not found in left.");
    assert_eq!(
        BearBridgeError::InvalidTimeUnit("weeks".into()).to_string(),
        "TimeUnit weeks is invalid. Allowed: d|days, h|hours, m|minutes, s|seconds, ms|milliseconds"
    );
    assert_eq!(
        BearBridgeError::InvalidJoinType("semi".into()).to_string(),
        "Join type semi not available. Allowed inner, left, full|outer."
    );
    assert_eq!(
        BearBridgeError::MultiError(12, "[]".into()).to_string(),
        "Validation filed with 12 errors:\n[]"
    );
    assert_eq!(
        BearBridgeError::MultiError(0, "x".into()).to_string(),
        "Validation filed with 0 errors:\nx"
    );
    let polars = BearBridgeError::Polars(PolarsError::ComputeError("boom".into()));
    assert_eq!(polars.to_string(), "Polars engine error: boom");
}

#[test]
fn json_of_single_errors() {
    assert_eq!(
        BearBridgeError::InvalidOperator("~".into()).to_json().unwrap(),
        r#"{"error_type":"InvalidOperator","details":"~"}"#
    );
    assert_eq!(
        column("a\"b", "right").to_json().unwrap(),
        r#"{"error_type":"ColumnNotFound","details":{"column":"a\"b","side":"right"}}"#
    );
    assert_eq!(
        BearBridgeError::InvalidTimeUnit("w\n".into()).to_json().unwrap(),
        r#"{"error_type":"InvalidTimeUnit","details":"w\n"}"#
    );
    assert_eq!(
        BearBridgeError::InvalidJoinType("semi".into()).to_json().unwrap(),
        r#"{"error_type":"InvalidJoinType","details":"semi"}"#
    );
    assert!(BearBridgeError::MultiError(1, "[]".into()).to_json().is_none());
    assert!(BearBridgeError::Polars(PolarsError::NoData("none".into())).to_json().is_none());
}

#[test]
fn json_of_error_lists() {
    let errors = vec![column("x", "left"), BearBridgeError::InvalidOperator("~".into())];
    assert_eq!(
        errors_to_json(&errors),
        r#"[{"error_type":"ColumnNotFound","details":{"column":"x","side":"left"}},{"error_type":"InvalidOperator","details":"~"}]"#
    );
    assert_eq!(errors_to_json(&Vec::new()), "[]");
    // A list with an error that has no JSON form gives an empty array.
    let errors = vec![column("x", "left"), BearBridgeError::MultiError(1, "[]".into())];
    assert_eq!(errors_to_json(&errors), "[]");
}

#[test]
fn python_errors() {
    let (kind, text) = BearBridgeError::MultiError(2, "[1,2]".into()).python_error();
    assert_eq!(kind, PyErrorKind::ValueError);
    assert_eq!(text, "[1,2]");
    let (kind, text) = column("c", "left").python_error();
    assert_eq!(kind, PyErrorKind::RuntimeError);
    assert_eq!(text, "Column c not found in left.");
    let (kind, text) = BearBridgeError::Polars(PolarsError::ComputeError("bad".into())).python_error();
    assert_eq!(kind, PyErrorKind::RuntimeError);
    assert_eq!(text, "Polars engine error: bad");
}
