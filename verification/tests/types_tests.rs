use bear_bridge_engine::{str_to_join_type, BearBridgeError, Condition, JoinKind, JoinOptions, TimeUnit};
use polars::prelude::JoinType;
use std::str::FromStr;

#[test]
fn test_condition_cols_and_operators() {
    // Test Standard variant
    let c1 = Condition::Standard {
        left_col: "user_id".to_string(),
        right_col: "id".to_string(),
        op: "==".to_string(),
    };
    assert_eq!(c1.cols(), ("user_id", "id"));
    assert_eq!(c1.operator(), "==");

    // Test Difference variant
    let c2 = Condition::Difference {
        left_col: "price".to_string(),
        right_col: "cost".to_string(),
        op: ">".to_string(),
        thr: 10.5f64.to_bits(),
    };
    assert_eq!(c2.cols(), ("price", "cost"));
    assert_eq!(c2.operator(), ">");
}

#[test]
fn test_condition_options_conversion() {
    // 1. Test Standard -> Standard
    let c_std = Condition::Standard {
        left_col: "a".into(),
        right_col: "b".into(),
        op: "==".into(),
    };
    match c_std.options().unwrap() {
        JoinOptions::Standard => (),
        _ => panic!("Expected JoinOptions::Standard"),
    }

    // 2. Test TimeDifference -> TimeDifference with TimeUnit parsing
    let c_time = Condition::TimeDifference {
        left_col: "t1".into(),
        right_col: "t2".into(),
        op: "<".into(),
        thr: 5.0f64.to_bits(),
        time_unit: "s".into(), // Testing string "s" parses to Seconds
    };

    let opts = c_time.options().unwrap();
    if let JoinOptions::TimeDifference { thr, time_unit } = opts {
        assert_eq!(f64::from_bits(thr), 5.0);
        assert_eq!(time_unit, TimeUnit::Seconds);
    } else {
        panic!("Expected JoinOptions::TimeDifference");
    }
}

#[test]
fn test_invalid_time_unit_fails() {
    let c_bad = Condition::TimeDifference {
        left_col: "t1".into(),
        right_col: "t2".into(),
        op: "<".into(),
        thr: 5.0f64.to_bits(),
        time_unit: "invalid_unit".into(),
    };

    // This should return a BearBridgeError because of TimeUnit::from_str
    assert!(c_bad.options().is_err());
}

#[test]
fn test_time_unit_from_str() {
    // Test abbreviations
    assert_eq!(TimeUnit::from_str("d").unwrap(), TimeUnit::Days);
    assert_eq!(TimeUnit::from_str("h").unwrap(), TimeUnit::Hours);
    assert_eq!(TimeUnit::from_str("m").unwrap(), TimeUnit::Minutes);
    assert_eq!(TimeUnit::from_str("s").unwrap(), TimeUnit::Seconds);
    assert_eq!(TimeUnit::from_str("ms").unwrap(), TimeUnit::Milliseconds);

    // Test full names and case insensitivity
    assert_eq!(TimeUnit::from_str("DAYS").unwrap(), TimeUnit::Days);
    assert_eq!(TimeUnit::from_str("Minutes").unwrap(), TimeUnit::Minutes);
    assert_eq!(TimeUnit::from_str("milliseconds").unwrap(), TimeUnit::Milliseconds);

    // Test invalid unit
    let result = TimeUnit::from_str("weeks");
    assert!(result.is_err());
    if let Err(BearBridgeError::InvalidTimeUnit(msg)) = result {
        assert_eq!(msg, "weeks");
    } else {
        panic!("Expected InvalidTimeUnit error");
    }
}

#[test]
fn test_time_unit_to_nanos() {
    // Base units
    assert_eq!(TimeUnit::Milliseconds.to_nanos(), 1_000_000);
    assert_eq!(TimeUnit::Seconds.to_nanos(), 1_000_000_000);

    // Calculated units
    assert_eq!(TimeUnit::Minutes.to_nanos(), 60_000_000_000);
    assert_eq!(TimeUnit::Hours.to_nanos(), 3_600_000_000_000);

    // Large unit (Days)
    // 24 * 60 * 60 * 10^9 = 86,400,000,000,000
    assert_eq!(TimeUnit::Days.to_nanos(), 86_400_000_000_000);
}

#[test]
fn test_str_to_join_type_mappings() {
    // Test standard mappings
    assert_eq!(str_to_join_type("inner").unwrap(), JoinType::Inner);
    assert_eq!(str_to_join_type("left").unwrap(), JoinType::Left);

    // Test aliases for Full join
    assert_eq!(str_to_join_type("full").unwrap(), JoinType::Full);
    assert_eq!(str_to_join_type("outer").unwrap(), JoinType::Full);

    // Test case insensitivity
    assert_eq!(str_to_join_type("INNER").unwrap(), JoinType::Inner);
    assert_eq!(str_to_join_type("OuTeR").unwrap(), JoinType::Full);
}

#[test]
fn test_str_to_join_type_error() {
    // Test invalid join type string
    let result = str_to_join_type("semi");
    assert!(result.is_err());

    if let Err(BearBridgeError::InvalidJoinType(msg)) = result {
        assert_eq!(msg, "semi");
    } else {
        panic!("Expected InvalidJoinType error");
    }
}

#[test]
fn time_unit_parse_trait_and_mixed_case() {
    let parsed: TimeUnit = "HoUrS".parse().unwrap();
    assert_eq!(parsed, TimeUnit::Hours);
    assert_eq!(TimeUnit::from_str("MS").unwrap(), TimeUnit::Milliseconds);
    assert_eq!(TimeUnit::from_str("Seconds").unwrap(), TimeUnit::Seconds);
    // The error reports the text as given, not its lowercase form.
    match TimeUnit::from_str("Weeks") {
        Err(BearBridgeError::InvalidTimeUnit(msg)) => assert_eq!(msg, "Weeks"),
        other => panic!("unexpected {:?}", other),
    }
    assert!(TimeUnit::from_str("").is_err());
    assert!(TimeUnit::from_str(" d").is_err());
}

#[test]
fn join_kind_names() {
    assert_eq!(JoinKind::from_str("Left").unwrap(), JoinKind::Left);
    assert_eq!(JoinKind::from_str("FULL").unwrap(), JoinKind::Full);
    assert_eq!(JoinKind::from_str("outer").unwrap(), JoinKind::Full);
    assert_eq!(JoinKind::from_str("inner").unwrap(), JoinKind::Inner);
    match JoinKind::from_str("Cross") {
        Err(BearBridgeError::InvalidJoinType(msg)) => assert_eq!(msg, "Cross"),
        other => panic!("unexpected {:?}", other),
    }
    // A lowercase form given separately decides; the original text is reported.
    assert_eq!(JoinKind::from_lowercased("left", "LEFT").unwrap(), JoinKind::Left);
    match JoinKind::from_lowercased("right", "Right") {
        Err(BearBridgeError::InvalidJoinType(msg)) => assert_eq!(msg, "Right"),
        other => panic!("unexpected {:?}", other),
    }
}

#[test]
fn time_unit_from_lowercased_reports_input() {
    assert_eq!(TimeUnit::from_lowercased("d", "D").unwrap(), TimeUnit::Days);
    match TimeUnit::from_lowercased("week", "WEEK") {
        Err(BearBridgeError::InvalidTimeUnit(msg)) => assert_eq!(msg, "WEEK"),
        other => panic!("unexpected {:?}", other),
    }
}

#[test]
fn condition_from_fields_variants() {
    let t = Condition::from_fields("a".into(), "b".into(), "<".into(), Some(1.5f64.to_bits()), Some("h".into()));
    match &t {
        Condition::TimeDifference { left_col, right_col, op, thr, time_unit } => {
            assert_eq!((left_col.as_str(), right_col.as_str(), op.as_str()), ("a", "b", "<"));
            assert_eq!(f64::from_bits(*thr), 1.5);
            assert_eq!(time_unit, "h");
        }
        other => panic!("unexpected {:?}", other),
    }
    let d = Condition::from_fields("a".into(), "b".into(), ">".into(), Some(2.0f64.to_bits()), None);
    assert!(matches!(d, Condition::Difference { thr, .. } if f64::from_bits(thr) == 2.0));
    let s = Condition::from_fields("a".into(), "b".into(), "==".into(), None, Some("h".into()));
    assert!(matches!(s, Condition::Standard { .. }));
    let s2 = Condition::from_fields("a".into(), "b".into(), "==".into(), None, None);
    assert_eq!(s2.cols(), ("a", "b"));
    assert!(matches!(s2.options().unwrap(), JoinOptions::Standard));
}

#[test]
fn difference_options_keep_threshold() {
    let c = Condition::Difference {
        left_col: "x".into(),
        right_col: "y".into(),
        op: "<".into(),
        thr: 0.25f64.to_bits(),
    };
    assert_eq!(c.options().unwrap(), JoinOptions::Difference { thr: 0.25f64.to_bits() });
    let t = Condition::TimeDifference {
        left_col: "x".into(),
        right_col: "y".into(),
        op: "<".into(),
        thr: 3.0f64.to_bits(),
        time_unit: "DAYS".into(),
    };
    assert_eq!(
        t.options().unwrap(),
        JoinOptions::TimeDifference { thr: 3.0f64.to_bits(), time_unit: TimeUnit::Days }
    );
}
