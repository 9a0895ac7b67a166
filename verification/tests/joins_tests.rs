use bear_bridge_engine::{get_predicates, BearBridgeError, Operand, Operator};
use polars::prelude::{Column, DataFrame, NamedFrom};

fn students() -> DataFrame {
    DataFrame::new(vec![
        Column::new("name".into(), &["Alice", "Bob", "Charlie"]),
        Column::new("score".into(), &[85, 42, 95]),
    ])
    .unwrap()
}

fn requirements() -> DataFrame {
    DataFrame::new(vec![
        Column::new("min_score".into(), &[50]),
        Column::new("category".into(), &["passing"]),
    ])
    .unwrap()
}

fn triple(l: &str, r: &str, op: &str) -> (String, String, String) {
    (l.to_string(), r.to_string(), op.to_string())
}

#[test]
fn valid_conditions_give_column_predicates() {
    let conditions = vec![triple("score", "min_score", ">"), triple("name", "category", "!=")];
    let predicates = get_predicates(&students(), &requirements(), &conditions).unwrap();
    assert_eq!(predicates.len(), 2);
    assert_eq!(predicates[0].op, Operator::Gt);
    assert_eq!(predicates[0].lhs, Operand::Column("score".into()));
    assert_eq!(predicates[0].rhs, Operand::Column("min_score".into()));
    assert_eq!(predicates[1].op, Operator::NotEq);
}

#[test]
fn all_errors_are_collected() {
    let conditions = vec![
        triple("scor", "min_score", ">"),
        triple("score", "max", "~"),
        triple("name", "category", "=="),
    ];
    match get_predicates(&students(), &requirements(), &conditions) {
        Err(BearBridgeError::MultiError(n, json)) => {
            assert_eq!(n, 3);
            assert_eq!(
                json,
                r#"[{"error_type":"ColumnNotFound","details":{"column":"scor","side":"left"}},{"error_type":"ColumnNotFound","details":{"column":"max","side":"right"}},{"error_type":"InvalidOperator","details":"~"}]"#
            );
        }
        other => panic!("unexpected {:?}", other),
    }
}

#[test]
fn no_conditions_no_predicates() {
    let conditions: Vec<(String, String, String)> = Vec::new();
    assert!(get_predicates(&students(), &requirements(), &conditions).unwrap().is_empty());
}

#[test]
fn multi_error_message() {
    let conditions = vec![triple("x", "y", "<")];
    let err = get_predicates(&students(), &requirements(), &conditions).unwrap_err();
    assert_eq!(
        err.to_string(),
        "Validation filed with 2 errors:\n[{\"error_type\":\"ColumnNotFound\",\"details\":{\"column\":\"x\",\"side\":\"left\"}},{\"error_type\":\"ColumnNotFound\",\"details\":{\"column\":\"y\",\"side\":\"right\"}}]"
    );
}
