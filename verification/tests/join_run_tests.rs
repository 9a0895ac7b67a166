use bear_bridge_engine::{
    conditional_join, get_predicate, plan_join, predicate_expr, run_join, BearBridgeError, Condition,
    JoinIterator, Operand, Operator, Predicate,
};
use polars::prelude::{lit, Column, DataFrame, Expr, IntoLazy, NamedFrom};

fn float_lit(bits: u64) -> Expr {
    lit(f64::from_bits(bits))
}

fn expr_text(cond: &Condition) -> String {
    let p = get_predicate(cond).unwrap();
    format!("{:?}", predicate_expr(&p, &float_lit))
}

fn column_predicate(op: Operator, l: &str, r: &str) -> Predicate {
    Predicate { op, lhs: Operand::Column(l.into()), rhs: Operand::Column(r.into()) }
}

#[test]
fn test_pl_expr_generation() {
    // Test Greater Than
    let expr = predicate_expr(&column_predicate(Operator::Gt, "left", "right"), &float_lit);
    assert_eq!(format!("{:?}", expr), "[(col(\"left\")) > (col(\"right\"))]");

    // Test Equality
    let expr_eq = predicate_expr(&column_predicate(Operator::Eq, "left", "right"), &float_lit);
    assert_eq!(format!("{:?}", expr_eq), "[(col(\"left\")) == (col(\"right\"))]");

    // Test Not Equal
    let expr_neq = predicate_expr(&column_predicate(Operator::NotEq, "left", "right"), &float_lit);
    assert_eq!(format!("{:?}", expr_neq), "[(col(\"left\")) != (col(\"right\"))]");
}

#[test]
fn test_operator_execution() {
    let df = DataFrame::new(vec![
        Column::new("left".into(), &[10, 20, 30]),
        Column::new("right".into(), &[5, 25, 30]),
    ])
    .unwrap();

    let expr = predicate_expr(&column_predicate(Operator::Gt, "left", "right"), &float_lit);

    let res = df.lazy().select([expr.alias("result")]).collect().unwrap();

    let series = res.column("result").unwrap().bool().unwrap();
    assert_eq!(series.get(0), Some(true)); // 10 > 5
    assert_eq!(series.get(1), Some(false)); // 20 > 25
    assert_eq!(series.get(2), Some(false)); // 30 > 30
}

#[test]
fn predicate_expressions_render_as_the_engine_builds_them() {
    let std = Condition::Standard { left_col: "id_l".into(), right_col: "id_r".into(), op: "==".into() };
    assert_eq!(expr_text(&std), "[(col(\"id_l\")) == (col(\"id_r\"))]");

    let diff = Condition::Difference {
        left_col: "val_a".into(),
        right_col: "val_b".into(),
        op: ">=".into(),
        thr: 100.0f64.to_bits(),
    };
    assert_eq!(
        expr_text(&diff),
        "[([(col(\"val_a\")) - (col(\"val_b\"))].abs()) >= (dyn float: 100)]"
    );

    let time = Condition::TimeDifference {
        left_col: "ts_l".into(),
        right_col: "ts_r".into(),
        op: "<".into(),
        thr: 2.0f64.to_bits(),
        time_unit: "s".into(),
    };
    assert_eq!(
        expr_text(&time),
        "[([(col(\"ts_r\")) - (col(\"ts_l\"))].abs().cast(Int64)) < (dyn int: 2000000000)]"
    );

    let neq = Condition::Standard { left_col: "a".into(), right_col: "b".into(), op: "!=".into() };
    assert_eq!(expr_text(&neq), "[(col(\"a\")) != (col(\"b\"))]");
}

#[test]
fn test_full_conditional_join() {
    // 1. Create Left DataFrame (Students)
    let df_students = DataFrame::new(vec![
        Column::new("name".into(), &["Alice", "Bob", "Charlie"]),
        Column::new("score".into(), &[85, 42, 95]),
    ])
    .expect("failed to create students df");

    // 2. Create Right DataFrame (Requirements)
    let df_reqs = DataFrame::new(vec![
        Column::new("min_score".into(), &[50]),
        Column::new("category".into(), &["passing"]),
    ])
    .expect("failed to create requirements df");

    // 3. Define conditions: score > min_score
    let conditions = vec![("score".to_string(), "min_score".to_string(), ">".to_string())];

    // 4. Run the join
    let result = conditional_join(&df_students, &df_reqs, &conditions).expect("Join failed");

    // 5. Assertions
    // Alice (85) and Charlie (95) are > 50. Bob (42) is filtered out.
    assert_eq!(result.height(), 2);

    let names = result.column("name").unwrap().str().unwrap();
    assert!(names.into_iter().any(|opt_name| opt_name == Some("Alice")));
    assert!(names.into_iter().any(|opt_name| opt_name == Some("Charlie")));
}

#[test]
fn conditional_join_reports_condition_errors() {
    let left = DataFrame::new(vec![Column::new("a".into(), &[1])]).unwrap();
    let right = DataFrame::new(vec![Column::new("b".into(), &[1])]).unwrap();
    let conditions = vec![("x".to_string(), "b".to_string(), "<".to_string())];
    match conditional_join(&left, &right, &conditions) {
        Err(BearBridgeError::MultiError(1, _)) => {}
        other => panic!("unexpected {:?}", other),
    }
}

#[test]
fn run_join_with_plan_kind_and_threshold() {
    let left = DataFrame::new(vec![Column::new("x".into(), &[1.0f64, 5.0, 10.0])]).unwrap();
    let right = DataFrame::new(vec![Column::new("y".into(), &[4.0f64])]).unwrap();
    let conds = vec![
        Condition::Standard { left_col: "x".into(), right_col: "y".into(), op: ">".into() },
        Condition::Difference {
            left_col: "x".into(),
            right_col: "y".into(),
            op: "<=".into(),
            thr: 1.5f64.to_bits(),
        },
    ];
    let plan = plan_join(&conds, "inner").unwrap_or_else(|e| panic!("{:?}", e));
    let joined = run_join(&left, &right, &plan, &float_lit).unwrap();
    // x > 4 and |x - 4| <= 1.5: only 5.
    assert_eq!(joined.height(), 1);
    assert_eq!(joined.column("x").unwrap().f64().unwrap().get(0), Some(5.0));
}

fn stream(left: DataFrame, right: DataFrame, conditions: Vec<Condition>, how: &str, chunk_size: usize) -> JoinIterator {
    JoinIterator { left, right, conditions, how: how.into(), current_chunk: 0, chunk_size }
}

#[test]
fn stream_skips_empty_chunks() {
    let left = DataFrame::new(vec![Column::new("a".into(), &[1, 2, 3, 4, 5])]).unwrap();
    let right = DataFrame::new(vec![Column::new("b".into(), &[3])]).unwrap();
    let conds = vec![Condition::Standard { left_col: "a".into(), right_col: "b".into(), op: ">".into() }];
    let mut it = stream(left, right, conds, "inner", 2);

    // Chunk [1, 2] has no match and is skipped.
    let first = it.next_joined(&float_lit).unwrap().unwrap();
    assert_eq!(first.column("a").unwrap().i32().unwrap().get(0), Some(4));
    assert_eq!(first.column("b").unwrap().i32().unwrap().get(0), Some(3));
    assert_eq!(first.height(), 1);
    assert_eq!(it.current_chunk, 2);

    let second = it.next_joined(&float_lit).unwrap().unwrap();
    assert_eq!(second.column("a").unwrap().i32().unwrap().get(0), Some(5));
    assert_eq!(it.current_chunk, 3);

    assert!(it.next_joined(&float_lit).is_none());
}

#[test]
fn stream_plan_error_once_per_chunk() {
    let left = DataFrame::new(vec![Column::new("a".into(), &[1, 2, 3])]).unwrap();
    let right = DataFrame::new(vec![Column::new("b".into(), &[3])]).unwrap();
    let conds = vec![Condition::Standard { left_col: "a".into(), right_col: "b".into(), op: ">".into() }];
    let mut it = stream(left, right, conds, "sideways", 2);
    for _ in 0..2 {
        match it.checked_next_joined(&float_lit) {
            Some(Some(Err(BearBridgeError::InvalidJoinType(s)))) => assert_eq!(s, "sideways"),
            other => panic!("unexpected {:?}", other.map(|o| o.map(|r| r.is_ok()))),
        }
    }
    assert_eq!(it.current_chunk, 2);
    assert!(matches!(it.checked_next_joined(&float_lit), Some(None)));
}

#[test]
fn stream_limits() {
    let left = DataFrame::new(vec![Column::new("a".into(), &[1, 2])]).unwrap();
    let right = DataFrame::new(vec![Column::new("b".into(), &[3])]).unwrap();
    let weekday = vec![Condition::Standard { left_col: "a".into(), right_col: "b".into(), op: "weekday".into() }];
    let mut it = stream(left.clone(), right.clone(), weekday, "inner", 1);
    assert!(it.checked_next_joined(&float_lit).is_none());
    assert_eq!(it.current_chunk, 0);

    let fine = vec![Condition::Standard { left_col: "a".into(), right_col: "b".into(), op: "<".into() }];
    let mut it = stream(left, right, fine, "inner", 0);
    assert!(it.checked_next_joined(&float_lit).is_none());
}

#[test]
fn stream_zero_batch_ends_or_repeats_the_plan_error() {
    let right = DataFrame::new(vec![Column::new("b".into(), &[3])]).unwrap();
    let fine = vec![Condition::Standard { left_col: "a".into(), right_col: "b".into(), op: "<".into() }];

    // No left rows: the stream ends at once.
    let empty = DataFrame::new(vec![Column::new("a".into(), Vec::<i32>::new())]).unwrap();
    let mut it = stream(empty, right.clone(), fine.clone(), "inner", 0);
    assert!(matches!(it.checked_next_joined(&float_lit), Some(None)));
    assert_eq!(it.current_chunk, 0);

    // A plan error is handed on at every step.
    let left = DataFrame::new(vec![Column::new("a".into(), &[1, 2])]).unwrap();
    let mut it = stream(left, right, fine, "sideways", 0);
    for step in 1..4 {
        match it.checked_next_joined(&float_lit) {
            Some(Some(Err(BearBridgeError::InvalidJoinType(s)))) => assert_eq!(s, "sideways"),
            other => panic!("unexpected {:?}", other.map(|o| o.map(|r| r.is_ok()))),
        }
        assert_eq!(it.current_chunk, step);
    }
}

#[test]
fn stream_hands_out_at_most_one_result_per_chunk() {
    let left = DataFrame::new(vec![Column::new("a".into(), &[4, 5, 6, 7, 8])]).unwrap();
    let right = DataFrame::new(vec![Column::new("b".into(), &[3])]).unwrap();
    let conds = vec![Condition::Standard { left_col: "a".into(), right_col: "b".into(), op: ">".into() }];
    let mut it = stream(left, right, conds, "inner", 2);
    let mut heights = Vec::new();
    while let Some(joined) = it.next_joined(&float_lit) {
        heights.push(joined.unwrap().height());
    }
    // Five rows in chunks of two: three chunks, each handed on once.
    assert_eq!(heights, vec![2, 2, 1]);
    assert_eq!(it.current_chunk, 3);
    assert!(it.next_joined(&float_lit).is_none());
    assert_eq!(it.current_chunk, 3);
}

#[test]
fn run_join_with_a_lone_difference_predicate() {
    let left = DataFrame::new(vec![Column::new("x".into(), &[1.0f64, 5.0, 10.0])]).unwrap();
    let right = DataFrame::new(vec![Column::new("y".into(), &[4.0f64])]).unwrap();
    let conds = vec![Condition::Difference {
        left_col: "x".into(),
        right_col: "y".into(),
        op: "<".into(),
        thr: 2.0f64.to_bits(),
    }];
    let plan = plan_join(&conds, "inner").unwrap_or_else(|e| panic!("{:?}", e));
    let joined = run_join(&left, &right, &plan, &float_lit).unwrap();
    // |x - 4| < 2: only 5.
    assert_eq!(joined.height(), 1);
    assert_eq!(joined.column("x").unwrap().f64().unwrap().get(0), Some(5.0));
}
