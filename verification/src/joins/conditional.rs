//! Validation of `(left column, right column, operator)` conditions against two
//! frames, collecting every error instead of stopping at the first.

use vstd::prelude::*;
use vstd::string::*;
use polars::prelude::{DataFrame, Expr, JoinType};
use crate::engine::conditional_join::operators::{
    Operand, OperandSpec, Operator, Predicate, PredicateSpec, operator_implemented, parse_operator,
};
use crate::engine::conditional_join::{JoinPlan, are_predicate_exprs, engine_outcome, predicates_view, run_join};
use crate::engine::conditional_join::types::JoinKind;
use crate::expr::{col_expr, compare_expr, int_lit, is_operand_expr, is_predicate_expr, operand_expr};
use crate::errors::{BearBridgeError, ErrorSpec, errors_json, errors_to_json};
use crate::frame::{column_names, frame_column_names};
use crate::text::str_eq;

verus! {

/// A condition triple in mathematical form.
pub type TripleSpec = (Seq<char>, Seq<char>, Seq<char>);

/// Condition triples in mathematical form.
pub open spec fn triples_view(cs: Seq<(String, String, String)>) -> Seq<TripleSpec> {
    cs.map_values(|c: (String, String, String)| (c.0@, c.1@, c.2@))
}

/// The errors one condition gives, in the order they are found: a missing
/// left column, a missing right column, an unknown operator.
pub open spec fn condition_errors(
    left: Seq<Seq<char>>,
    right: Seq<Seq<char>>,
    c: TripleSpec,
) -> Seq<ErrorSpec> {
    (if left.contains(c.0) {
        Seq::empty()
    } else {
        seq![ErrorSpec::ColumnNotFound { column: c.0, side: "left"@ }]
    }) + (if right.contains(c.1) {
        Seq::empty()
    } else {
        seq![ErrorSpec::ColumnNotFound { column: c.1, side: "right"@ }]
    }) + (match parse_operator(c.2) {
        Ok(_) => Seq::empty(),
        Err(e) => seq![e],
    })
}

/// The errors of all conditions, condition by condition.
pub open spec fn all_errors(
    left: Seq<Seq<char>>,
    right: Seq<Seq<char>>,
    cs: Seq<TripleSpec>,
) -> Seq<ErrorSpec>
    decreases cs.len(),
{
    if cs.len() == 0 {
        Seq::empty()
    } else {
        all_errors(left, right, cs.drop_last()) + condition_errors(left, right, cs.last())
    }
}

/// The predicate `left <op> right` of each condition whose operator is known.
pub open spec fn column_predicates(cs: Seq<TripleSpec>) -> Seq<PredicateSpec>
    decreases cs.len(),
{
    if cs.len() == 0 {
        Seq::empty()
    } else {
        let c = cs.last();
        column_predicates(cs.drop_last()) + match parse_operator(c.2) {
            Ok(op) => seq![
                PredicateSpec { op, lhs: OperandSpec::Column(c.0), rhs: OperandSpec::Column(c.1) },
            ],
            Err(_) => Seq::empty(),
        }
    }
}

/// Conditions are valid when no condition gives an error; then they give their
/// predicates, and otherwise one error that counts and lists all errors.
pub open spec fn validated_predicates(
    left: Seq<Seq<char>>,
    right: Seq<Seq<char>>,
    cs: Seq<TripleSpec>,
) -> Result<Seq<PredicateSpec>, ErrorSpec> {
    let errors = all_errors(left, right, cs);
    if errors.len() == 0 {
        Ok(column_predicates(cs))
    } else {
        Err(ErrorSpec::MultiError(errors.len(), errors_json(errors)))
    }
}

/// The engine can build a predicate for the operator text, or it names no
/// operator at all.
pub open spec fn operator_buildable(op: Seq<char>) -> bool {
    parse_operator(op) matches Ok(o) ==> operator_implemented(o)
}

fn has_name(names: &Vec<String>, name: &str) -> (r: bool)
    ensures
        r == names@.map_values(|s: String| s@).contains(name@),
{
    let ghost view = names@.map_values(|s: String| s@);
    let n = names.len();
    let mut i: usize = 0;
    while i < n
        invariant
            n == names@.len(),
            view == names@.map_values(|s: String| s@),
            i <= n,
            forall|j: int| 0 <= j < i ==> view[j] != name@,
        decreases n - i,
    {
        if str_eq(names[i].as_str(), name) {
            assert(view[i as int] == name@);
            return true;
        }
        i = i + 1;
    }
    assert(!view.contains(name@));
    false
}

/// Checks every condition against the frames' columns and reads its operator,
/// collecting all errors; without errors, gives the predicate `left <op> right`
/// of every condition. The operators must be ones the engine can build.
pub fn get_predicates(
    left: &DataFrame,
    right: &DataFrame,
    conditions: &[(String, String, String)],
) -> (r: Result<Vec<Predicate>, BearBridgeError>)
    requires
        forall|i: int| 0 <= i < conditions@.len() ==> operator_buildable(#[trigger] conditions@[i].2@),
    ensures
        match (
            r,
            validated_predicates(
                frame_column_names(*left),
                frame_column_names(*right),
                triples_view(conditions@),
            ),
        ) {
            (Ok(ps), Ok(expected)) => predicates_view(ps@) == expected,
            (Err(e), Err(f)) => e@ == f,
            _ => false,
        },
{
    let left_columns = column_names(left);
    let right_columns = column_names(right);
    let ghost lnames = frame_column_names(*left);
    let ghost rnames = frame_column_names(*right);
    let ghost cs = triples_view(conditions@);
    assert(left_columns@.map_values(|s: String| s@) =~= lnames);
    assert(right_columns@.map_values(|s: String| s@) =~= rnames);
    let mut errors: Vec<BearBridgeError> = Vec::new();
    let mut predicates: Vec<Predicate> = Vec::new();
    let n = conditions.len();
    let mut i: usize = 0;
    while i < n
        invariant
            n == conditions@.len(),
            cs == triples_view(conditions@),
            left_columns@.map_values(|s: String| s@) == lnames,
            right_columns@.map_values(|s: String| s@) == rnames,
            i <= n,
            errors@.map_values(|e: BearBridgeError| e@) == all_errors(lnames, rnames, cs.take(i as int)),
            predicates_view(predicates@) == column_predicates(cs.take(i as int)),
        decreases n - i,
    {
        let ghost c = cs[i as int];
        let ghost errors_before = errors@.map_values(|e: BearBridgeError| e@);
        let ghost predicates_before = predicates_view(predicates@);
        assert(cs.take(i as int + 1).drop_last() =~= cs.take(i as int));
        assert(cs.take(i as int + 1).last() == c);
        let (left_col, right_col, op) = &conditions[i];
        if !has_name(&left_columns, left_col.as_str()) {
            errors.push(BearBridgeError::ColumnNotFound {
                column: left_col.clone(),
                side: String::from_str("left"),
            });
        }
        let ghost after_left = errors@.map_values(|e: BearBridgeError| e@);
        if !has_name(&right_columns, right_col.as_str()) {
            errors.push(BearBridgeError::ColumnNotFound {
                column: right_col.clone(),
                side: String::from_str("right"),
            });
        }
        let ghost after_right = errors@.map_values(|e: BearBridgeError| e@);
        match Operator::from_str(op.as_str()) {
            Ok(op_enum) => {
                predicates.push(Predicate {
                    op: op_enum,
                    lhs: Operand::Column(left_col.clone()),
                    rhs: Operand::Column(right_col.clone()),
                });
            },
            Err(e) => {
                errors.push(e);
            },
        }
        proof {
            let l_part: Seq<ErrorSpec> = if lnames.contains(c.0) {
                Seq::empty()
            } else {
                seq![ErrorSpec::ColumnNotFound { column: c.0, side: "left"@ }]
            };
            let r_part: Seq<ErrorSpec> = if rnames.contains(c.1) {
                Seq::empty()
            } else {
                seq![ErrorSpec::ColumnNotFound { column: c.1, side: "right"@ }]
            };
            let o_part: Seq<ErrorSpec> = match parse_operator(c.2) {
                Ok(_) => Seq::empty(),
                Err(e) => seq![e],
            };
            assert(after_left =~= errors_before + l_part);
            assert(after_right =~= errors_before + l_part + r_part);
            assert(errors@.map_values(|e: BearBridgeError| e@) =~= errors_before + l_part + r_part
                + o_part);
            assert(condition_errors(lnames, rnames, c) == l_part + r_part + o_part);
            assert(errors_before + l_part + r_part + o_part =~= errors_before + (l_part + r_part
                + o_part));
            assert(predicates_view(predicates@) =~= predicates_before + match parse_operator(c.2) {
                Ok(op) => seq![
                    PredicateSpec { op, lhs: OperandSpec::Column(c.0), rhs: OperandSpec::Column(c.1) },
                ],
                Err(_) => Seq::empty(),
            });
        }
        i = i + 1;
    }
    assert(cs.take(n as int) =~= cs);
    if errors.len() > 0 {
        let json = errors_to_json(&errors);
        return Err(BearBridgeError::MultiError(errors.len(), json));
    }
    Ok(predicates)
}

/// Every predicate of valid conditions can be built by the engine when every
/// operator can.
proof fn lemma_column_predicates_buildable(cs: Seq<TripleSpec>)
    requires
        forall|i: int| 0 <= i < cs.len() ==> operator_buildable(#[trigger] cs[i].2),
    ensures
        forall|i: int| 0 <= i < column_predicates(cs).len() ==> (#[trigger] column_predicates(cs)[i]).buildable(),
    decreases cs.len(),
{
    if cs.len() > 0 {
        let init = cs.drop_last();
        assert forall|i: int| 0 <= i < init.len() implies operator_buildable(#[trigger] init[i].2) by {
            assert(init[i] == cs[i]);
        }
        lemma_column_predicates_buildable(init);
        let c = cs.last();
        assert(operator_buildable(cs[cs.len() - 1].2));
        let prev = column_predicates(init);
        let all = column_predicates(cs);
        assert forall|i: int| 0 <= i < all.len() implies (#[trigger] all[i]).buildable() by {
            if i < prev.len() {
                assert(all[i] == prev[i]);
            } else {
                match parse_operator(c.2) {
                    Ok(op) => {
                        assert(all[i] == PredicateSpec {
                            op,
                            lhs: OperandSpec::Column(c.0),
                            rhs: OperandSpec::Column(c.1),
                        });
                    },
                    Err(_) => {},
                }
            }
        }
    }
}

/// Every predicate of conditions is one between two columns.
proof fn lemma_column_predicates_pair(cs: Seq<TripleSpec>)
    ensures
        forall|i: int|
            0 <= i < column_predicates(cs).len() ==> (#[trigger] column_predicates(cs)[i]).lhs is Column
                && column_predicates(cs)[i].rhs is Column,
    decreases cs.len(),
{
    if cs.len() > 0 {
        lemma_column_predicates_pair(cs.drop_last());
        let prev = column_predicates(cs.drop_last());
        let all = column_predicates(cs);
        assert forall|i: int| 0 <= i < all.len() implies (#[trigger] all[i]).lhs is Column
            && all[i].rhs is Column by {
            if i < prev.len() {
                assert(all[i] == prev[i]);
            }
        }
    }
}

/// The engine expression `col(left) <op> col(right)` of a predicate between
/// two columns.
pub open spec fn column_predicate_expr(p: PredicateSpec) -> Expr {
    compare_expr(p.op, col_expr(p.lhs->Column_0), col_expr(p.rhs->Column_0))
}

/// A list of conditions gives no error exactly when no condition does.
proof fn lemma_all_errors_empty(left: Seq<Seq<char>>, right: Seq<Seq<char>>, cs: Seq<TripleSpec>)
    ensures
        all_errors(left, right, cs).len() == 0 <==> forall|i: int|
            0 <= i < cs.len() ==> (#[trigger] condition_errors(left, right, cs[i])).len() == 0,
    decreases cs.len(),
{
    if cs.len() > 0 {
        let init = cs.drop_last();
        lemma_all_errors_empty(left, right, init);
        assert forall|i: int| 0 <= i < init.len() implies init[i] == cs[i] by {}
        if all_errors(left, right, cs).len() == 0 {
            assert forall|i: int| 0 <= i < cs.len() implies (#[trigger] condition_errors(
                left,
                right,
                cs[i],
            )).len() == 0 by {
                if i < init.len() {
                    assert(condition_errors(left, right, init[i]).len() == 0);
                }
            }
        }
        if forall|i: int| 0 <= i < cs.len() ==> (#[trigger] condition_errors(left, right, cs[i])).len() == 0 {
            assert forall|i: int| 0 <= i < init.len() implies (#[trigger] condition_errors(
                left,
                right,
                init[i],
            )).len() == 0 by {
                assert(condition_errors(left, right, cs[i]).len() == 0);
            }
            assert(condition_errors(left, right, cs[cs.len() - 1]).len() == 0);
        }
    }
}

/// When every operator is known, the conditions give one predicate each, in
/// order: predicate `i` compares column `cs[i].0` with column `cs[i].1` under
/// the operator `cs[i].2` names.
proof fn lemma_column_predicates_each(cs: Seq<TripleSpec>)
    requires
        forall|i: int| 0 <= i < cs.len() ==> ((#[trigger] parse_operator(cs[i].2)) is Ok),
    ensures
        column_predicates(cs).len() == cs.len(),
        forall|i: int|
            0 <= i < cs.len() ==> (#[trigger] column_predicates(cs)[i] == (PredicateSpec {
                op: parse_operator(cs[i].2)->Ok_0,
                lhs: OperandSpec::Column(cs[i].0),
                rhs: OperandSpec::Column(cs[i].1),
            })),
    decreases cs.len(),
{
    if cs.len() > 0 {
        let init = cs.drop_last();
        assert forall|i: int| 0 <= i < init.len() implies (#[trigger] parse_operator(init[i].2)) is Ok by {
            assert(init[i] == cs[i]);
        }
        lemma_column_predicates_each(init);
        assert(parse_operator(cs[cs.len() - 1].2) is Ok);
        let all = column_predicates(cs);
        assert forall|i: int| 0 <= i < cs.len() implies #[trigger] column_predicates(cs)[i] == PredicateSpec {
            op: parse_operator(cs[i].2)->Ok_0,
            lhs: OperandSpec::Column(cs[i].0),
            rhs: OperandSpec::Column(cs[i].1),
        } by {
            if i < init.len() {
                assert(init[i] == cs[i]);
                assert(all[i] == column_predicates(init)[i]);
            }
        }
    }
}

/// Validated conditions give one predicate per condition, in order: predicate
/// `i` compares the left frame's column `cs[i].0` with the right frame's
/// column `cs[i].1` under the operator that `cs[i].2` names. Conditions are
/// valid exactly when each names a column of the left frame, a column of the
/// right frame and a known operator; otherwise their errors come back together.
pub proof fn lemma_validated_predicates_follow_conditions(
    left: Seq<Seq<char>>,
    right: Seq<Seq<char>>,
    cs: Seq<TripleSpec>,
)
    ensures
        validated_predicates(left, right, cs) is Ok <==> forall|i: int|
            0 <= i < cs.len() ==> (left.contains(#[trigger] cs[i].0) && right.contains(cs[i].1)
                && parse_operator(cs[i].2) is Ok),
        validated_predicates(left, right, cs) matches Ok(ps) ==> ps.len() == cs.len() && forall|
            i: int,
        |
            0 <= i < cs.len() ==> parse_operator(cs[i].2) == Ok::<Operator, ErrorSpec>(
                (#[trigger] ps[i]).op,
            ) && ps[i].lhs == OperandSpec::Column(cs[i].0) && ps[i].rhs == OperandSpec::Column(
                cs[i].1,
            ),
        validated_predicates(left, right, cs) matches Err(e) ==> (e is MultiError),
{
    lemma_all_errors_empty(left, right, cs);
    let valid = forall|i: int|
        0 <= i < cs.len() ==> (left.contains(#[trigger] cs[i].0) && right.contains(cs[i].1)
            && parse_operator(cs[i].2) is Ok);
    let clean = forall|i: int|
        0 <= i < cs.len() ==> (#[trigger] condition_errors(left, right, cs[i])).len() == 0;
    if clean {
        assert forall|i: int| 0 <= i < cs.len() implies (left.contains(#[trigger] cs[i].0) && right.contains(
            cs[i].1,
        ) && parse_operator(cs[i].2) is Ok) by {
            lemma_condition_errors_empty(left, right, cs[i]);
            assert(condition_errors(left, right, cs[i]).len() == 0);
        }
        assert forall|i: int| 0 <= i < cs.len() implies (#[trigger] parse_operator(cs[i].2)) is Ok by {
            lemma_condition_errors_empty(left, right, cs[i]);
            assert(condition_errors(left, right, cs[i]).len() == 0);
        }
        lemma_column_predicates_each(cs);
    }
    if valid {
        assert forall|i: int| 0 <= i < cs.len() implies (#[trigger] condition_errors(
            left,
            right,
            cs[i],
        )).len() == 0 by {
            lemma_condition_errors_empty(left, right, cs[i]);
            assert(left.contains(cs[i].0));
        }
    }
}

/// One condition gives no error exactly when both frames have its columns and
/// its operator is known.
proof fn lemma_condition_errors_empty(left: Seq<Seq<char>>, right: Seq<Seq<char>>, c: TripleSpec)
    ensures
        condition_errors(left, right, c).len() == 0 <==> (left.contains(c.0) && right.contains(c.1)
            && parse_operator(c.2) is Ok),
{
}

/// Joins two frames under `(left column, right column, operator)` conditions
/// with an inner join, after checking every condition: the errors of the
/// conditions come back together as one error, an engine error as `Polars`.
/// The operators must be ones the engine can build.
pub fn conditional_join(
    left: &DataFrame,
    right: &DataFrame,
    conditions: &[(String, String, String)],
) -> (r: Result<DataFrame, BearBridgeError>)
    requires
        forall|i: int| 0 <= i < conditions@.len() ==> operator_buildable(#[trigger] conditions@[i].2@),
    ensures
        match validated_predicates(
            frame_column_names(*left),
            frame_column_names(*right),
            triples_view(conditions@),
        ) {
            Err(f) => r matches Err(e) && e@ == f,
            Ok(ps) => engine_outcome(
                *left,
                *right,
                JoinType::Inner,
                ps.map_values(|p: PredicateSpec| column_predicate_expr(p)),
                r,
            ) && (r matches Err(e) ==> e@ is Polars),
        },
{
    let predicates = match get_predicates(left, right, conditions) {
        Ok(p) => p,
        Err(e) => return Err(e),
    };
    let ghost cs = triples_view(conditions@);
    proof {
        assert forall|i: int| 0 <= i < cs.len() implies operator_buildable(#[trigger] cs[i].2) by {
            assert(cs[i].2 == conditions@[i].2@);
        }
        lemma_column_predicates_buildable(cs);
        assert forall|i: int| 0 <= i < predicates@.len() implies (#[trigger] predicates@[i])@.buildable() by {
            assert(predicates_view(predicates@)[i] == predicates@[i]@);
        }
    }
    let plan = JoinPlan { join_type: JoinType::Inner, kind: JoinKind::Inner, predicates };
    // Column predicates hold no binary64 literal: the literal builder is never
    // called.
    let no_float_literals = |_bits: u64| -> (e: Expr) { int_lit(0) };
    let r = run_join(left, right, &plan, &no_float_literals);
    proof {
        let ps = predicates_view(predicates@);
        lemma_column_predicates_pair(cs);
        let exprs = choose|exprs: Seq<Expr>|
            are_predicate_exprs(ps, exprs, no_float_literals) && engine_outcome(
                *left,
                *right,
                JoinType::Inner,
                exprs,
                r,
            );
        assert forall|i: int| 0 <= i < ps.len() implies exprs[i] == column_predicate_expr(ps[i]) by {
            assert(is_predicate_expr(ps[i], exprs[i], no_float_literals));
            let (l, rr) = choose|l: Expr, rr: Expr|
                is_operand_expr(ps[i].lhs, l, no_float_literals) && is_operand_expr(
                    ps[i].rhs,
                    rr,
                    no_float_literals,
                ) && exprs[i] == compare_expr(ps[i].op, l, rr);
            assert(l == operand_expr(ps[i].lhs, l));
            assert(rr == operand_expr(ps[i].rhs, rr));
        }
        assert(exprs =~= ps.map_values(|p: PredicateSpec| column_predicate_expr(p)));
    }
    r
}

} // verus!
