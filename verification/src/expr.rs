//! Polars expressions built from the library's predicates, and the join that
//! runs them.

use vstd::prelude::*;
use polars::prelude::{DataFrame, Expr, IntoLazy, JoinType, PolarsError};
use crate::engine::conditional_join::operators::{Operand, OperandSpec, Operator, Predicate, PredicateSpec, operator_implemented};

verus! {

/// A `polars` expression, held as it is.
#[verifier::external_type_specification]
#[verifier::external_body]
pub struct ExExpr(Expr);

/// The expression `col(name)`.
pub uninterp spec fn col_expr(name: Seq<char>) -> Expr;

/// The expression `lit(v)` of a 64-bit integer.
pub uninterp spec fn int_lit_expr(v: i64) -> Expr;

/// The expression `a - b`.
pub uninterp spec fn sub_expr(a: Expr, b: Expr) -> Expr;

/// The expression `a.abs()`.
pub uninterp spec fn abs_expr(a: Expr) -> Expr;

/// The expression `a.cast(DataType::Int64)`.
pub uninterp spec fn cast_int64_expr(a: Expr) -> Expr;

/// The expression `a.gt(b)`.
pub uninterp spec fn gt_expr(a: Expr, b: Expr) -> Expr;

/// The expression `a.lt(b)`.
pub uninterp spec fn lt_expr(a: Expr, b: Expr) -> Expr;

/// The expression `a.gt_eq(b)`.
pub uninterp spec fn gt_eq_expr(a: Expr, b: Expr) -> Expr;

/// The expression `a.lt_eq(b)`.
pub uninterp spec fn lt_eq_expr(a: Expr, b: Expr) -> Expr;

/// The expression `a.eq(b)`.
pub uninterp spec fn eq_expr(a: Expr, b: Expr) -> Expr;

/// The expression `a.neq(b)`.
pub uninterp spec fn neq_expr(a: Expr, b: Expr) -> Expr;

/// Calls `polars::prelude::col`.
#[verifier::external_body]
pub(crate) fn col(name: &str) -> (r: Expr)
    ensures
        r == col_expr(name@),
{
    polars::prelude::col(name)
}

/// Calls `polars::prelude::lit` on a 64-bit integer.
#[verifier::external_body]
pub(crate) fn int_lit(v: i64) -> (r: Expr)
    ensures
        r == int_lit_expr(v),
{
    polars::prelude::lit(v)
}

/// Calls `Expr`'s `-`.
#[verifier::external_body]
pub(crate) fn minus(a: Expr, b: Expr) -> (r: Expr)
    ensures
        r == sub_expr(a, b),
{
    a - b
}

/// Calls `Expr::abs`.
#[verifier::external_body]
pub(crate) fn abs(a: Expr) -> (r: Expr)
    ensures
        r == abs_expr(a),
{
    a.abs()
}

/// Calls `Expr::cast` with the 64-bit integer type.
#[verifier::external_body]
pub(crate) fn cast_int64(a: Expr) -> (r: Expr)
    ensures
        r == cast_int64_expr(a),
{
    a.cast(polars::prelude::DataType::Int64)
}

/// Calls `Expr::gt`.
#[verifier::external_body]
pub(crate) fn gt(a: Expr, b: Expr) -> (r: Expr)
    ensures
        r == gt_expr(a, b),
{
    a.gt(b)
}

/// Calls `Expr::lt`.
#[verifier::external_body]
pub(crate) fn lt(a: Expr, b: Expr) -> (r: Expr)
    ensures
        r == lt_expr(a, b),
{
    a.lt(b)
}

/// Calls `Expr::gt_eq`.
#[verifier::external_body]
pub(crate) fn gt_eq(a: Expr, b: Expr) -> (r: Expr)
    ensures
        r == gt_eq_expr(a, b),
{
    a.gt_eq(b)
}

/// Calls `Expr::lt_eq`.
#[verifier::external_body]
pub(crate) fn lt_eq(a: Expr, b: Expr) -> (r: Expr)
    ensures
        r == lt_eq_expr(a, b),
{
    a.lt_eq(b)
}

/// Calls `Expr::eq`.
#[verifier::external_body]
pub(crate) fn eq(a: Expr, b: Expr) -> (r: Expr)
    ensures
        r == eq_expr(a, b),
{
    a.eq(b)
}

/// Calls `Expr::neq`.
#[verifier::external_body]
pub(crate) fn neq(a: Expr, b: Expr) -> (r: Expr)
    ensures
        r == neq_expr(a, b),
{
    a.neq(b)
}

/// The expression of an operand, with `float` standing for the expression of
/// its binary64 literal, if it is one.
pub open spec fn operand_expr(o: OperandSpec, float: Expr) -> Expr {
    match o {
        OperandSpec::Column(c) => col_expr(c),
        OperandSpec::AbsDifference { minuend, subtrahend } => abs_expr(
            sub_expr(col_expr(minuend), col_expr(subtrahend)),
        ),
        OperandSpec::AbsDifferenceInt64 { minuend, subtrahend } => cast_int64_expr(
            abs_expr(sub_expr(col_expr(minuend), col_expr(subtrahend))),
        ),
        OperandSpec::Float(_) => float,
        OperandSpec::Int(v) => int_lit_expr(v as i64),
    }
}

/// The comparison expression of an implemented operator.
pub open spec fn compare_expr(op: Operator, a: Expr, b: Expr) -> Expr {
    match op {
        Operator::Gt => gt_expr(a, b),
        Operator::Lt => lt_expr(a, b),
        Operator::GtEq => gt_eq_expr(a, b),
        Operator::LtEq => lt_eq_expr(a, b),
        Operator::Eq => eq_expr(a, b),
        _ => neq_expr(a, b),
    }
}

/// `e` is the expression of an operand: for a binary64 literal, an expression
/// that `float_lit` may give for its bits.
pub open spec fn is_operand_expr<F: Fn(u64) -> Expr>(o: OperandSpec, e: Expr, float_lit: F) -> bool {
    match o {
        OperandSpec::Float(bits) => call_ensures(float_lit, (bits,), e),
        _ => forall|f: Expr| e == #[trigger] operand_expr(o, f),
    }
}

/// `e` is the expression `lhs <op> rhs` of a predicate.
pub open spec fn is_predicate_expr<F: Fn(u64) -> Expr>(p: PredicateSpec, e: Expr, float_lit: F) -> bool {
    exists|l: Expr, r: Expr|
        #![trigger compare_expr(p.op, l, r)]
        is_operand_expr(p.lhs, l, float_lit) && is_operand_expr(p.rhs, r, float_lit) && e
            == compare_expr(p.op, l, r)
}

/// `e` is the engine expression of the operand `o`, spelled out: a column `c`
/// is `col(c)`, `|a - b|` is `abs(col(a) - col(b))`, its 64-bit integer form
/// that cast to Int64, an integer literal `v` is `lit(v)` as a 64-bit integer,
/// and a binary64 literal is what `float_lit` gives for its bits.
pub open spec fn built_operand<F: Fn(u64) -> Expr>(o: OperandSpec, e: Expr, float_lit: F) -> bool {
    match o {
        OperandSpec::Column(c) => e == col_expr(c),
        OperandSpec::AbsDifference { minuend, subtrahend } => e == abs_expr(
            sub_expr(col_expr(minuend), col_expr(subtrahend)),
        ),
        OperandSpec::AbsDifferenceInt64 { minuend, subtrahend } => e == cast_int64_expr(
            abs_expr(sub_expr(col_expr(minuend), col_expr(subtrahend))),
        ),
        OperandSpec::Float(bits) => call_ensures(float_lit, (bits,), e),
        OperandSpec::Int(v) => e == int_lit_expr(v as i64),
    }
}

/// The expression of a predicate compares the expressions of its two operands
/// with the engine comparison its operator names: `>` by `gt`, `<` by `lt`,
/// `>=` by `gt_eq`, `<=` by `lt_eq`, `==` by `eq` and `!=` by `neq`.
pub proof fn lemma_predicate_expr_parts<F: Fn(u64) -> Expr>(p: PredicateSpec, e: Expr, float_lit: F)
    requires
        is_predicate_expr(p, e, float_lit),
        operator_implemented(p.op),
    ensures
        exists|l: Expr, r: Expr|
            #![trigger built_operand(p.lhs, l, float_lit), built_operand(p.rhs, r, float_lit)]
            built_operand(p.lhs, l, float_lit) && built_operand(p.rhs, r, float_lit) && e == match p.op {
                Operator::Gt => gt_expr(l, r),
                Operator::Lt => lt_expr(l, r),
                Operator::GtEq => gt_eq_expr(l, r),
                Operator::LtEq => lt_eq_expr(l, r),
                Operator::Eq => eq_expr(l, r),
                _ => neq_expr(l, r),
            },
{
    let (l, r) = choose|l: Expr, r: Expr|
        is_operand_expr(p.lhs, l, float_lit) && is_operand_expr(p.rhs, r, float_lit) && e
            == compare_expr(p.op, l, r);
    assert(l == operand_expr(p.lhs, l) || p.lhs is Float);
    assert(r == operand_expr(p.rhs, r) || p.rhs is Float);
    assert(built_operand(p.lhs, l, float_lit));
    assert(built_operand(p.rhs, r, float_lit));
}

fn operand_expr_exec<F: Fn(u64) -> Expr>(o: &Operand, float_lit: &F) -> (r: Expr)
    requires
        o@ matches OperandSpec::Int(v) ==> i64::MIN <= v <= i64::MAX,
        forall|b: u64| call_requires(*float_lit, (b,)),
    ensures
        is_operand_expr(o@, r, *float_lit),
{
    match o {
        Operand::Column(c) => col(c.as_str()),
        Operand::AbsDifference { minuend, subtrahend } => abs(minus(col(minuend.as_str()), col(subtrahend.as_str()))),
        Operand::AbsDifferenceInt64 { minuend, subtrahend } => cast_int64(
            abs(minus(col(minuend.as_str()), col(subtrahend.as_str()))),
        ),
        Operand::Float(bits) => float_lit(*bits),
        Operand::Int(v) => int_lit(*v as i64),
    }
}

/// Builds the `polars` expression of a predicate the engine can build;
/// `float_lit` gives the expression of a binary64 literal from its bits.
pub fn predicate_expr<F: Fn(u64) -> Expr>(p: &Predicate, float_lit: &F) -> (r: Expr)
    requires
        p@.buildable(),
        forall|b: u64| call_requires(*float_lit, (b,)),
    ensures
        is_predicate_expr(p@, r, *float_lit),
{
    let lhs = operand_expr_exec(&p.lhs, float_lit);
    let rhs = operand_expr_exec(&p.rhs, float_lit);
    let r = match p.op {
        Operator::Gt => gt(lhs, rhs),
        Operator::Lt => lt(lhs, rhs),
        Operator::GtEq => gt_eq(lhs, rhs),
        Operator::LtEq => lt_eq(lhs, rhs),
        Operator::Eq => eq(lhs, rhs),
        _ => neq(lhs, rhs),
    };
    assert(r == compare_expr(p@.op, lhs, rhs));
    r
}

/// Builds the `polars` expressions of a list of predicates the engine can
/// build, in order.
pub fn predicate_exprs<F: Fn(u64) -> Expr>(predicates: &Vec<Predicate>, float_lit: &F) -> (r: Vec<Expr>)
    requires
        forall|i: int| 0 <= i < predicates@.len() ==> (#[trigger] predicates@[i])@.buildable(),
        forall|b: u64| call_requires(*float_lit, (b,)),
    ensures
        r@.len() == predicates@.len(),
        forall|i: int| 0 <= i < r@.len() ==> is_predicate_expr(predicates@[i]@, #[trigger] r@[i], *float_lit),
{
    let mut exprs: Vec<Expr> = Vec::new();
    let n = predicates.len();
    let mut i: usize = 0;
    while i < n
        invariant
            n == predicates@.len(),
            i <= n,
            forall|j: int| 0 <= j < predicates@.len() ==> (#[trigger] predicates@[j])@.buildable(),
            forall|b: u64| call_requires(*float_lit, (b,)),
            exprs@.len() == i,
            forall|j: int| 0 <= j < i ==> is_predicate_expr(predicates@[j]@, #[trigger] exprs@[j], *float_lit),
        decreases n - i,
    {
        let e = predicate_expr(&predicates[i], float_lit);
        exprs.push(e);
        i = i + 1;
    }
    exprs
}

} // verus!
