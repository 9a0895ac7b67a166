//! Comparison operators and the predicates that conditions turn into.

use vstd::prelude::*;
use vstd::string::*;
use crate::errors::{BearBridgeError, ErrorSpec};
use crate::float::float_to_i64;
use crate::float::float_bits_to_i64;
use crate::text::str_eq;
use super::types::{Condition, ConditionSpec, JoinOptions, TimeUnit, condition_options, time_unit_named, unit_nanos};
use crate::text::lowercase;

verus! {

/// The comparison operators of a condition.
#[derive(Debug, Clone, Copy, PartialEq, Eq, Structural)]
pub enum Operator {
    // Primitive operators
    Gt,
    Lt,
    GtEq,
    LtEq,
    Eq,
    NotEq,
    // Custom operators, not yet implemented by the engine
    Weekday,
    Fuzzy,
}

/// The operator a text names, or the error that reports the text.
pub open spec fn parse_operator(s: Seq<char>) -> Result<Operator, ErrorSpec> {
    if s == ">"@ {
        Ok(Operator::Gt)
    } else if s == "<"@ {
        Ok(Operator::Lt)
    } else if s == ">="@ {
        Ok(Operator::GtEq)
    } else if s == "<="@ {
        Ok(Operator::LtEq)
    } else if s == "=="@ {
        Ok(Operator::Eq)
    } else if s == "!="@ {
        Ok(Operator::NotEq)
    } else if s == "weekday"@ {
        Ok(Operator::Weekday)
    } else if s == "fuzzy"@ {
        Ok(Operator::Fuzzy)
    } else {
        Err(ErrorSpec::InvalidOperator(s))
    }
}

/// The operators the engine can build an expression for.
pub open spec fn operator_implemented(op: Operator) -> bool {
    !(op is Weekday) && !(op is Fuzzy)
}

impl Operator {
    /// Reads an operator from its exact text: `>`, `<`, `>=`, `<=`, `==`,
    /// `!=`, `weekday` or `fuzzy`.
    pub fn from_str(s: &str) -> (r: Result<Operator, BearBridgeError>)
        ensures
            match (r, parse_operator(s@)) {
                (Ok(a), Ok(b)) => a == b,
                (Err(e), Err(f)) => e@ == f,
                _ => false,
            },
    {
        if str_eq(s, ">") {
            Ok(Operator::Gt)
        } else if str_eq(s, "<") {
            Ok(Operator::Lt)
        } else if str_eq(s, ">=") {
            Ok(Operator::GtEq)
        } else if str_eq(s, "<=") {
            Ok(Operator::LtEq)
        } else if str_eq(s, "==") {
            Ok(Operator::Eq)
        } else if str_eq(s, "!=") {
            Ok(Operator::NotEq)
        } else if str_eq(s, "weekday") {
            Ok(Operator::Weekday)
        } else if str_eq(s, "fuzzy") {
            Ok(Operator::Fuzzy)
        } else {
            Err(BearBridgeError::InvalidOperator(s.to_string()))
        }
    }

    /// Whether the engine can build an expression for this operator.
    pub fn is_implemented(&self) -> (r: bool)
        ensures
            r == operator_implemented(*self),
    {
        !matches!(self, Operator::Weekday | Operator::Fuzzy)
    }
}

impl std::str::FromStr for Operator {
    type Err = BearBridgeError;

    fn from_str(s: &str) -> (r: Result<Self, Self::Err>)
        ensures
            match (r, parse_operator(s@)) {
                (Ok(a), Ok(b)) => a == b,
                (Err(e), Err(f)) => e@ == f,
                _ => false,
            },
    {
        Operator::from_str(s)
    }
}

/// One side of a predicate.
#[derive(Debug, Clone, PartialEq)]
pub enum Operand {
    /// A column.
    Column(String),
    /// `|minuend - subtrahend|` of two columns.
    AbsDifference { minuend: String, subtrahend: String },
    /// `|minuend - subtrahend|` of two columns, cast to 64-bit integers.
    AbsDifferenceInt64 { minuend: String, subtrahend: String },
    /// A binary64 literal, by its bit pattern.
    Float(u64),
    /// An integer literal; the engine takes it as a 64-bit integer.
    Int(i128),
}

/// The mathematical form of an operand.
pub enum OperandSpec {
    Column(Seq<char>),
    AbsDifference { minuend: Seq<char>, subtrahend: Seq<char> },
    AbsDifferenceInt64 { minuend: Seq<char>, subtrahend: Seq<char> },
    Float(u64),
    Int(int),
}

impl View for Operand {
    type V = OperandSpec;

    open spec fn view(&self) -> OperandSpec {
        match self {
            Operand::Column(c) => OperandSpec::Column(c@),
            Operand::AbsDifference { minuend, subtrahend } => OperandSpec::AbsDifference {
                minuend: minuend@,
                subtrahend: subtrahend@,
            },
            Operand::AbsDifferenceInt64 { minuend, subtrahend } => OperandSpec::AbsDifferenceInt64 {
                minuend: minuend@,
                subtrahend: subtrahend@,
            },
            Operand::Float(b) => OperandSpec::Float(*b),
            Operand::Int(v) => OperandSpec::Int(*v as int),
        }
    }
}

/// A comparison `lhs <op> rhs`, as the engine is to evaluate it between a row of
/// the left and a row of the right frame.
#[derive(Debug, Clone, PartialEq)]
pub struct Predicate {
    pub op: Operator,
    pub lhs: Operand,
    pub rhs: Operand,
}

/// The mathematical form of a predicate.
pub struct PredicateSpec {
    pub op: Operator,
    pub lhs: OperandSpec,
    pub rhs: OperandSpec,
}

impl View for Predicate {
    type V = PredicateSpec;

    open spec fn view(&self) -> PredicateSpec {
        PredicateSpec { op: self.op, lhs: self.lhs@, rhs: self.rhs@ }
    }
}

/// An operand the engine can hold: integer literals must fit 64 bits.
pub open spec fn operand_buildable(o: OperandSpec) -> bool {
    o matches OperandSpec::Int(v) ==> i64::MIN <= v <= i64::MAX
}

impl PredicateSpec {
    /// The engine can build this predicate: its operator is implemented and its
    /// literals fit.
    pub open spec fn buildable(self) -> bool {
        operator_implemented(self.op) && operand_buildable(self.lhs) && operand_buildable(self.rhs)
    }
}

impl Predicate {
    /// Whether the engine can build this predicate. Building one it cannot fails
    /// as the engine does: an unimplemented operator, or a time threshold
    /// whose nanoseconds overflow 64 bits.
    pub fn is_buildable(&self) -> (r: bool)
        ensures
            r == self@.buildable(),
    {
        self.op.is_implemented() && operand_fits(&self.lhs) && operand_fits(&self.rhs)
    }
}

fn operand_fits(o: &Operand) -> (r: bool)
    ensures
        r == operand_buildable(o@),
{
    match o {
        Operand::Int(v) => *v >= i64::MIN as i128 && *v <= i64::MAX as i128,
        _ => true,
    }
}

/// The left side of the predicate of a condition with the given options:
/// the left column itself, `|left - right|`, or `|right - left|` as 64-bit
/// integers.
pub open spec fn predicate_lhs(c: ConditionSpec, options: JoinOptions) -> OperandSpec {
    match options {
        JoinOptions::Standard => OperandSpec::Column(c.left()),
        JoinOptions::Difference { .. } => OperandSpec::AbsDifference {
            minuend: c.left(),
            subtrahend: c.right(),
        },
        JoinOptions::TimeDifference { .. } => OperandSpec::AbsDifferenceInt64 {
            minuend: c.right(),
            subtrahend: c.left(),
        },
    }
}

/// The right side: the right column itself, the threshold, or the threshold
/// truncated to whole units and converted to nanoseconds.
pub open spec fn predicate_rhs(c: ConditionSpec, options: JoinOptions) -> OperandSpec {
    match options {
        JoinOptions::Standard => OperandSpec::Column(c.right()),
        JoinOptions::Difference { thr } => OperandSpec::Float(thr),
        JoinOptions::TimeDifference { thr, time_unit } => OperandSpec::Int(
            float_to_i64(thr) * unit_nanos(time_unit),
        ),
    }
}

/// The predicate of a condition: its options are read first (a bad time unit
/// is reported before a bad operator), then its operator.
pub open spec fn predicate_of(c: ConditionSpec) -> Result<PredicateSpec, ErrorSpec> {
    match condition_options(c) {
        Err(e) => Err(e),
        Ok(options) => match parse_operator(c.op()) {
            Err(e) => Err(e),
            Ok(op) => Ok(
                PredicateSpec { op, lhs: predicate_lhs(c, options), rhs: predicate_rhs(c, options) },
            ),
        },
    }
}

/// A condition gives a predicate exactly when its options can be read and its
/// operator is known; an error in its options (a bad time unit) is reported
/// before an error in its operator.
pub proof fn lemma_predicate_ok_iff(c: ConditionSpec)
    ensures
        predicate_of(c) is Ok <==> (condition_options(c) is Ok && parse_operator(c.op()) is Ok),
        condition_options(c) matches Err(e) ==> predicate_of(c) == Err::<PredicateSpec, ErrorSpec>(e),
{
}

/// Each operator text names its comparison: `>` greater, `<` less, `>=`
/// greater or equal, `<=` less or equal, `==` equal, `!=` not equal, and
/// `weekday` and `fuzzy` the two operators the engine does not implement;
/// any other text is refused as it was given.
pub proof fn lemma_operator_texts(s: Seq<char>)
    ensures
        s == ">"@ ==> parse_operator(s) == Ok::<Operator, ErrorSpec>(Operator::Gt),
        s == "<"@ ==> parse_operator(s) == Ok::<Operator, ErrorSpec>(Operator::Lt),
        s == ">="@ ==> parse_operator(s) == Ok::<Operator, ErrorSpec>(Operator::GtEq),
        s == "<="@ ==> parse_operator(s) == Ok::<Operator, ErrorSpec>(Operator::LtEq),
        s == "=="@ ==> parse_operator(s) == Ok::<Operator, ErrorSpec>(Operator::Eq),
        s == "!="@ ==> parse_operator(s) == Ok::<Operator, ErrorSpec>(Operator::NotEq),
        s == "weekday"@ ==> parse_operator(s) == Ok::<Operator, ErrorSpec>(Operator::Weekday),
        s == "fuzzy"@ ==> parse_operator(s) == Ok::<Operator, ErrorSpec>(Operator::Fuzzy),
        !(s == ">"@ || s == "<"@ || s == ">="@ || s == "<="@ || s == "=="@ || s == "!="@ || s
            == "weekday"@ || s == "fuzzy"@) ==> parse_operator(s) == Err::<Operator, ErrorSpec>(
            ErrorSpec::InvalidOperator(s),
        ),
        parse_operator(s) matches Ok(o) ==> (operator_implemented(o) <==> !(s == "weekday"@ || s
            == "fuzzy"@)),
{
    reveal_strlit(">");
    reveal_strlit("<");
    reveal_strlit(">=");
    reveal_strlit("<=");
    reveal_strlit("==");
    reveal_strlit("!=");
    reveal_strlit("weekday");
    reveal_strlit("fuzzy");
    assert(">"@.len() == 1 && ">"@[0] == '>');
    assert("<"@.len() == 1 && "<"@[0] == '<');
    assert(">="@.len() == 2 && ">="@[0] == '>');
    assert("<="@.len() == 2 && "<="@[0] == '<');
    assert("=="@.len() == 2 && "=="@[0] == '=');
    assert("!="@.len() == 2 && "!="@[0] == '!');
    assert("weekday"@.len() == 7);
    assert("fuzzy"@.len() == 5);
}

/// A standard condition gives the predicate `left_col <op> right_col`, its
/// operator the one its operator text names; an unknown text is the error.
pub proof fn lemma_standard_predicate(left_col: Seq<char>, right_col: Seq<char>, op: Seq<char>)
    ensures
        predicate_of((ConditionSpec::Standard { left_col, right_col, op })) == match parse_operator(op) {
            Ok(o) => Ok(
                PredicateSpec { op: o, lhs: OperandSpec::Column(left_col), rhs: OperandSpec::Column(right_col) },
            ),
            Err(e) => Err(e),
        },
{
}

/// A difference condition gives the predicate `|left_col - right_col| <op> thr`
/// with its binary64 threshold, its operator the one its text names; an
/// unknown text is the error.
pub proof fn lemma_difference_predicate(left_col: Seq<char>, right_col: Seq<char>, op: Seq<char>, thr: u64)
    ensures
        predicate_of((ConditionSpec::Difference { left_col, right_col, op, thr })) == match parse_operator(
            op,
        ) {
            Ok(o) => Ok(
                PredicateSpec {
                    op: o,
                    lhs: OperandSpec::AbsDifference { minuend: left_col, subtrahend: right_col },
                    rhs: OperandSpec::Float(thr),
                },
            ),
            Err(e) => Err(e),
        },
{
}

/// The unit each of the ten unit names denotes.
proof fn lemma_time_unit_names()
    ensures
        time_unit_named("ms"@) == Some(TimeUnit::Milliseconds),
        time_unit_named("milliseconds"@) == Some(TimeUnit::Milliseconds),
        time_unit_named("s"@) == Some(TimeUnit::Seconds),
        time_unit_named("seconds"@) == Some(TimeUnit::Seconds),
        time_unit_named("m"@) == Some(TimeUnit::Minutes),
        time_unit_named("minutes"@) == Some(TimeUnit::Minutes),
        time_unit_named("h"@) == Some(TimeUnit::Hours),
        time_unit_named("hours"@) == Some(TimeUnit::Hours),
        time_unit_named("d"@) == Some(TimeUnit::Days),
        time_unit_named("days"@) == Some(TimeUnit::Days),
{
    reveal_strlit("ms");
    reveal_strlit("milliseconds");
    reveal_strlit("s");
    reveal_strlit("seconds");
    reveal_strlit("m");
    reveal_strlit("minutes");
    reveal_strlit("h");
    reveal_strlit("hours");
    reveal_strlit("d");
    reveal_strlit("days");
    assert("ms"@.len() == 2 && "ms"@[0] == 'm');
    assert("milliseconds"@.len() == 12 && "milliseconds"@[0] == 'm');
    assert("s"@.len() == 1 && "s"@[0] == 's');
    assert("seconds"@.len() == 7 && "seconds"@[0] == 's');
    assert("m"@.len() == 1 && "m"@[0] == 'm');
    assert("minutes"@.len() == 7 && "minutes"@[0] == 'm');
    assert("h"@.len() == 1 && "h"@[0] == 'h');
    assert("hours"@.len() == 5 && "hours"@[0] == 'h');
    assert("d"@.len() == 1 && "d"@[0] == 'd');
    assert("days"@.len() == 4 && "days"@[0] == 'd');
}

/// A time-difference condition compares `|right_col - left_col|`, as 64-bit
/// integers, with its threshold truncated to whole units (as `as i64` does) and
/// counted in nanoseconds: a millisecond is 1_000_000 of them, a second
/// 1_000_000_000, a minute 60_000_000_000, an hour 3_600_000_000_000 and a
/// day 86_400_000_000_000. Its unit is read ignoring case, by full name or by
/// abbreviation; an unknown unit is the error, reported before an unknown
/// operator.
pub proof fn lemma_time_difference_predicate(
    left_col: Seq<char>,
    right_col: Seq<char>,
    op: Seq<char>,
    thr: u64,
    time_unit: Seq<char>,
)
    ensures
        ({
            let c = ConditionSpec::TimeDifference { left_col, right_col, op, thr, time_unit };
            let u = lowercase(time_unit);
            let known = u == "ms"@ || u == "milliseconds"@ || u == "s"@ || u == "seconds"@ || u
                == "m"@ || u == "minutes"@ || u == "h"@ || u == "hours"@ || u == "d"@ || u
                == "days"@;
            &&& !known ==> predicate_of(c) == Err::<PredicateSpec, ErrorSpec>(
                ErrorSpec::InvalidTimeUnit(time_unit),
            )
            &&& known ==> (predicate_of(c) is Ok <==> parse_operator(op) is Ok)
            &&& predicate_of(c) matches Ok(p) ==> {
                &&& parse_operator(op) == Ok::<Operator, ErrorSpec>(p.op)
                &&& p.lhs == OperandSpec::AbsDifferenceInt64 { minuend: right_col, subtrahend: left_col }
                &&& (u == "ms"@ || u == "milliseconds"@) ==> p.rhs == OperandSpec::Int(
                    float_to_i64(thr) * 1_000_000,
                )
                &&& (u == "s"@ || u == "seconds"@) ==> p.rhs == OperandSpec::Int(
                    float_to_i64(thr) * 1_000_000_000,
                )
                &&& (u == "m"@ || u == "minutes"@) ==> p.rhs == OperandSpec::Int(
                    float_to_i64(thr) * 60_000_000_000,
                )
                &&& (u == "h"@ || u == "hours"@) ==> p.rhs == OperandSpec::Int(
                    float_to_i64(thr) * 3_600_000_000_000,
                )
                &&& (u == "d"@ || u == "days"@) ==> p.rhs == OperandSpec::Int(
                    float_to_i64(thr) * 86_400_000_000_000,
                )
            }
        }),
{
    lemma_time_unit_names();
}

/// A predicate result in mathematical form.
pub open spec fn predicate_result(r: Result<Predicate, BearBridgeError>) -> Result<PredicateSpec, ErrorSpec> {
    match r {
        Ok(p) => Ok(p@),
        Err(e) => Err(e@),
    }
}

/// Builds the predicate of a condition.
pub fn get_predicate(condition: &Condition) -> (r: Result<Predicate, BearBridgeError>)
    ensures
        predicate_result(r) == predicate_of(condition@),
{
    let (left_col, right_col) = condition.cols();
    let options = match condition.options() {
        Ok(o) => o,
        Err(e) => return Err(e),
    };
    let op = match Operator::from_str(condition.operator()) {
        Ok(o) => o,
        Err(e) => return Err(e),
    };
    let lhs = match options {
        JoinOptions::Standard => Operand::Column(left_col.to_string()),
        JoinOptions::Difference { .. } => Operand::AbsDifference {
            minuend: left_col.to_string(),
            subtrahend: right_col.to_string(),
        },
        JoinOptions::TimeDifference { .. } => Operand::AbsDifferenceInt64 {
            minuend: right_col.to_string(),
            subtrahend: left_col.to_string(),
        },
    };
    let rhs = match options {
        JoinOptions::Standard => Operand::Column(right_col.to_string()),
        JoinOptions::Difference { thr } => Operand::Float(thr),
        JoinOptions::TimeDifference { thr, time_unit } => {
            let whole = float_bits_to_i64(thr);
            let nanos = time_unit.to_nanos();
            assert(0 < nanos <= 86_400_000_000_000);
            assert((whole as i128) * (nanos as i128) <= 0x7fff_ffff_ffff_ffff * 86_400_000_000_000
                && (whole as i128) * (nanos as i128) >= -0x8000_0000_0000_0000 * 86_400_000_000_000)
                by (nonlinear_arith)
                requires
                    0 < nanos <= 86_400_000_000_000,
                    i64::MIN <= whole <= i64::MAX,
            ;
            Operand::Int((whole as i128) * (nanos as i128))
        },
    };
    Ok(Predicate { op, lhs, rhs })
}

} // verus!
