//! Join conditions, their options, time units and join kinds.

use vstd::prelude::*;
use vstd::string::*;
use polars::prelude::JoinType;
use crate::errors::{BearBridgeError, ErrorSpec, result_view};
use crate::frame::{join_type_of, polars_join_type};
use crate::text::{lowercase, str_eq, to_lowercase};

verus! {

/// One condition of a non-equi join between a left and a right column.
///
/// A threshold is held by the bit pattern of its binary64 value
/// (`f64::to_bits`).
#[derive(Debug, Clone)]
pub enum Condition {
    /// `left_col <op> right_col`.
    Standard { left_col: String, right_col: String, op: String },
    /// `|left_col - right_col| <op> thr`.
    Difference { left_col: String, right_col: String, op: String, thr: u64 },
    /// `|right_col - left_col|`, in nanoseconds, `<op>` `thr` whole time units.
    TimeDifference {
        left_col: String,
        right_col: String,
        op: String,
        thr: u64,
        time_unit: String,
    },
}

/// The mathematical form of a condition: its texts as character sequences.
pub enum ConditionSpec {
    Standard { left_col: Seq<char>, right_col: Seq<char>, op: Seq<char> },
    Difference { left_col: Seq<char>, right_col: Seq<char>, op: Seq<char>, thr: u64 },
    TimeDifference {
        left_col: Seq<char>,
        right_col: Seq<char>,
        op: Seq<char>,
        thr: u64,
        time_unit: Seq<char>,
    },
}

impl View for Condition {
    type V = ConditionSpec;

    open spec fn view(&self) -> ConditionSpec {
        match self {
            Condition::Standard { left_col, right_col, op } => ConditionSpec::Standard {
                left_col: left_col@,
                right_col: right_col@,
                op: op@,
            },
            Condition::Difference { left_col, right_col, op, thr } => ConditionSpec::Difference {
                left_col: left_col@,
                right_col: right_col@,
                op: op@,
                thr: *thr,
            },
            Condition::TimeDifference { left_col, right_col, op, thr, time_unit } =>
                ConditionSpec::TimeDifference {
                left_col: left_col@,
                right_col: right_col@,
                op: op@,
                thr: *thr,
                time_unit: time_unit@,
            },
        }
    }
}

impl ConditionSpec {
    /// The left column the condition names.
    pub open spec fn left(self) -> Seq<char> {
        match self {
            ConditionSpec::Standard { left_col, .. } => left_col,
            ConditionSpec::Difference { left_col, .. } => left_col,
            ConditionSpec::TimeDifference { left_col, .. } => left_col,
        }
    }

    /// The right column the condition names.
    pub open spec fn right(self) -> Seq<char> {
        match self {
            ConditionSpec::Standard { right_col, .. } => right_col,
            ConditionSpec::Difference { right_col, .. } => right_col,
            ConditionSpec::TimeDifference { right_col, .. } => right_col,
        }
    }

    /// The operator text of the condition.
    pub open spec fn op(self) -> Seq<char> {
        match self {
            ConditionSpec::Standard { op, .. } => op,
            ConditionSpec::Difference { op, .. } => op,
            ConditionSpec::TimeDifference { op, .. } => op,
        }
    }
}

/// A unit of time for time-difference conditions.
#[derive(Debug, PartialEq, Eq, Clone, Copy, Structural)]
pub enum TimeUnit {
    Days,
    Hours,
    Minutes,
    Seconds,
    Milliseconds,
}

/// What a condition asks of its two columns, with its time unit resolved.
#[derive(Debug, PartialEq, Eq, Clone, Copy, Structural)]
pub enum JoinOptions {
    Standard,
    Difference { thr: u64 },
    TimeDifference { thr: u64, time_unit: TimeUnit },
}

/// The kinds of join the library runs.
#[derive(Debug, PartialEq, Eq, Clone, Copy, Structural)]
pub enum JoinKind {
    Inner,
    Left,
    Full,
}

/// The time unit a lowercase name denotes: `d`/`days`, `h`/`hours`,
/// `m`/`minutes`, `s`/`seconds`, `ms`/`milliseconds`.
pub open spec fn time_unit_named(s: Seq<char>) -> Option<TimeUnit> {
    if s == "days"@ || s == "d"@ {
        Some(TimeUnit::Days)
    } else if s == "hours"@ || s == "h"@ {
        Some(TimeUnit::Hours)
    } else if s == "minutes"@ || s == "m"@ {
        Some(TimeUnit::Minutes)
    } else if s == "seconds"@ || s == "s"@ {
        Some(TimeUnit::Seconds)
    } else if s == "milliseconds"@ || s == "ms"@ {
        Some(TimeUnit::Milliseconds)
    } else {
        None
    }
}

/// Parsing a time unit ignores case: the lowercase form of the text decides,
/// and an unknown text is reported as it was given.
pub open spec fn parse_time_unit(s: Seq<char>) -> Result<TimeUnit, ErrorSpec> {
    match time_unit_named(lowercase(s)) {
        Some(u) => Ok(u),
        None => Err(ErrorSpec::InvalidTimeUnit(s)),
    }
}

/// Nanoseconds per time unit.
pub open spec fn unit_nanos(u: TimeUnit) -> i64 {
    match u {
        TimeUnit::Milliseconds => 1_000_000,
        TimeUnit::Seconds => 1_000_000_000,
        TimeUnit::Minutes => 60_000_000_000,
        TimeUnit::Hours => 3_600_000_000_000,
        TimeUnit::Days => 86_400_000_000_000,
    }
}

/// The join kind a lowercase name denotes: `inner`, `left`, and `full` or
/// `outer`.
pub open spec fn join_kind_named(s: Seq<char>) -> Option<JoinKind> {
    if s == "inner"@ {
        Some(JoinKind::Inner)
    } else if s == "left"@ {
        Some(JoinKind::Left)
    } else if s == "full"@ || s == "outer"@ {
        Some(JoinKind::Full)
    } else {
        None
    }
}

/// Parsing a join kind ignores case; an unknown text is reported as it was
/// given.
pub open spec fn parse_join_kind(s: Seq<char>) -> Result<JoinKind, ErrorSpec> {
    match join_kind_named(lowercase(s)) {
        Some(k) => Ok(k),
        None => Err(ErrorSpec::InvalidJoinType(s)),
    }
}

/// The options of a condition: a time-difference condition needs a valid time
/// unit, the others always have options.
pub open spec fn condition_options(c: ConditionSpec) -> Result<JoinOptions, ErrorSpec> {
    match c {
        ConditionSpec::Standard { .. } => Ok(JoinOptions::Standard),
        ConditionSpec::Difference { thr, .. } => Ok(JoinOptions::Difference { thr }),
        ConditionSpec::TimeDifference { thr, time_unit, .. } => match parse_time_unit(time_unit) {
            Ok(u) => Ok(JoinOptions::TimeDifference { thr, time_unit: u }),
            Err(e) => Err(e),
        },
    }
}

/// Parsing a time unit ignores case: two texts with the same lowercase form
/// name the same unit, or both name none.
pub proof fn lemma_time_unit_ignores_case(a: Seq<char>, b: Seq<char>)
    requires
        lowercase(a) == lowercase(b),
    ensures
        parse_time_unit(a) is Ok <==> parse_time_unit(b) is Ok,
        parse_time_unit(a) is Ok ==> parse_time_unit(a) == parse_time_unit(b),
{
}

/// Parsing a join kind ignores case: two texts with the same lowercase form
/// name the same kind, or both name none.
pub proof fn lemma_join_kind_ignores_case(a: Seq<char>, b: Seq<char>)
    requires
        lowercase(a) == lowercase(b),
    ensures
        parse_join_kind(a) is Ok <==> parse_join_kind(b) is Ok,
        parse_join_kind(a) is Ok ==> parse_join_kind(a) == parse_join_kind(b),
{
}

/// A join kind name, read ignoring case, runs the join of the same name:
/// `inner` an inner join, `left` a left join, `full` and `outer` a full join;
/// every other name is refused with the name as given.
pub proof fn lemma_join_kind_names(s: Seq<char>)
    ensures
        lowercase(s) == "inner"@ ==> (parse_join_kind(s) matches Ok(k) && join_type_of(k)
            == JoinType::Inner),
        lowercase(s) == "left"@ ==> (parse_join_kind(s) matches Ok(k) && join_type_of(k)
            == JoinType::Left),
        lowercase(s) == "full"@ || lowercase(s) == "outer"@ ==> (parse_join_kind(s) matches Ok(k)
            && join_type_of(k) == JoinType::Full),
        !(lowercase(s) == "inner"@ || lowercase(s) == "left"@ || lowercase(s) == "full"@
            || lowercase(s) == "outer"@) ==> parse_join_kind(s) == Err::<JoinKind, ErrorSpec>(
            ErrorSpec::InvalidJoinType(s),
        ),
{
    reveal_strlit("inner");
    reveal_strlit("left");
    reveal_strlit("full");
    reveal_strlit("outer");
    assert("inner"@.len() == 5 && "inner"@[0] == 'i');
    assert("left"@.len() == 4 && "left"@[0] == 'l');
    assert("full"@.len() == 4 && "full"@[0] == 'f');
    assert("outer"@.len() == 5 && "outer"@[0] == 'o');
}

/// The units are consistent: a second is a thousand milliseconds, a minute
/// sixty seconds, an hour sixty minutes, a day twenty-four hours.
pub proof fn lemma_unit_ratios()
    ensures
        unit_nanos(TimeUnit::Seconds) == 1000 * unit_nanos(TimeUnit::Milliseconds),
        unit_nanos(TimeUnit::Minutes) == 60 * unit_nanos(TimeUnit::Seconds),
        unit_nanos(TimeUnit::Hours) == 60 * unit_nanos(TimeUnit::Minutes),
        unit_nanos(TimeUnit::Days) == 24 * unit_nanos(TimeUnit::Hours),
{
}

impl TimeUnit {
    /// Reads a time unit from the lowercase form `lower` of the text `input`.
    pub fn from_lowercased(lower: &str, input: &str) -> (r: Result<TimeUnit, BearBridgeError>)
        ensures
            result_view(r) == match time_unit_named(lower@) {
                Some(u) => Ok(u),
                None => Err(ErrorSpec::InvalidTimeUnit(input@)),
            },
    {
        if str_eq(lower, "days") || str_eq(lower, "d") {
            Ok(TimeUnit::Days)
        } else if str_eq(lower, "hours") || str_eq(lower, "h") {
            Ok(TimeUnit::Hours)
        } else if str_eq(lower, "minutes") || str_eq(lower, "m") {
            Ok(TimeUnit::Minutes)
        } else if str_eq(lower, "seconds") || str_eq(lower, "s") {
            Ok(TimeUnit::Seconds)
        } else if str_eq(lower, "milliseconds") || str_eq(lower, "ms") {
            Ok(TimeUnit::Milliseconds)
        } else {
            Err(BearBridgeError::InvalidTimeUnit(input.to_string()))
        }
    }

    /// Reads a time unit, ignoring case.
    pub fn from_str(s: &str) -> (r: Result<TimeUnit, BearBridgeError>)
        ensures
            result_view(r) == parse_time_unit(s@),
    {
        let lower = to_lowercase(s);
        TimeUnit::from_lowercased(lower.as_str(), s)
    }

    /// The number of nanoseconds in one unit.
    pub fn to_nanos(&self) -> (r: i64)
        ensures
            r == unit_nanos(*self),
    {
        match self {
            TimeUnit::Milliseconds => 1_000_000,
            TimeUnit::Seconds => 1_000_000_000,
            TimeUnit::Minutes => 60 * 1_000_000_000,
            TimeUnit::Hours => 60 * 60 * 1_000_000_000,
            TimeUnit::Days => 24 * 60 * 60 * 1_000_000_000,
        }
    }
}

impl std::str::FromStr for TimeUnit {
    type Err = BearBridgeError;

    fn from_str(s: &str) -> (r: Result<Self, Self::Err>)
        ensures
            result_view(r) == parse_time_unit(s@),
    {
        TimeUnit::from_str(s)
    }
}

impl JoinKind {
    /// Reads a join kind from the lowercase form `lower` of the text `input`.
    pub fn from_lowercased(lower: &str, input: &str) -> (r: Result<JoinKind, BearBridgeError>)
        ensures
            result_view(r) == match join_kind_named(lower@) {
                Some(k) => Ok(k),
                None => Err(ErrorSpec::InvalidJoinType(input@)),
            },
    {
        if str_eq(lower, "inner") {
            Ok(JoinKind::Inner)
        } else if str_eq(lower, "left") {
            Ok(JoinKind::Left)
        } else if str_eq(lower, "full") || str_eq(lower, "outer") {
            Ok(JoinKind::Full)
        } else {
            Err(BearBridgeError::InvalidJoinType(input.to_string()))
        }
    }

    /// Reads a join kind, ignoring case.
    pub fn from_str(s: &str) -> (r: Result<JoinKind, BearBridgeError>)
        ensures
            result_view(r) == parse_join_kind(s@),
    {
        let lower = to_lowercase(s);
        JoinKind::from_lowercased(lower.as_str(), s)
    }
}

/// Reads the engine's join type from a join kind name, ignoring case; `full`
/// and `outer` both give a full join.
pub fn str_to_join_type(s: &str) -> (r: Result<JoinType, BearBridgeError>)
    ensures
        match (r, parse_join_kind(s@)) {
            (Ok(t), Ok(kind)) => t == join_type_of(kind),
            (Err(e), Err(f)) => e@ == f,
            _ => false,
        },
{
    match JoinKind::from_str(s) {
        Ok(kind) => Ok(polars_join_type(kind)),
        Err(e) => Err(e),
    }
}

impl Condition {
    /// Builds a condition from its fields as a caller hands them over: with a
    /// threshold and a time unit it compares a time difference, with a
    /// threshold alone a difference, and otherwise the two columns themselves
    /// (a time unit without a threshold is ignored).
    pub fn from_fields(
        left_col: String,
        right_col: String,
        op: String,
        thr: Option<u64>,
        time_unit: Option<String>,
    ) -> (r: Condition)
        ensures
            r@.left() == left_col@,
            r@.right() == right_col@,
            r@.op() == op@,
            thr is None ==> r@ is Standard,
            thr matches Some(t) ==> match time_unit {
                Some(u) => r@ matches ConditionSpec::TimeDifference { thr, time_unit, .. }
                    && thr == t && time_unit == u@,
                None => r@ matches ConditionSpec::Difference { thr, .. } && thr == t,
            },
    {
        match (thr, time_unit) {
            (Some(t), Some(u)) => Condition::TimeDifference { left_col, right_col, op, thr: t, time_unit: u },
            (Some(t), None) => Condition::Difference { left_col, right_col, op, thr: t },
            _ => Condition::Standard { left_col, right_col, op },
        }
    }

    /// The options of the condition; a time-difference condition's time unit
    /// is parsed here.
    pub fn options(&self) -> (r: Result<JoinOptions, BearBridgeError>)
        ensures
            result_view(r) == condition_options(self@),
    {
        match self {
            Condition::Difference { thr, .. } => Ok(JoinOptions::Difference { thr: *thr }),
            Condition::TimeDifference { thr, time_unit, .. } => {
                match TimeUnit::from_str(time_unit.as_str()) {
                    Ok(u) => Ok(JoinOptions::TimeDifference { thr: *thr, time_unit: u }),
                    Err(e) => Err(e),
                }
            },
            _ => Ok(JoinOptions::Standard),
        }
    }

    /// The left and the right column the condition names.
    pub fn cols(&self) -> (r: (&str, &str))
        ensures
            r.0@ == self@.left(),
            r.1@ == self@.right(),
    {
        match self {
            Condition::Standard { left_col, right_col, .. } => (left_col.as_str(), right_col.as_str()),
            Condition::Difference { left_col, right_col, .. } => (left_col.as_str(), right_col.as_str()),
            Condition::TimeDifference { left_col, right_col, .. } => (left_col.as_str(), right_col.as_str()),
        }
    }

    /// The operator text of the condition.
    pub fn operator(&self) -> (r: &str)
        ensures
            r@ == self@.op(),
    {
        match self {
            Condition::Standard { op, .. } => op.as_str(),
            Condition::Difference { op, .. } => op.as_str(),
            Condition::TimeDifference { op, .. } => op.as_str(),
        }
    }
}

} // verus!
