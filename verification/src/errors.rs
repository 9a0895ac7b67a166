//! The library's error type, its messages, its JSON form, and the Python
//! exception each error becomes.

use vstd::prelude::*;
use vstd::string::*;
use polars::prelude::PolarsError;
use crate::text::{decimal, decimal_string, json_quote, json_string};

verus! {

/// The error type of the `polars` data-frame engine, carried through unchanged.
#[verifier::external_type_specification]
#[verifier::external_body]
pub struct ExPolarsError(PolarsError);

/// Everything that can go wrong while checking and planning a join.
#[derive(Debug)]
pub enum BearBridgeError {
    /// An operator string that names no operator.
    InvalidOperator(String),
    /// A column that a condition names is missing on one side of the join.
    ColumnNotFound { column: String, side: String },
    /// A time unit string that names no time unit.
    InvalidTimeUnit(String),
    /// A join type string that names no join type.
    InvalidJoinType(String),
    /// An error of the data-frame engine.
    Polars(PolarsError),
    /// Several validation errors at once: their number and their JSON array.
    MultiError(usize, String),
}

/// The mathematical form of an error: its texts as character sequences.
pub enum ErrorSpec {
    InvalidOperator(Seq<char>),
    ColumnNotFound { column: Seq<char>, side: Seq<char> },
    InvalidTimeUnit(Seq<char>),
    InvalidJoinType(Seq<char>),
    Polars(PolarsError),
    MultiError(nat, Seq<char>),
}

impl View for BearBridgeError {
    type V = ErrorSpec;

    open spec fn view(&self) -> ErrorSpec {
        match self {
            BearBridgeError::InvalidOperator(s) => ErrorSpec::InvalidOperator(s@),
            BearBridgeError::ColumnNotFound { column, side } => ErrorSpec::ColumnNotFound {
                column: column@,
                side: side@,
            },
            BearBridgeError::InvalidTimeUnit(s) => ErrorSpec::InvalidTimeUnit(s@),
            BearBridgeError::InvalidJoinType(s) => ErrorSpec::InvalidJoinType(s@),
            BearBridgeError::Polars(e) => ErrorSpec::Polars(*e),
            BearBridgeError::MultiError(n, s) => ErrorSpec::MultiError(*n as nat, s@),
        }
    }
}

/// A result with its error in mathematical form.
pub open spec fn result_view<T>(r: Result<T, BearBridgeError>) -> Result<T, ErrorSpec> {
    match r {
        Ok(t) => Ok(t),
        Err(e) => Err(e@),
    }
}

/// The message text of every error but an engine error.
pub open spec fn error_message(e: ErrorSpec) -> Seq<char> {
    match e {
        ErrorSpec::InvalidOperator(s) => "Invalid operator "@ + s
            + ". Allowed: >, <, >=, <=, ==, != "@,
        ErrorSpec::ColumnNotFound { column, side } => "Column "@ + column + " not found in "@
            + side + "."@,
        ErrorSpec::InvalidTimeUnit(s) => "TimeUnit "@ + s
            + " is invalid. Allowed: d|days, h|hours, m|minutes, s|seconds, ms|milliseconds"@,
        ErrorSpec::InvalidJoinType(s) => "Join type "@ + s
            + " not available. Allowed inner, left, full|outer."@,
        ErrorSpec::Polars(_) => "Polars engine error: "@,
        ErrorSpec::MultiError(n, s) => "Validation filed with "@ + decimal(n) + " errors:\n"@ + s,
    }
}

/// The message of an engine error: the prefix, then the text that the engine
/// error's `Display` gives (as vstd specifies `to_string`).
pub open spec fn engine_message(e: PolarsError, m: Seq<char>) -> bool {
    exists|d: String|
        #![trigger to_string_from_display_ensures::<PolarsError>(&e, d)]
        to_string_from_display_ensures::<PolarsError>(&e, d) && m == "Polars engine error: "@ + d@
}

/// The JSON object of an error: its variant's name under `error_type` and its
/// payload under `details`.
pub open spec fn tagged_json(name: Seq<char>, details: Seq<char>) -> Seq<char> {
    "{\"error_type\":\""@ + name + "\",\"details\":"@ + details + "}"@
}

/// The JSON form of an error, or `None` for the errors that have none (engine
/// errors and multiple errors).
pub open spec fn error_json(e: ErrorSpec) -> Option<Seq<char>> {
    match e {
        ErrorSpec::InvalidOperator(s) => Some(tagged_json("InvalidOperator"@, json_string(s))),
        ErrorSpec::ColumnNotFound { column, side } => Some(
            tagged_json(
                "ColumnNotFound"@,
                "{\"column\":"@ + json_string(column) + ",\"side\":"@ + json_string(side) + "}"@,
            ),
        ),
        ErrorSpec::InvalidTimeUnit(s) => Some(tagged_json("InvalidTimeUnit"@, json_string(s))),
        ErrorSpec::InvalidJoinType(s) => Some(tagged_json("InvalidJoinType"@, json_string(s))),
        ErrorSpec::Polars(_) => None,
        ErrorSpec::MultiError(_, _) => None,
    }
}

/// The JSON forms of a sequence of errors, separated by commas, or `None` if
/// one of them has no JSON form.
pub open spec fn json_items(es: Seq<ErrorSpec>) -> Option<Seq<char>>
    decreases es.len(),
{
    if es.len() == 0 {
        Some(Seq::empty())
    } else {
        match (json_items(es.drop_last()), error_json(es.last())) {
            (Some(prefix), Some(item)) => Some(
                if es.len() == 1 { item } else { prefix + ","@ + item },
            ),
            _ => None,
        }
    }
}

/// The JSON array of a sequence of errors; `[]` when one of them has no JSON form.
pub open spec fn errors_json(es: Seq<ErrorSpec>) -> Seq<char> {
    match json_items(es) {
        Some(items) => "["@ + items + "]"@,
        None => "[]"@,
    }
}

/// The kind of Python exception an error is raised as.
#[derive(Debug, Clone, Copy, PartialEq, Eq, Structural)]
pub enum PyErrorKind {
    ValueError,
    RuntimeError,
}

impl BearBridgeError {
    /// The error's message, as its `Display` form reads.
    pub fn to_string(&self) -> (r: String)
        ensures
            self@ !is Polars ==> r@ == error_message(self@),
            self@ matches ErrorSpec::Polars(e) ==> engine_message(e, r@),
    {
        match self {
            BearBridgeError::InvalidOperator(s) => {
                let mut m = String::from_str("Invalid operator ");
                m.append(s.as_str());
                m.append(". Allowed: >, <, >=, <=, ==, != ");
                m
            },
            BearBridgeError::ColumnNotFound { column, side } => {
                let mut m = String::from_str("Column ");
                m.append(column.as_str());
                m.append(" not found in ");
                m.append(side.as_str());
                m.append(".");
                m
            },
            BearBridgeError::InvalidTimeUnit(s) => {
                let mut m = String::from_str("TimeUnit ");
                m.append(s.as_str());
                m.append(
                    " is invalid. Allowed: d|days, h|hours, m|minutes, s|seconds, ms|milliseconds",
                );
                m
            },
            BearBridgeError::InvalidJoinType(s) => {
                let mut m = String::from_str("Join type ");
                m.append(s.as_str());
                m.append(" not available. Allowed inner, left, full|outer.");
                m
            },
            BearBridgeError::Polars(e) => {
                let mut m = String::from_str("Polars engine error: ");
                let detail = e.to_string();
                m.append(detail.as_str());
                assert(to_string_from_display_ensures::<PolarsError>(e, detail));
                m
            },
            BearBridgeError::MultiError(n, s) => {
                let mut m = String::from_str("Validation filed with ");
                let count = decimal_string(*n);
                m.append(count.as_str());
                m.append(" errors:\n");
                m.append(s.as_str());
                m
            },
        }
    }

    /// The error's JSON form, or `None` for engine errors and multiple errors,
    /// which have none.
    pub fn to_json(&self) -> (r: Option<String>)
        ensures
            match (r, error_json(self@)) {
                (Some(t), Some(j)) => t@ == j,
                (None, None) => true,
                _ => false,
            },
    {
        match self {
            BearBridgeError::InvalidOperator(s) => Some(tagged("InvalidOperator", json_quote(s.as_str()))),
            BearBridgeError::ColumnNotFound { column, side } => {
                let mut details = String::from_str("{\"column\":");
                details.append(json_quote(column.as_str()).as_str());
                details.append(",\"side\":");
                details.append(json_quote(side.as_str()).as_str());
                details.append("}");
                Some(tagged("ColumnNotFound", details))
            },
            BearBridgeError::InvalidTimeUnit(s) => Some(tagged("InvalidTimeUnit", json_quote(s.as_str()))),
            BearBridgeError::InvalidJoinType(s) => Some(tagged("InvalidJoinType", json_quote(s.as_str()))),
            BearBridgeError::Polars(_) => None,
            BearBridgeError::MultiError(_, _) => None,
        }
    }

    /// The Python exception the error is raised as: a multiple error becomes a
    /// `ValueError` carrying its JSON array, every other error a `RuntimeError`
    /// carrying its message.
    pub fn python_error(&self) -> (r: (PyErrorKind, String))
        ensures
            match self@ {
                ErrorSpec::MultiError(_, json) => r.0 == PyErrorKind::ValueError && r.1@ == json,
                ErrorSpec::Polars(e) => r.0 == PyErrorKind::RuntimeError && engine_message(e, r.1@),
                _ => r.0 == PyErrorKind::RuntimeError && r.1@ == error_message(self@),
            },
    {
        match self {
            BearBridgeError::MultiError(_, json) => (PyErrorKind::ValueError, json.clone()),
            _ => (PyErrorKind::RuntimeError, self.to_string()),
        }
    }
}

fn tagged(name: &str, details: String) -> (r: String)
    ensures
        r@ == tagged_json(name@, details@),
{
    let mut t = String::from_str("{\"error_type\":\"");
    t.append(name);
    t.append("\",\"details\":");
    t.append(details.as_str());
    t.append("}");
    t
}

/// The JSON array of a list of errors, as `serde_json` writes the list: one
/// object per error, in order, separated by commas. A list that holds an error
/// without JSON form gives `[]`.
pub fn errors_to_json(errors: &Vec<BearBridgeError>) -> (r: String)
    ensures
        r@ == errors_json(errors@.map_values(|e: BearBridgeError| e@)),
{
    let ghost es = errors@.map_values(|e: BearBridgeError| e@);
    let mut body = String::new();
    let n = errors.len();
    let mut i: usize = 0;
    while i < n
        invariant
            n == errors@.len(),
            es == errors@.map_values(|e: BearBridgeError| e@),
            i <= n,
            json_items(es.take(i as int)) == Some(body@),
        decreases n - i,
    {
        assert(es.take(i as int + 1).drop_last() =~= es.take(i as int));
        match errors[i].to_json() {
            Some(item) => {
                if i > 0 {
                    body.append(",");
                }
                body.append(item.as_str());
            },
            None => {
                proof { lemma_json_items_prefix_none(es, i as int + 1); }
                return String::from_str("[]");
            },
        }
        i = i + 1;
    }
    assert(es.take(n as int) =~= es);
    let mut out = String::from_str("[");
    out.append(body.as_str());
    out.append("]");
    out
}

/// Once a prefix of a list has no JSON form, neither has the list.
proof fn lemma_json_items_prefix_none(es: Seq<ErrorSpec>, k: int)
    requires
        0 <= k <= es.len(),
        json_items(es.take(k)) is None,
    ensures
        json_items(es) is None,
    decreases es.len() - k,
{
    if k < es.len() {
        assert(es.take(k + 1).drop_last() =~= es.take(k));
        lemma_json_items_prefix_none(es, k + 1);
    } else {
        assert(es.take(k) =~= es);
    }
}

} // verus!
