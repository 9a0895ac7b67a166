//! Non-equi joins of data frames: conditions, operators, time units and join
//! kinds, column validation with collected errors, the `polars` expressions
//! and joins they become, and a join streamed over chunks of the left frame.

pub mod engine;
pub mod errors;
pub mod expr;
pub mod float;
pub mod frame;
pub mod joins;
pub mod text;

pub use engine::conditional_join::{
    Condition, JoinIterator, JoinKind, JoinOptions, JoinPlan, Operand, Operator, Predicate,
    TimeUnit, get_predicate, plan_join, run_join, str_to_join_type,
};
pub use errors::{BearBridgeError, PyErrorKind, errors_to_json};
pub use float::float_bits_to_i64;
pub use expr::{predicate_expr, predicate_exprs};
pub use joins::conditional::{conditional_join, get_predicates};
