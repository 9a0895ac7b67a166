//! The join engine: conditions, operators, predicates, join plans and the
//! chunked join stream.

pub mod conditional_join;
