//! Joins whose conditions are validated against the frames' columns first,
//! with every problem reported at once.

pub mod conditional;
