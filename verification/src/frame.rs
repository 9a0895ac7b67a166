//! The `polars` data-frame types the library holds, and the few frame
//! operations it calls: height, column names, row slices, and the engine's
//! join type.

use vstd::prelude::*;
use polars::prelude::{Column, DataFrame, JoinType};
use crate::engine::conditional_join::types::JoinKind;

verus! {

/// A `polars` data frame, held as it is.
#[verifier::external_type_specification]
#[verifier::external_body]
pub struct ExDataFrame(DataFrame);

/// A column of a `polars` data frame. Declared because the data frame's
/// `Index` impls return slices of columns; no function here takes one.
#[verifier::external_type_specification]
#[verifier::external_body]
pub struct ExColumn(Column);

/// The `polars` join type that a join is run with; its variants are visible.
#[verifier::external_type_specification]
pub struct ExJoinType(JoinType);

/// The number of rows of a data frame.
pub uninterp spec fn frame_height(df: DataFrame) -> nat;

/// The names of a data frame's columns, in order.
pub uninterp spec fn frame_column_names(df: DataFrame) -> Seq<Seq<char>>;

/// The frame of rows `offset` to `offset + length` of a data frame, as
/// `DataFrame::slice` makes it.
pub uninterp spec fn frame_slice(df: DataFrame, offset: nat, length: nat) -> DataFrame;

/// Calls `DataFrame::height`, which returns the frame's number of rows.
#[verifier::external_body]
pub(crate) fn height(df: &DataFrame) -> (r: usize)
    ensures
        r == frame_height(*df),
{
    df.height()
}

/// Calls `DataFrame::get_column_names` and turns each name into a `String`;
/// the names come out in the frame's column order.
#[verifier::external_body]
pub(crate) fn column_names(df: &DataFrame) -> (r: Vec<String>)
    ensures
        r@.len() == frame_column_names(*df).len(),
        forall|i: int| 0 <= i < r@.len() ==> #[trigger] r@[i]@ == frame_column_names(*df)[i],
{
    df.get_column_names().into_iter().map(|name| name.to_string()).collect()
}

/// Calls `DataFrame::slice` with a range of rows that lies inside the frame.
/// The result is `frame_slice` of the frame and the range: `DataFrame::slice`
/// slices every column at `offset` for `length` rows and keeps the columns in
/// their order under their names, so within the frame the result has exactly
/// `length` rows and the frame's column names.
#[verifier::external_body]
pub(crate) fn slice(df: &DataFrame, offset: usize, length: usize) -> (r: DataFrame)
    requires
        offset + length <= frame_height(*df),
        offset <= i64::MAX,
    ensures
        r == frame_slice(*df, offset as nat, length as nat),
        frame_height(r) == length,
        frame_column_names(r) == frame_column_names(*df),
{
    df.slice(offset as i64, length)
}

/// The `polars` join type of the same name as a join kind.
pub open spec fn join_type_of(kind: JoinKind) -> JoinType {
    match kind {
        JoinKind::Inner => JoinType::Inner,
        JoinKind::Left => JoinType::Left,
        JoinKind::Full => JoinType::Full,
    }
}

/// Turns a join kind into the `polars` join type of the same name.
pub fn polars_join_type(kind: JoinKind) -> (r: JoinType)
    ensures
        r == join_type_of(kind),
{
    match kind {
        JoinKind::Inner => JoinType::Inner,
        JoinKind::Left => JoinType::Left,
        JoinKind::Full => JoinType::Full,
    }
}

} // verus!
