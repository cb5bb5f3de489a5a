//! The failures a statement can end in.

use vstd::prelude::*;

verus! {

/// Why a statement could not be laid out.
#[derive(Clone, Copy, Debug, PartialEq, Eq, Structural)]
pub enum StatementError {
    /// No transaction was supplied.
    EmptyStatement,
    /// A page capacity is not positive.
    InvalidCapacity,
    /// The column schedule does not have the column count of the variant.
    ColumnScheduleMismatch,
    /// The last record of a unit-fund statement carries no unit price.
    MissingUnitPrice,
}

} // verus!
