//! Pagination and tabular layout of multi-page account statements.
//!
//! A statement is an ordered list of transactions.  The crate decides how many
//! pages the statement needs, which records go on which page, what every cell
//! of the transaction table says and where it stands, and where the totals
//! row goes.  Lengths are whole micrometres and money is whole thousandths of
//! a currency unit, so every result is an exact integer or a string.

pub mod aggregate;
pub mod amount;
pub mod calendar;
pub mod compose;
pub mod content;
pub mod error;
pub mod footer;
pub mod geometry;
pub mod layout;
pub mod paginate;
pub mod transaction;
