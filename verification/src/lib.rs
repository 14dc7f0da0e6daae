//! An in-memory columnar table: typed columns of equal length, built by
//! appending whole columns or whole rows, with every mutation either
//! committing completely or leaving the table untouched.

pub mod column;
pub mod table;
