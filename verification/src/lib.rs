//! Read-only queries against an SQLite database file.
//!
//! The crate opens a read-only connection to a database file, runs one
//! caller-supplied query, and returns the full result set as a vector of
//! rows, each row a vector of [`value::SqlValue`] cells.  Every engine
//! failure is reported through [`error::SqlError`], one variant per phase
//! of the call.

pub mod error;
pub mod query;
pub mod value;
