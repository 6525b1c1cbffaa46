//! The failure surface of a query call.
//!
//! Every engine-level failure aborts the whole call and is reported as one
//! [`SqlError`], a variant per phase: opening the connection, compiling
//! the query, starting its execution, and reading a row.  Each variant
//! carries the engine's own diagnostic text, and [`SqlError::message`]
//! renders the same human-readable line for it that callers print.

use vstd::prelude::*;

verus! {

/// Why a query call failed, by phase, with the engine's diagnostic text.
#[derive(Debug, Clone, PartialEq, Eq)]
pub enum SqlError {
    /// The database file could not be opened read-only.
    Connect(String),
    /// The query text did not compile.
    Compile(String),
    /// The compiled statement could not start executing.
    Execute(String),
    /// A row could not be read while iterating the result.
    RowRead(String),
}

impl SqlError {
    /// The engine's diagnostic text carried by this error.
    pub open spec fn detail(self) -> Seq<char> {
        match self {
            SqlError::Connect(d) => d@,
            SqlError::Compile(d) => d@,
            SqlError::Execute(d) => d@,
            SqlError::RowRead(d) => d@,
        }
    }

    /// The full human-readable message for this error: a phrase naming the
    /// failed phase, with the engine's diagnostic text in parentheses.
    pub open spec fn message_model(self) -> Seq<char> {
        match self {
            SqlError::Connect(d) => "failed to establish connection to the database ("@ + d@ + ")"@,
            SqlError::Compile(d) => "failed to compile sql query ("@ + d@ + ")"@,
            SqlError::Execute(d) => "failed to run sql query ("@ + d@ + ")"@,
            SqlError::RowRead(d) => "failed to read row from sql query ("@ + d@ + ")"@,
        }
    }

    /// Renders the message described by [`SqlError::message_model`].
    pub fn message(&self) -> (r: String)
        ensures
            r@ == self.message_model(),
    {
        match self {
            SqlError::Connect(d) => {
                wrap_detail("failed to establish connection to the database (", d)
            },
            SqlError::Compile(d) => wrap_detail("failed to compile sql query (", d),
            SqlError::Execute(d) => wrap_detail("failed to run sql query (", d),
            SqlError::RowRead(d) => wrap_detail("failed to read row from sql query (", d),
        }
    }
}

/// Appends the diagnostic text and a closing parenthesis to a phase phrase.
fn wrap_detail(phrase: &str, detail: &String) -> (r: String)
    ensures
        r@ == phrase@ + detail@ + ")"@,
{
    let mut r = String::from_str(phrase);
    r.append(detail.as_str());
    r.append(")");
    r
}

} // verus!
