//! The query executor.
//!
//! [`sql`] opens a read-only connection to an SQLite file, compiles and
//! runs one caller-supplied query with no bound parameters, and collects
//! the whole result set in memory, row by row and cell by cell.  The
//! connection lives only for the duration of the call.  All engine calls
//! go through small trusted wrappers below; the iteration and the cell
//! decoding around them are verified.

use crate::error::SqlError;
use crate::value::{decode_cell, RawCell, SqlValue};
use vstd::prelude::*;

verus! {

#[verifier::external_type_specification]
#[verifier::external_body]
pub struct ExConnection(rusqlite::Connection);

#[verifier::external_type_specification]
#[verifier::external_body]
pub struct ExStatement<'conn>(rusqlite::Statement<'conn>);

#[verifier::external_type_specification]
#[verifier::external_body]
pub struct ExRows<'stmt>(rusqlite::Rows<'stmt>);

#[verifier::external_type_specification]
#[verifier::external_body]
pub struct ExRow<'stmt>(rusqlite::Row<'stmt>);

#[verifier::external_type_specification]
#[verifier::external_body]
pub struct ExError(rusqlite::Error);

/// Relies on `Connection::open_with_flags` with `SQLITE_OPEN_READ_ONLY`
/// alone: the engine opens an existing database file without write or
/// create access, and fails if the file cannot be opened that way.
#[verifier::external_body]
fn open_read_only(path: &str) -> Result<rusqlite::Connection, rusqlite::Error> {
    rusqlite::Connection::open_with_flags(path, rusqlite::OpenFlags::SQLITE_OPEN_READ_ONLY)
}

/// Relies on `Connection::prepare`: compiles the query text into a
/// statement against the open connection, and fails on malformed SQL.
#[verifier::external_body]
fn prepare_stmt<'conn>(
    conn: &'conn rusqlite::Connection,
    text: &str,
) -> Result<rusqlite::Statement<'conn>, rusqlite::Error> {
    conn.prepare(text)
}

/// Relies on `Statement::column_count`: the number of columns in the
/// result set of the compiled statement.
#[verifier::external_body]
fn column_count<'conn>(stmt: &rusqlite::Statement<'conn>) -> usize {
    stmt.column_count()
}

/// Relies on `Statement::query` with an empty parameter list: starts
/// executing the statement and hands back its row iterator.
#[verifier::external_body]
fn run_stmt<'stmt, 'conn>(
    stmt: &'stmt mut rusqlite::Statement<'conn>,
) -> Result<rusqlite::Rows<'stmt>, rusqlite::Error> {
    stmt.query([])
}

/// Relies on `Rows::next`: advances the iterator, returning the next row,
/// `None` once the engine signals exhaustion, or the engine's error.
#[verifier::external_body]
fn next_row<'rows, 'stmt>(
    rows: &'rows mut rusqlite::Rows<'stmt>,
) -> Result<Option<&'rows rusqlite::Row<'stmt>>, rusqlite::Error> {
    rows.next()
}

/// Relies on `Row::get_ref`: reads the cell at column `i` of the current
/// row, carrying each storage class over unchanged (a real as its bit
/// pattern, text as its raw bytes), or returns the engine's error when
/// `i` is not a valid column index.
#[verifier::external_body]
fn read_cell<'stmt>(row: &rusqlite::Row<'stmt>, i: usize) -> Result<RawCell, rusqlite::Error> {
    match row.get_ref(i) {
        Ok(rusqlite::types::ValueRef::Null) => Ok(RawCell::Null),
        Ok(rusqlite::types::ValueRef::Integer(x)) => Ok(RawCell::Int(x)),
        Ok(rusqlite::types::ValueRef::Real(x)) => Ok(RawCell::Real(x.to_bits())),
        Ok(rusqlite::types::ValueRef::Text(t)) => Ok(RawCell::Text(t.to_vec())),
        Ok(rusqlite::types::ValueRef::Blob(b)) => Ok(RawCell::Blob(b.to_vec())),
        Err(e) => Err(e),
    }
}

/// Relies on the `Display` impl of `rusqlite::Error`: the engine's
/// diagnostic text for the error.
#[verifier::external_body]
fn error_text(e: &rusqlite::Error) -> String {
    e.to_string()
}

/// Reads the current row: extracts the cells of columns `0 .. ncols` in
/// order and decodes each.  A cell the engine will not hand out fails the
/// whole row with a row-read error.
fn collect_row<'stmt>(row: &rusqlite::Row<'stmt>, ncols: usize) -> (r: Result<
    Vec<SqlValue>,
    SqlError,
>)
    ensures
        r matches Ok(cells) ==> cells@.len() == ncols,
        r matches Err(e) ==> e is RowRead,
{
    let mut cells: Vec<SqlValue> = Vec::new();
    let mut i: usize = 0;
    while i < ncols
        invariant
            i <= ncols,
            cells@.len() == i,
        decreases ncols - i,
    {
        match read_cell(row, i) {
            Ok(raw) => cells.push(decode_cell(raw)),
            Err(e) => {
                return Err(SqlError::RowRead(error_text(&e)));
            },
        }
        i = i + 1;
    }
    Ok(cells)
}

/// Opens a read-only connection to the SQLite file at `source`, runs
/// `query` with no bound parameters, and returns every result row in the
/// engine's order, each row holding one decoded cell per column.
///
/// On success each row has the same length: the column count that the
/// compiled statement reported.  Any engine failure aborts the call with
/// the [`SqlError`] variant of the phase that failed; no partial result is
/// ever returned.  The connection is released when the call returns, on
/// success and on failure alike.
pub fn sql(source: &str, query: &str) -> (r: Result<Vec<Vec<SqlValue>>, SqlError>)
    ensures
        r matches Ok(rows) ==> forall|i: int, j: int|
            0 <= i < rows@.len() && 0 <= j < rows@.len() ==> rows@[i]@.len() == rows@[j]@.len(),
{
    let conn = match open_read_only(source) {
        Ok(c) => c,
        Err(e) => {
            return Err(SqlError::Connect(error_text(&e)));
        },
    };
    let mut stmt = match prepare_stmt(&conn, query) {
        Ok(s) => s,
        Err(e) => {
            return Err(SqlError::Compile(error_text(&e)));
        },
    };
    let ncols = column_count(&stmt);
    let mut rows_iter = match run_stmt(&mut stmt) {
        Ok(rs) => rs,
        Err(e) => {
            return Err(SqlError::Execute(error_text(&e)));
        },
    };
    let mut out: Vec<Vec<SqlValue>> = Vec::new();
    loop
        invariant
            out@.len() <= usize::MAX,
            forall|i: int| 0 <= i < out@.len() ==> out@[i]@.len() == ncols,
        decreases usize::MAX - out@.len(),
    {
        match next_row(&mut rows_iter) {
            Ok(None) => {
                return Ok(out);
            },
            Ok(Some(row)) => {
                let cells = match collect_row(row, ncols) {
                    Ok(cells) => cells,
                    Err(e) => {
                        return Err(e);
                    },
                };
                if out.len() == usize::MAX {
                    // More rows than this platform can index: treat it as a
                    // failed row read rather than return a partial result.
                    return Err(SqlError::RowRead(String::from_str(
                        "result set has more rows than this platform can index",
                    )));
                }
                out.push(cells);
            },
            Err(e) => {
                return Err(SqlError::RowRead(error_text(&e)));
            },
        }
    }
}

} // verus!
