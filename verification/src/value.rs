//! The cell values of a query result.
//!
//! SQLite stores every cell under one of five storage classes: null,
//! integer, real, text and blob.  [`SqlValue`] mirrors those classes with
//! plain owned data.  A real is carried as the bit pattern of its 64-bit
//! IEEE 754 value, so that the contracts of this crate stay within integer
//! arithmetic; an embedding converts the bits back to a float at its edge.

use vstd::prelude::*;

verus! {

/// One cell of a query result, one variant per SQLite storage class.
#[derive(Debug, Clone, PartialEq, Eq)]
pub enum SqlValue {
    /// An SQL `NULL`.
    Null,
    /// A signed 64-bit integer.
    Int(i64),
    /// The bit pattern of a 64-bit IEEE 754 floating-point value.
    Real(u64),
    /// A text cell, decoded from the engine's bytes as UTF-8 with lossy
    /// substitution of invalid sequences.
    Text(String),
    /// A blob cell, the raw bytes copied out of the engine.
    Blob(Vec<u8>),
}

/// One cell as the engine hands it out, before text decoding: a text cell
/// still holds the engine's raw bytes.
#[derive(Debug, Clone, PartialEq, Eq)]
pub enum RawCell {
    Null,
    Int(i64),
    /// The bit pattern of a 64-bit IEEE 754 floating-point value.
    Real(u64),
    /// The undecoded bytes of a text cell.
    Text(Vec<u8>),
    Blob(Vec<u8>),
}

/// The mathematical model of one cell.
pub enum CellModel {
    Null,
    Int(int),
    Real(u64),
    Text(Seq<char>),
    Blob(Seq<u8>),
}

impl View for SqlValue {
    type V = CellModel;

    open spec fn view(&self) -> CellModel {
        match self {
            SqlValue::Null => CellModel::Null,
            SqlValue::Int(x) => CellModel::Int(*x as int),
            SqlValue::Real(b) => CellModel::Real(*b),
            SqlValue::Text(s) => CellModel::Text(s@),
            SqlValue::Blob(b) => CellModel::Blob(b@),
        }
    }
}

/// What `String::from_utf8_lossy` makes of a byte sequence.  The decoding
/// depends on the bytes alone, so it is only named here, never spelled out.
pub uninterp spec fn lossy_utf8(bytes: Seq<u8>) -> Seq<char>;

/// Relies on `String::from_utf8_lossy`: decodes the bytes as UTF-8,
/// replacing each invalid sequence with U+FFFD; the result is a function
/// of the bytes alone.
#[verifier::external_body]
fn utf8_lossy(bytes: &Vec<u8>) -> (r: String)
    ensures
        r@ == lossy_utf8(bytes@),
{
    String::from_utf8_lossy(bytes).into_owned()
}

impl RawCell {
    /// The model of the decoded form of this cell: identical to the cell
    /// itself except that a text cell's bytes are lossily decoded.
    pub open spec fn decoded(self) -> CellModel {
        match self {
            RawCell::Null => CellModel::Null,
            RawCell::Int(x) => CellModel::Int(x as int),
            RawCell::Real(b) => CellModel::Real(b),
            RawCell::Text(bytes) => CellModel::Text(lossy_utf8(bytes@)),
            RawCell::Blob(bytes) => CellModel::Blob(bytes@),
        }
    }
}

/// Decodes one raw cell into its final value: null, integer, real and blob
/// pass through unchanged, and a text cell's bytes are decoded as UTF-8
/// with lossy substitution.
pub fn decode_cell(cell: RawCell) -> (r: SqlValue)
    ensures
        r@ == cell.decoded(),
{
    match cell {
        RawCell::Null => SqlValue::Null,
        RawCell::Int(x) => SqlValue::Int(x),
        RawCell::Real(b) => SqlValue::Real(b),
        RawCell::Text(bytes) => SqlValue::Text(utf8_lossy(&bytes)),
        RawCell::Blob(bytes) => SqlValue::Blob(bytes),
    }
}

} // verus!
