//! The value model and the storage capability contract.
//!
//! A [`SqlValue`] carries typed data across the storage boundary, both as a
//! bound query parameter and as a decoded result cell. A [`ValueType`]
//! declares the expected type of a column before a row is materialized:
//! result decoding is type-directed, never inferred from storage.

use crate::result::Error;
use vstd::prelude::*;

verus! {

/// A column value.
///
/// Floating-point values are carried as their IEEE 754 bit pattern, so that
/// the host's value model compares exactly; the reference backend converts
/// to and from the native representation at its own boundary.
#[derive(Debug, Clone, PartialEq)]
pub enum SqlValue {
    /// Text value.
    Text(String),
    /// 64-bit signed integer value.
    Long(i64),
    /// Floating point value, as the bit pattern of a 64-bit IEEE 754 number.
    Float(u64),
    /// Boolean value.
    Boolean(bool),
}

/// A column's declared type, mirroring the variants of [`SqlValue`].
#[derive(Debug, Clone, Copy, PartialEq, Eq, Structural)]
pub enum ValueType {
    /// Text value (`String`).
    Text,
    /// 64-bit signed integer value (`i64`).
    Long,
    /// Floating point value (bit pattern of a 64-bit IEEE 754 number).
    Float,
    /// Boolean value (`bool`).
    Boolean,
}

/// A value in one of SQLite's storage classes, as stored in or returned by
/// the backing database file.
///
/// `Real` carries the bit pattern of the 64-bit IEEE 754 number. The
/// reference backend persists a [`SqlValue::Float`] as an 8-byte
/// little-endian blob of its bit pattern, so that the value model stays
/// exact; a genuine floating-point cell written by another tool is read
/// back as `Real`.
#[derive(Debug, Clone, PartialEq)]
pub enum StoredValue {
    /// The SQL `NULL` value.
    Null,
    /// A signed integer.
    Integer(i64),
    /// A floating point number, as its IEEE 754 bit pattern.
    Real(u64),
    /// A text string.
    Text(String),
    /// A blob of bytes.
    Blob(Vec<u8>),
}

/// A condition on one column: the column's name, a flag saying whether the
/// condition combines with the previous one via `AND` (`true`) or `OR`
/// (`false`), and the value the column is compared with. The first
/// condition's flag is ignored.
pub type Condition = (String, bool, SqlValue);

/// One result row: each requested column's name paired with its decoded
/// value, in projection order.
pub type Row = Vec<(String, SqlValue)>;

/// Whether a value is of the given declared type.
pub open spec fn value_matches_type(v: SqlValue, t: ValueType) -> bool {
    match (v, t) {
        (SqlValue::Text(_), ValueType::Text) => true,
        (SqlValue::Long(_), ValueType::Long) => true,
        (SqlValue::Float(_), ValueType::Float) => true,
        (SqlValue::Boolean(_), ValueType::Boolean) => true,
        _ => false,
    }
}

/// The little-endian bytes of a 64-bit bit pattern.
pub open spec fn spec_float_bytes(bits: u64) -> Seq<u8> {
    seq![
        (bits & 0xff) as u8,
        ((bits >> 8) & 0xff) as u8,
        ((bits >> 16) & 0xff) as u8,
        ((bits >> 24) & 0xff) as u8,
        ((bits >> 32) & 0xff) as u8,
        ((bits >> 40) & 0xff) as u8,
        ((bits >> 48) & 0xff) as u8,
        ((bits >> 56) & 0xff) as u8,
    ]
}

/// The 64-bit bit pattern read back from its little-endian bytes.
pub open spec fn spec_bytes_float(b: Seq<u8>) -> u64
    recommends
        b.len() == 8,
{
    ((b[0] as u64) | ((b[1] as u64) << 8) | ((b[2] as u64) << 16) | ((b[3] as u64) << 24) | ((
    b[4] as u64) << 32) | ((b[5] as u64) << 40) | ((b[6] as u64) << 48) | ((b[7] as u64)
        << 56)) as u64
}

/// A bit pattern survives the trip through its little-endian bytes.
pub proof fn lemma_float_bytes_round_trip(bits: u64)
    ensures
        spec_bytes_float(spec_float_bytes(bits)) == bits,
{
    assert((((bits & 0xff) as u8) as u64) | (((((bits >> 8) & 0xff) as u8) as u64) << 8) | (((((
    bits >> 16) & 0xff) as u8) as u64) << 16) | (((((bits >> 24) & 0xff) as u8) as u64) << 24) | ((
    (((bits >> 32) & 0xff) as u8) as u64) << 32) | (((((bits >> 40) & 0xff) as u8) as u64) << 40)
        | (((((bits >> 48) & 0xff) as u8) as u64) << 48) | (((((bits >> 56) & 0xff) as u8) as u64)
        << 56) == bits) by (bit_vector);
}

/// The storage class a value reaches the database in when bound as a
/// parameter: text as text, integers as integers, booleans as the integers
/// `1` and `0`, and floats as the 8-byte little-endian blob of their bit
/// pattern.
pub open spec fn is_stored_form(v: SqlValue, c: StoredValue) -> bool {
    match (v, c) {
        (SqlValue::Text(s), StoredValue::Text(t)) => s == t,
        (SqlValue::Long(i), StoredValue::Integer(j)) => i == j,
        (SqlValue::Float(bits), StoredValue::Blob(b)) => b@ == spec_float_bytes(bits),
        (SqlValue::Boolean(x), StoredValue::Integer(j)) => j == if x {
            1int
        } else {
            0int
        },
        _ => false,
    }
}

/// Type-directed decoding of one stored cell against its declared type.
/// A mismatch between the storage class and the declared type decodes to
/// `None`; it is never coerced. Booleans are stored as integers, so an
/// integer cell decodes under a `Boolean` declaration to "is non-zero";
/// floats decode from their 8-byte bit-pattern blob, or from a genuine
/// floating-point cell by its bit pattern.
pub open spec fn spec_decode_cell(c: StoredValue, t: ValueType) -> Option<SqlValue> {
    match (c, t) {
        (StoredValue::Text(s), ValueType::Text) => Some(SqlValue::Text(s)),
        (StoredValue::Integer(i), ValueType::Long) => Some(SqlValue::Long(i)),
        (StoredValue::Real(bits), ValueType::Float) => Some(SqlValue::Float(bits)),
        (StoredValue::Blob(b), ValueType::Float) => if b@.len() == 8 {
            Some(SqlValue::Float(spec_bytes_float(b@)))
        } else {
            None
        },
        (StoredValue::Integer(i), ValueType::Boolean) => Some(SqlValue::Boolean(i != 0)),
        _ => None,
    }
}

/// The little-endian bytes of a 64-bit bit pattern.
pub(crate) fn float_bytes(bits: u64) -> (r: Vec<u8>)
    ensures
        r@ == spec_float_bytes(bits),
{
    proof {
        assert(bits & 0xff <= 0xff) by (bit_vector);
        assert((bits >> 8) & 0xff <= 0xff) by (bit_vector);
        assert((bits >> 16) & 0xff <= 0xff) by (bit_vector);
        assert((bits >> 24) & 0xff <= 0xff) by (bit_vector);
        assert((bits >> 32) & 0xff <= 0xff) by (bit_vector);
        assert((bits >> 40) & 0xff <= 0xff) by (bit_vector);
        assert((bits >> 48) & 0xff <= 0xff) by (bit_vector);
        assert((bits >> 56) & 0xff <= 0xff) by (bit_vector);
    }
    let mut r: Vec<u8> = Vec::new();
    r.push((bits & 0xff) as u8);
    r.push(((bits >> 8) & 0xff) as u8);
    r.push(((bits >> 16) & 0xff) as u8);
    r.push(((bits >> 24) & 0xff) as u8);
    r.push(((bits >> 32) & 0xff) as u8);
    r.push(((bits >> 40) & 0xff) as u8);
    r.push(((bits >> 48) & 0xff) as u8);
    r.push(((bits >> 56) & 0xff) as u8);
    proof {
        assert(r@ =~= spec_float_bytes(bits));
    }
    r
}

/// The 64-bit bit pattern read back from its little-endian bytes.
pub(crate) fn bytes_float(b: &Vec<u8>) -> (r: u64)
    requires
        b@.len() == 8,
    ensures
        r == spec_bytes_float(b@),
{
    (b[0] as u64) | ((b[1] as u64) << 8u64) | ((b[2] as u64) << 16u64) | ((b[3] as u64) << 24u64)
        | ((b[4] as u64) << 32u64) | ((b[5] as u64) << 40u64) | ((b[6] as u64) << 48u64) | ((
    b[7] as u64) << 56u64)
}

/// A decoded row agrees with the requested projection: one cell per
/// requested column, under that column's name, with a value of the declared
/// type.
pub open spec fn row_matches_projection(
    row: Seq<(String, SqlValue)>,
    cols: Seq<(String, ValueType)>,
) -> bool {
    &&& row.len() == cols.len()
    &&& forall|j: int|
        0 <= j < cols.len() ==> (#[trigger] row[j]).0@ == cols[j].0@ && value_matches_type(
            row[j].1,
            cols[j].1,
        )
}

/// Every returned row agrees with the requested projection.
pub open spec fn rows_match_projection(
    rows: Seq<Row>,
    cols: Seq<(String, ValueType)>,
) -> bool {
    forall|i: int| 0 <= i < rows.len() ==> row_matches_projection((#[trigger] rows[i])@, cols)
}

/// Inserting a value and decoding it back under its own declared type
/// returns the value unchanged: text equal as strings, integers, floats and
/// booleans equal by value.
pub proof fn lemma_stored_round_trip(v: SqlValue, t: ValueType, c: StoredValue)
    requires
        value_matches_type(v, t),
        is_stored_form(v, c),
    ensures
        spec_decode_cell(c, t) == Some(v),
{
    match v {
        SqlValue::Float(bits) => {
            lemma_float_bytes_round_trip(bits);
        },
        _ => {},
    }
}

/// The storage capability contract: the polymorphic interface a backend
/// must implement. Implementations must be usable from multiple threads
/// concurrently. All three operations are synchronous and may block on
/// backend I/O; all may fail with a `Database` error when the backend
/// cannot establish or use its connection, or when an operation fails.
pub trait Database: Send + Sync {
    /// Query the rows matched by `conditions` under the left-to-right
    /// `AND`/`OR` chain, restricted to the projection `cols`. Each returned
    /// value is decoded according to the paired [`ValueType`]; a decode
    /// mismatch is an error, not a silent coercion.
    fn query(
        &self,
        table: &str,
        cols: &Vec<(String, ValueType)>,
        conditions: &Vec<Condition>,
    ) -> (r: Result<Vec<Row>, Error>)
        ensures
            r matches Ok(rows) ==> rows_match_projection(rows@, cols@),
            r matches Err(e) ==> e.kind is Database,
    ;

    /// Append one row, assigning each named column its paired value.
    fn insert(&self, table: &str, cols: &Vec<(String, SqlValue)>) -> (r: Result<(), Error>)
        ensures
            r matches Err(e) ==> e.kind is Database,
    ;

    /// Update the rows selected by `conditions` (same chain semantics as
    /// `query`), assigning each named column its paired value.
    fn update(
        &self,
        table: &str,
        cols: &Vec<(String, SqlValue)>,
        conditions: &Vec<Condition>,
    ) -> (r: Result<(), Error>)
        ensures
            r matches Err(e) ==> e.kind is Database,
    ;
}

impl From<String> for SqlValue {
    /// Construct a text value from a native string.
    fn from(a: String) -> (r: SqlValue) {
        SqlValue::Text(a)
    }
}

impl vstd::std_specs::convert::FromSpecImpl<String> for SqlValue {
    open spec fn obeys_from_spec() -> bool {
        true
    }

    open spec fn from_spec(v: String) -> SqlValue {
        SqlValue::Text(v)
    }
}

impl From<i64> for SqlValue {
    /// Construct an integer value from a native integer.
    fn from(a: i64) -> (r: SqlValue) {
        SqlValue::Long(a)
    }
}

impl vstd::std_specs::convert::FromSpecImpl<i64> for SqlValue {
    open spec fn obeys_from_spec() -> bool {
        true
    }

    open spec fn from_spec(v: i64) -> SqlValue {
        SqlValue::Long(v)
    }
}

impl From<bool> for SqlValue {
    /// Construct a boolean value from a native boolean.
    fn from(a: bool) -> (r: SqlValue) {
        SqlValue::Boolean(a)
    }
}

impl vstd::std_specs::convert::FromSpecImpl<bool> for SqlValue {
    open spec fn obeys_from_spec() -> bool {
        true
    }

    open spec fn from_spec(v: bool) -> SqlValue {
        SqlValue::Boolean(v)
    }
}

} // verus!
