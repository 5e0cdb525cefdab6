//! The reference storage backend, backed by SQLite.
//!
//! The backend persists into a single database file, created on first use.
//! Statements are built by [`crate::stmt`] with every value passed as a
//! bound parameter; returned cells are decoded against the caller's
//! declared column types, and a mismatch is an error, never a coercion.

use crate::database::{
    bytes_float, float_bytes, is_stored_form, spec_decode_cell, Condition, Database, Row, SqlValue,
    StoredValue, ValueType,
};
use crate::result::{Error, ErrorKind};
use crate::stmt::{build_insert, build_select, build_update};
use vstd::prelude::*;

verus! {

/// Connections to the backing database file are handled through rusqlite.
#[verifier::external_type_specification]
#[verifier::external_body]
pub struct ExConnection(rusqlite::Connection);

/// A bound parameter or returned cell of the backing database.
#[verifier::external_type_specification]
#[verifier::external_body]
pub struct ExValue(rusqlite::types::Value);

/// Relies on rusqlite::Connection::open: opens a connection to the SQLite
/// database file at `path`, creating the file on first use; fails when the
/// file cannot be opened or created.
#[verifier::external_body]
fn open_connection(path: &str) -> (r: Result<rusqlite::Connection, String>) {
    rusqlite::Connection::open(path).map_err(
        |e| format!("Failed to create SQLite database connection: {e:?}"),
    )
}

/// Relies on rusqlite::types::Value: carries one parameter into the storage
/// class its stored form names; a bit pattern read back out of a genuine
/// floating-point cell is bound again in the backend's persisted form, the
/// little-endian blob of the pattern.
#[verifier::external_body]
fn value_param(v: &StoredValue) -> (r: rusqlite::types::Value) {
    match v {
        StoredValue::Null => rusqlite::types::Value::Null,
        StoredValue::Integer(i) => rusqlite::types::Value::Integer(*i),
        StoredValue::Real(bits) => rusqlite::types::Value::Blob(bits.to_le_bytes().to_vec()),
        StoredValue::Text(s) => rusqlite::types::Value::Text(s.clone()),
        StoredValue::Blob(b) => rusqlite::types::Value::Blob(b.clone()),
    }
}

/// Relies on rusqlite::types::Value: reads the storage class of one
/// returned cell; a native floating-point number is carried out as its
/// IEEE 754 bit pattern.
#[verifier::external_body]
fn stored_of(v: rusqlite::types::Value) -> (r: StoredValue) {
    match v {
        rusqlite::types::Value::Null => StoredValue::Null,
        rusqlite::types::Value::Integer(i) => StoredValue::Integer(i),
        rusqlite::types::Value::Real(f) => StoredValue::Real(f.to_bits()),
        rusqlite::types::Value::Text(s) => StoredValue::Text(s),
        rusqlite::types::Value::Blob(b) => StoredValue::Blob(b),
    }
}

/// Relies on rusqlite::Connection::prepare and rusqlite::Statement::execute:
/// runs one write statement with the parameters bound positionally.
#[verifier::external_body]
fn execute_stmt(conn: &rusqlite::Connection, sql: &str, params: &Vec<rusqlite::types::Value>) -> (r:
    Result<usize, String>) {
    let stmt = conn.prepare(sql);
    let mut stmt = match stmt {
        Ok(s) => s,
        Err(e) => return Err(format!("Failed to prepare Statement '{sql}': {e:?}")),
    };
    stmt.execute(rusqlite::params_from_iter(params.iter())).map_err(
        |e| format!("Failed to execute SQLite statement: {e:?}"),
    )
}

/// Relies on rusqlite::Connection::prepare, rusqlite::Statement::query and
/// rusqlite::Row::get: runs one read statement with the parameters bound
/// positionally and hands back each returned row's first `width` cells, so
/// every row of the result holds exactly `width` cells.
#[verifier::external_body]
fn query_stmt(
    conn: &rusqlite::Connection,
    sql: &str,
    params: &Vec<rusqlite::types::Value>,
    width: usize,
) -> (r: Result<Vec<Vec<StoredValue>>, String>)
    ensures
        r matches Ok(rows) ==> forall|i: int|
            0 <= i < rows@.len() ==> (#[trigger] rows@[i])@.len() == width,
{
    let mut stmt = conn.prepare(sql).map_err(|e| format!("Failed to prepare Statement '{sql}': {e:?}"))?;
    let mut rows = stmt.query(rusqlite::params_from_iter(params.iter())).map_err(|e| format!("Failed to query SQLite database: {e:?}"))?;
    let mut out: Vec<Vec<StoredValue>> = Vec::new();
    while let Ok(Some(row)) = rows.next() {
        let mut cells: Vec<StoredValue> = Vec::new();
        for i in 0..width {
            let v = row.get::<usize, rusqlite::types::Value>(i).map_err(|e| format!("Unable to select column {i} from returned row: {e:?}"))?;
            cells.push(stored_of(v));
        }
        out.push(cells);
    }
    Ok(out)
}

/// The stored form a value reaches the database in when bound.
fn param_form(v: &SqlValue) -> (r: StoredValue)
    ensures
        is_stored_form(*v, r),
{
    match v {
        SqlValue::Text(s) => StoredValue::Text(s.clone()),
        SqlValue::Long(i) => StoredValue::Integer(*i),
        SqlValue::Float(bits) => StoredValue::Blob(float_bytes(*bits)),
        SqlValue::Boolean(b) => StoredValue::Integer(
            if *b {
                1
            } else {
                0
            },
        ),
    }
}

/// The stored forms of the condition values, in condition order, appended
/// after any assigned values already gathered.
fn push_condition_params(stored: &mut Vec<StoredValue>, conditions: &Vec<Condition>)
    ensures
        final(stored)@.len() == old(stored)@.len() + conditions@.len(),
        forall|k: int|
            0 <= k < old(stored)@.len() ==> final(stored)@[k] == old(stored)@[k],
        forall|k: int|
            0 <= k < conditions@.len() ==> is_stored_form(
                (#[trigger] conditions@[k]).2,
                final(stored)@[old(stored)@.len() + k],
            ),
{
    let ghost base = stored@.len();
    let mut j: usize = 0;
    while j < conditions.len()
        invariant
            j <= conditions@.len(),
            stored@.len() == base + j,
            forall|k: int| 0 <= k < base ==> stored@[k] == old(stored)@[k],
            forall|k: int|
                0 <= k < j ==> is_stored_form(
                    (#[trigger] conditions@[k]).2,
                    stored@[base + k],
                ),
        decreases conditions@.len() - j,
    {
        stored.push(param_form(&conditions[j].2));
        j = j + 1;
    }
}

/// The stored forms of the assigned values, in assignment order.
fn assignment_params(cols: &Vec<(String, SqlValue)>) -> (r: Vec<StoredValue>)
    ensures
        r@.len() == cols@.len(),
        forall|k: int|
            0 <= k < cols@.len() ==> is_stored_form((#[trigger] cols@[k]).1, r@[k]),
{
    let mut r: Vec<StoredValue> = Vec::new();
    let mut j: usize = 0;
    while j < cols.len()
        invariant
            j <= cols@.len(),
            r@.len() == j,
            forall|k: int|
                0 <= k < j ==> is_stored_form((#[trigger] cols@[k]).1, r@[k]),
        decreases cols@.len() - j,
    {
        r.push(param_form(&cols[j].1));
        j = j + 1;
    }
    r
}

/// The backing database's own form of each gathered parameter.
fn raw_params(stored: &Vec<StoredValue>) -> (r: Vec<rusqlite::types::Value>)
    ensures
        r@.len() == stored@.len(),
{
    let mut r: Vec<rusqlite::types::Value> = Vec::new();
    let mut j: usize = 0;
    while j < stored.len()
        invariant
            j <= stored@.len(),
            r@.len() == j,
        decreases stored@.len() - j,
    {
        r.push(value_param(&stored[j]));
        j = j + 1;
    }
    r
}

/// The message of a decode-mismatch error, naming the offending column.
pub open spec fn spec_mismatch_message(name: Seq<char>) -> Seq<char> {
    "Unable to select column '"@ + name + "' from returned row"@
}

/// Build the message of a decode-mismatch error.
fn mismatch_message(name: &String) -> (r: String)
    ensures
        r@ == spec_mismatch_message(name@),
{
    let mut r = String::new();
    r.append("Unable to select column '");
    r.append(name.as_str());
    r.append("' from returned row");
    r
}

/// Decode one stored cell against its declared type.
fn decode_cell(c: &StoredValue, t: ValueType) -> (r: Option<SqlValue>)
    ensures
        r == spec_decode_cell(*c, t),
{
    match (c, t) {
        (StoredValue::Text(s), ValueType::Text) => Some(SqlValue::Text(s.clone())),
        (StoredValue::Integer(i), ValueType::Long) => Some(SqlValue::Long(*i)),
        (StoredValue::Real(bits), ValueType::Float) => Some(SqlValue::Float(*bits)),
        (StoredValue::Blob(b), ValueType::Float) => if b.len() == 8 {
            Some(SqlValue::Float(bytes_float(b)))
        } else {
            None
        },
        (StoredValue::Integer(i), ValueType::Boolean) => Some(SqlValue::Boolean(*i != 0)),
        _ => None,
    }
}

/// Decode one returned row against the declared projection. Fails, naming
/// the first offending column, exactly when some cell's storage class does
/// not match its declared type.
pub fn decode_row(cells: &Vec<StoredValue>, cols: &Vec<(String, ValueType)>) -> (r: Result<Row, Error>)
    requires
        cells@.len() == cols@.len(),
    ensures
        r matches Ok(row) ==> {
            &&& row@.len() == cols@.len()
            &&& forall|j: int|
                0 <= j < cols@.len() ==> Some((#[trigger] row@[j]).1) == spec_decode_cell(
                    cells@[j],
                    cols@[j].1,
                ) && row@[j].0 == cols@[j].0
        },
        r is Err <==> exists|j: int|
            0 <= j < cols@.len() && spec_decode_cell(cells@[j], (#[trigger] cols@[j]).1) is None,
        r matches Err(e) ==> {
            &&& e.kind is Database
            &&& exists|j: int|
                {
                    &&& 0 <= j < cols@.len()
                    &&& spec_decode_cell(cells@[j], (#[trigger] cols@[j]).1) is None
                    &&& e.message@ == spec_mismatch_message(cols@[j].0@)
                    &&& forall|k: int|
                        0 <= k < j ==> spec_decode_cell(cells@[k], (#[trigger] cols@[k]).1)
                            is Some
                }
        },
{
    let mut row: Row = Vec::new();
    let mut j: usize = 0;
    while j < cols.len()
        invariant
            cells@.len() == cols@.len(),
            j <= cols@.len(),
            row@.len() == j,
            forall|k: int|
                0 <= k < j ==> Some((#[trigger] row@[k]).1) == spec_decode_cell(
                    cells@[k],
                    cols@[k].1,
                ) && row@[k].0 == cols@[k].0,
        decreases cols@.len() - j,
    {
        match decode_cell(&cells[j], cols[j].1) {
            Some(v) => {
                row.push((cols[j].0.clone(), v));
            },
            None => {
                let e = Error::new(ErrorKind::Database, mismatch_message(&cols[j].0));
                proof {
                    let jj = j as int;
                    assert forall|k: int| 0 <= k < jj implies spec_decode_cell(
                        cells@[k],
                        (#[trigger] cols@[k]).1,
                    ) is Some by {
                        assert(Some(row@[k].1) == spec_decode_cell(cells@[k], cols@[k].1));
                    }
                    assert({
                        &&& 0 <= jj < cols@.len()
                        &&& spec_decode_cell(cells@[jj], cols@[jj].1) is None
                        &&& e.message@ == spec_mismatch_message(cols@[jj].0@)
                    });
                }
                return Err(e);
            },
        }
        j = j + 1;
    }
    proof {
        assert forall|k: int| 0 <= k < cols@.len() implies spec_decode_cell(
            cells@[k],
            (#[trigger] cols@[k]).1,
        ) is Some by {
            assert(Some(row@[k].1) == spec_decode_cell(cells@[k], cols@[k].1));
        }
    }
    Ok(row)
}

/// Decode every returned row against the declared projection. Fails exactly
/// when some cell of some row does not match its declared type.
pub fn decode_rows(raw: &Vec<Vec<StoredValue>>, cols: &Vec<(String, ValueType)>) -> (r: Result<
    Vec<Row>,
    Error,
>)
    requires
        forall|i: int| 0 <= i < raw@.len() ==> (#[trigger] raw@[i])@.len() == cols@.len(),
    ensures
        r matches Ok(rows) ==> {
            &&& rows@.len() == raw@.len()
            &&& crate::database::rows_match_projection(rows@, cols@)
            &&& forall|i: int, j: int|
                0 <= i < raw@.len() && 0 <= j < cols@.len() ==> Some(
                    #[trigger] rows@[i]@[j].1,
                ) == spec_decode_cell(raw@[i]@[j], cols@[j].1)
        },
        r is Err <==> exists|i: int, j: int|
            0 <= i < raw@.len() && 0 <= j < cols@.len() && spec_decode_cell(
                #[trigger] raw@[i]@[j],
                cols@[j].1,
            ) is None,
        r matches Err(e) ==> e.kind is Database,
{
    let mut rows: Vec<Row> = Vec::new();
    let mut i: usize = 0;
    while i < raw.len()
        invariant
            forall|k: int| 0 <= k < raw@.len() ==> (#[trigger] raw@[k])@.len() == cols@.len(),
            i <= raw@.len(),
            rows@.len() == i,
            forall|k: int, j: int|
                0 <= k < i && 0 <= j < cols@.len() ==> Some(#[trigger] rows@[k]@[j].1)
                    == spec_decode_cell(raw@[k]@[j], cols@[j].1),
            forall|k: int, j: int|
                0 <= k < i && 0 <= j < cols@.len() ==> (#[trigger] rows@[k]@[j]).0 == cols@[j].0,
            forall|k: int| 0 <= k < i ==> (#[trigger] rows@[k])@.len() == cols@.len(),
        decreases raw@.len() - i,
    {
        match decode_row(&raw[i], cols) {
            Ok(row) => {
                rows.push(row);
            },
            Err(e) => {
                proof {
                    let ii = i as int;
                    let jj = choose|j: int|
                        0 <= j < cols@.len() && spec_decode_cell(
                            raw@[ii]@[j],
                            (#[trigger] cols@[j]).1,
                        ) is None;
                    assert(0 <= ii < raw@.len() && 0 <= jj < cols@.len() && spec_decode_cell(
                        raw@[ii]@[jj],
                        cols@[jj].1,
                    ) is None);
                }
                return Err(e);
            },
        }
        i = i + 1;
    }
    proof {
        assert forall|ii: int, jj: int|
            0 <= ii < raw@.len() && 0 <= jj < cols@.len() implies spec_decode_cell(
            #[trigger] raw@[ii]@[jj],
            cols@[jj].1,
        ) is Some by {
            assert(Some(rows@[ii]@[jj].1) == spec_decode_cell(raw@[ii]@[jj], cols@[jj].1));
        }
    }
    Ok(rows)
}

/// The reference database backend; persists into a single SQLite file.
#[derive(Debug)]
pub struct DefaultDatabase {
    /// Path of the backing database file.
    pub path: String,
}

impl DefaultDatabase {
    /// Create a backend over the host's default data file, inside the
    /// host's data folder.
    pub fn new() -> (d: DefaultDatabase)
        ensures
            d.path@ == "/var/encoaster/"@ + "data.db3"@,
    {
        let mut path = crate::server::Server::get_data_folder();
        path.append("data.db3");
        DefaultDatabase { path }
    }

    /// Create a backend whose backing file lives at the given path.
    pub fn at_path(path: String) -> (d: DefaultDatabase)
        ensures
            d.path == path,
    {
        DefaultDatabase { path }
    }

    /// Open a connection to the backing database file.
    fn get_conn(&self) -> (r: Result<rusqlite::Connection, Error>)
        ensures
            r matches Err(e) ==> e.kind is Database,
    {
        match open_connection(self.path.as_str()) {
            Ok(c) => Ok(c),
            Err(detail) => Err(Error::new(ErrorKind::Database, detail)),
        }
    }
}

impl Database for DefaultDatabase {
    fn query(
        &self,
        table: &str,
        cols: &Vec<(String, ValueType)>,
        conditions: &Vec<Condition>,
    ) -> (r: Result<Vec<Row>, Error>) {
        let conn = match self.get_conn() {
            Ok(c) => c,
            Err(e) => {
                return Err(e);
            },
        };
        let stmt = build_select(table, cols, conditions);
        let mut stored: Vec<StoredValue> = Vec::new();
        push_condition_params(&mut stored, conditions);
        let params = raw_params(&stored);
        let raw = match query_stmt(&conn, stmt.as_str(), &params, cols.len()) {
            Ok(rows) => rows,
            Err(detail) => {
                return Err(Error::new(ErrorKind::Database, detail));
            },
        };
        decode_rows(&raw, cols)
    }

    fn insert(&self, table: &str, cols: &Vec<(String, SqlValue)>) -> (r: Result<(), Error>) {
        let conn = match self.get_conn() {
            Ok(c) => c,
            Err(e) => {
                return Err(e);
            },
        };
        let stmt = build_insert(table, cols);
        let stored = assignment_params(cols);
        let params = raw_params(&stored);
        match execute_stmt(&conn, stmt.as_str(), &params) {
            Ok(_) => Ok(()),
            Err(detail) => Err(Error::new(ErrorKind::Database, detail)),
        }
    }

    fn update(
        &self,
        table: &str,
        cols: &Vec<(String, SqlValue)>,
        conditions: &Vec<Condition>,
    ) -> (r: Result<(), Error>) {
        let conn = match self.get_conn() {
            Ok(c) => c,
            Err(e) => {
                return Err(e);
            },
        };
        let stmt = build_update(table, cols, conditions);
        let mut stored = assignment_params(cols);
        push_condition_params(&mut stored, conditions);
        let params = raw_params(&stored);
        match execute_stmt(&conn, stmt.as_str(), &params) {
            Ok(_) => Ok(()),
            Err(detail) => Err(Error::new(ErrorKind::Database, detail)),
        }
    }
}

} // verus!
