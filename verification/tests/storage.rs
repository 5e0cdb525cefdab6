//! The value model, statement construction, and the reference backend
//! against a real database file.

use encoaster::{
    build_insert, build_select, build_update, decode_row, Condition, Database, DefaultDatabase,
    Error, ErrorKind, SqlValue, StoredValue, ValueType,
};

fn scratch_db(name: &str) -> (tempfile::TempDir, String) {
    let dir = tempfile::tempdir().unwrap();
    let path = dir.path().join(name).to_str().unwrap().to_string();
    (dir, path)
}

fn make_table(path: &str, ddl: &str) {
    let conn = rusqlite::Connection::open(path).unwrap();
    conn.execute(ddl, []).unwrap();
}

#[test]
fn select_statement_shape() {
    let cols = vec![("name".to_string(), ValueType::Text), ("age".to_string(), ValueType::Long)];
    let conds: Vec<Condition> = Vec::new();
    assert_eq!(build_select("people", &cols, &conds), "SELECT name,age FROM people");
}

#[test]
fn condition_chain_is_left_to_right() {
    let cols = vec![("a".to_string(), ValueType::Long)];
    let conds = vec![
        ("x".to_string(), false, SqlValue::Long(1)),
        ("y".to_string(), true, SqlValue::Long(2)),
        ("z".to_string(), false, SqlValue::Long(3)),
    ];
    assert_eq!(
        build_select("t", &cols, &conds),
        "SELECT a FROM t WHERE x = ? AND y = ? OR z = ?"
    );
}

#[test]
fn single_condition_has_bare_filter() {
    let cols = vec![("a".to_string(), ValueType::Long)];
    let conds = vec![("x".to_string(), true, SqlValue::Long(1))];
    assert_eq!(build_select("t", &cols, &conds), "SELECT a FROM t WHERE x = ?");
}

#[test]
fn insert_statement_shape() {
    let cols = vec![
        ("a".to_string(), SqlValue::Long(1)),
        ("b".to_string(), SqlValue::Boolean(true)),
    ];
    assert_eq!(build_insert("t", &cols), "INSERT INTO t (a,b) VALUES (?,?)");
}

#[test]
fn update_statement_shape() {
    let cols = vec![
        ("a".to_string(), SqlValue::Long(1)),
        ("b".to_string(), SqlValue::Text("x".to_string())),
    ];
    let conds = vec![
        ("id".to_string(), true, SqlValue::Long(7)),
        ("live".to_string(), false, SqlValue::Boolean(true)),
    ];
    assert_eq!(
        build_update("t", &cols, &conds),
        "UPDATE t SET a = ?, b = ? WHERE id = ? OR live = ?"
    );
}

#[test]
fn value_from_natives() {
    assert_eq!(SqlValue::from("x".to_string()), SqlValue::Text("x".to_string()));
    assert_eq!(SqlValue::from(3i64), SqlValue::Long(3));
    assert_eq!(SqlValue::from(true), SqlValue::Boolean(true));
}

#[test]
fn error_new_keeps_kind_and_message() {
    let e = Error::new(ErrorKind::LockError, "locked".to_string());
    assert!(matches!(e.kind, ErrorKind::LockError));
    assert_eq!(e.message, "locked");
}

#[test]
fn insert_query_round_trip() {
    let (_dir, path) = scratch_db("rt.db3");
    make_table(&path, "CREATE TABLE t (a, b, c, d)");

    let db = DefaultDatabase::at_path(path);
    let half = 0.5f64;
    let row = vec![
        ("a".to_string(), SqlValue::Text("hello".to_string())),
        ("b".to_string(), SqlValue::Long(-42)),
        ("c".to_string(), SqlValue::Float(half.to_bits())),
        ("d".to_string(), SqlValue::Boolean(true)),
    ];
    db.insert("t", &row).unwrap();

    let cols = vec![
        ("a".to_string(), ValueType::Text),
        ("b".to_string(), ValueType::Long),
        ("c".to_string(), ValueType::Float),
        ("d".to_string(), ValueType::Boolean),
    ];
    let conds: Vec<Condition> = Vec::new();
    let rows = db.query("t", &cols, &conds).unwrap();
    assert_eq!(rows.len(), 1);
    assert_eq!(rows[0][0], ("a".to_string(), SqlValue::Text("hello".to_string())));
    assert_eq!(rows[0][1], ("b".to_string(), SqlValue::Long(-42)));
    assert_eq!(rows[0][2], ("c".to_string(), SqlValue::Float(half.to_bits())));
    assert_eq!(rows[0][3], ("d".to_string(), SqlValue::Boolean(true)));
}

#[test]
fn boolean_false_round_trip() {
    let (_dir, path) = scratch_db("bf.db3");
    make_table(&path, "CREATE TABLE t (d)");
    let db = DefaultDatabase::at_path(path);
    db.insert("t", &vec![("d".to_string(), SqlValue::Boolean(false))]).unwrap();
    let cols = vec![("d".to_string(), ValueType::Boolean)];
    let conds: Vec<Condition> = Vec::new();
    let rows = db.query("t", &cols, &conds).unwrap();
    assert_eq!(rows[0][0].1, SqlValue::Boolean(false));
}

#[test]
fn decode_mismatch_is_database_error() {
    let (_dir, path) = scratch_db("mm.db3");
    make_table(&path, "CREATE TABLE t (a)");
    let db = DefaultDatabase::at_path(path);
    db.insert("t", &vec![("a".to_string(), SqlValue::Text("oops".to_string()))]).unwrap();

    let cols = vec![("a".to_string(), ValueType::Long)];
    let conds: Vec<Condition> = Vec::new();
    let e = db.query("t", &cols, &conds).unwrap_err();
    assert!(matches!(e.kind, ErrorKind::Database));
    assert!(e.message.contains("'a'"));
}

#[test]
fn null_cell_never_coerces() {
    let (_dir, path) = scratch_db("nn.db3");
    make_table(&path, "CREATE TABLE t (a)");
    let conn = rusqlite::Connection::open(&path).unwrap();
    conn.execute("INSERT INTO t (a) VALUES (NULL)", []).unwrap();
    drop(conn);

    let db = DefaultDatabase::at_path(path);
    let cols = vec![("a".to_string(), ValueType::Text)];
    let conds: Vec<Condition> = Vec::new();
    let e = db.query("t", &cols, &conds).unwrap_err();
    assert!(matches!(e.kind, ErrorKind::Database));
}

#[test]
fn genuine_float_cell_reads_by_bit_pattern() {
    let (_dir, path) = scratch_db("fl.db3");
    make_table(&path, "CREATE TABLE t (x)");
    let conn = rusqlite::Connection::open(&path).unwrap();
    conn.execute("INSERT INTO t (x) VALUES (2.5)", []).unwrap();
    drop(conn);

    let db = DefaultDatabase::at_path(path);
    let cols = vec![("x".to_string(), ValueType::Float)];
    let conds: Vec<Condition> = Vec::new();
    let rows = db.query("t", &cols, &conds).unwrap();
    assert_eq!(rows[0][0].1, SqlValue::Float((2.5f64).to_bits()));
}

#[test]
fn query_conditions_filter_rows() {
    let (_dir, path) = scratch_db("qc.db3");
    make_table(&path, "CREATE TABLE t (k, v)");
    let db = DefaultDatabase::at_path(path);
    db.insert(
        "t",
        &vec![
            ("k".to_string(), SqlValue::Text("one".to_string())),
            ("v".to_string(), SqlValue::Long(1)),
        ],
    )
    .unwrap();
    db.insert(
        "t",
        &vec![
            ("k".to_string(), SqlValue::Text("two".to_string())),
            ("v".to_string(), SqlValue::Long(2)),
        ],
    )
    .unwrap();

    let cols = vec![("v".to_string(), ValueType::Long)];
    let conds = vec![("k".to_string(), true, SqlValue::Text("two".to_string()))];
    let rows = db.query("t", &cols, &conds).unwrap();
    assert_eq!(rows.len(), 1);
    assert_eq!(rows[0][0].1, SqlValue::Long(2));
}

#[test]
fn update_rewrites_selected_rows() {
    let (_dir, path) = scratch_db("up.db3");
    make_table(&path, "CREATE TABLE t (k, v)");
    let db = DefaultDatabase::at_path(path);
    db.insert(
        "t",
        &vec![
            ("k".to_string(), SqlValue::Text("one".to_string())),
            ("v".to_string(), SqlValue::Long(1)),
        ],
    )
    .unwrap();
    db.insert(
        "t",
        &vec![
            ("k".to_string(), SqlValue::Text("two".to_string())),
            ("v".to_string(), SqlValue::Long(2)),
        ],
    )
    .unwrap();

    db.update(
        "t",
        &vec![("v".to_string(), SqlValue::Long(10))],
        &vec![("k".to_string(), true, SqlValue::Text("one".to_string()))],
    )
    .unwrap();

    let cols = vec![("v".to_string(), ValueType::Long)];
    let one = vec![("k".to_string(), true, SqlValue::Text("one".to_string()))];
    let two = vec![("k".to_string(), true, SqlValue::Text("two".to_string()))];
    assert_eq!(db.query("t", &cols, &one).unwrap()[0][0].1, SqlValue::Long(10));
    assert_eq!(db.query("t", &cols, &two).unwrap()[0][0].1, SqlValue::Long(2));
}

#[test]
fn connection_failure_is_database_error() {
    let db = DefaultDatabase::at_path("/no/such/dir/x.db3".to_string());
    let e = db.insert("t", &vec![("a".to_string(), SqlValue::Long(1))]).unwrap_err();
    assert!(matches!(e.kind, ErrorKind::Database));
}

#[test]
fn missing_table_is_database_error() {
    let (_dir, path) = scratch_db("nt.db3");
    let db = DefaultDatabase::at_path(path);
    let cols = vec![("a".to_string(), ValueType::Long)];
    let conds: Vec<Condition> = Vec::new();
    let e = db.query("nope", &cols, &conds).unwrap_err();
    assert!(matches!(e.kind, ErrorKind::Database));
}

#[test]
fn decode_row_is_type_directed() {
    let cells = vec![
        StoredValue::Text("hi".to_string()),
        StoredValue::Integer(7),
        StoredValue::Integer(0),
    ];
    let cols = vec![
        ("a".to_string(), ValueType::Text),
        ("b".to_string(), ValueType::Long),
        ("c".to_string(), ValueType::Boolean),
    ];
    let row = decode_row(&cells, &cols).unwrap();
    assert_eq!(row[0], ("a".to_string(), SqlValue::Text("hi".to_string())));
    assert_eq!(row[1], ("b".to_string(), SqlValue::Long(7)));
    assert_eq!(row[2], ("c".to_string(), SqlValue::Boolean(false)));
}

#[test]
fn decode_row_names_offending_column() {
    let cells = vec![StoredValue::Integer(7), StoredValue::Text("oops".to_string())];
    let cols = vec![
        ("good".to_string(), ValueType::Long),
        ("bad".to_string(), ValueType::Boolean),
    ];
    let e = decode_row(&cells, &cols).unwrap_err();
    assert!(matches!(e.kind, ErrorKind::Database));
    assert_eq!(e.message, "Unable to select column 'bad' from returned row");
}
