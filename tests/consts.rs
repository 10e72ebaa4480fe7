use name_index::consts::{create_table, get_path, insert, path_from_row, StorageError};
use name_index::path::Prefix;
use rusqlite::Connection;

fn file_table(conn: &Connection, rows: &[(i64, i64, &str)]) {
    conn.execute(
        "CREATE TABLE NAMING_FILE_INFO (
            FILE_INFO_ID INTEGER PRIMARY KEY,
            PATH_PREFIX_TYPE INTEGER,
            PATH_SUFFIX TEXT
        );",
        (),
    )
    .unwrap();
    for (id, prefix, suffix) in rows {
        conn.execute(
            "INSERT INTO NAMING_FILE_INFO (FILE_INFO_ID, PATH_PREFIX_TYPE, PATH_SUFFIX) VALUES (?, ?, ?);",
            (*id, *prefix, *suffix),
        )
        .unwrap();
    }
}

fn names(ns: &[&str]) -> Vec<String> {
    ns.iter().map(|n| n.to_string()).collect()
}

fn row_count(conn: &Connection) -> i64 {
    conn.query_row("SELECT COUNT(*) FROM NAMING_CONSTS", (), |r| r.get(0)).unwrap()
}

#[test]
fn test_add_const() {
    let conn = Connection::open_in_memory().unwrap();
    create_table(&conn).unwrap();
    insert(&conn, 123, &["Foo".to_string()]).unwrap();
}

#[test]
fn round_trip_resolves_file_path() {
    let conn = Connection::open_in_memory().unwrap();
    file_table(&conn, &[(7, 1, "lib/a.php")]);
    create_table(&conn).unwrap();
    insert(&conn, 7, &names(&["SOME_CONST"])).unwrap();
    let p = get_path(&conn, "SOME_CONST").unwrap().unwrap();
    assert_eq!(p.prefix(), Prefix::Hhi);
    assert_eq!(p.suffix(), "lib/a.php");
}

#[test]
fn unknown_name_on_empty_table() {
    let conn = Connection::open_in_memory().unwrap();
    file_table(&conn, &[]);
    create_table(&conn).unwrap();
    for n in ["", "Foo", "Bar", "\\A\\B"] {
        assert!(get_path(&conn, n).unwrap().is_none());
    }
}

#[test]
fn create_table_twice_keeps_rows() {
    let conn = Connection::open_in_memory().unwrap();
    file_table(&conn, &[(5, 0, "x.php")]);
    create_table(&conn).unwrap();
    insert(&conn, 5, &names(&["X"])).unwrap();
    create_table(&conn).unwrap();
    assert_eq!(row_count(&conn), 1);
    assert_eq!(get_path(&conn, "X").unwrap().unwrap().suffix(), "x.php");
}

#[test]
fn second_insert_of_same_key_fails_and_first_stays() {
    let conn = Connection::open_in_memory().unwrap();
    file_table(&conn, &[(1, 0, "first.php"), (2, 0, "second.php")]);
    create_table(&conn).unwrap();
    insert(&conn, 1, &names(&["Dup"])).unwrap();
    let second = insert(&conn, 2, &names(&["Dup"]));
    assert!(matches!(second, Err(StorageError::Engine(_))));
    assert_eq!(row_count(&conn), 1);
    assert_eq!(get_path(&conn, "Dup").unwrap().unwrap().suffix(), "first.php");
}

#[test]
fn failed_insert_keeps_earlier_names() {
    let conn = Connection::open_in_memory().unwrap();
    file_table(&conn, &[(1, 0, "one.php")]);
    create_table(&conn).unwrap();
    let r = insert(&conn, 1, &names(&["P", "Q", "P", "R"]));
    assert!(matches!(r, Err(StorageError::Engine(_))));
    assert_eq!(row_count(&conn), 2);
    assert!(get_path(&conn, "Q").unwrap().is_some());
    assert!(get_path(&conn, "R").unwrap().is_none());
}

#[test]
fn end_to_end_foo() {
    let conn = Connection::open_in_memory().unwrap();
    file_table(&conn, &[(123, 0, "src/foo.php")]);
    create_table(&conn).unwrap();
    insert(&conn, 123, &names(&["Foo"])).unwrap();
    let p = get_path(&conn, "Foo").unwrap().unwrap();
    assert_eq!(p.prefix(), Prefix::Root);
    assert_eq!(p.suffix(), "src/foo.php");
    assert!(get_path(&conn, "Bar").unwrap().is_none());
}

#[test]
fn end_to_end_two_files() {
    let conn = Connection::open_in_memory().unwrap();
    file_table(&conn, &[(1, 0, "one.php"), (2, 3, "two.php")]);
    create_table(&conn).unwrap();
    insert(&conn, 1, &names(&["A", "B"])).unwrap();
    insert(&conn, 2, &names(&["C"])).unwrap();
    for n in ["A", "B"] {
        let p = get_path(&conn, n).unwrap().unwrap();
        assert_eq!(p.prefix(), Prefix::Root);
        assert_eq!(p.suffix(), "one.php");
    }
    let c = get_path(&conn, "C").unwrap().unwrap();
    assert_eq!(c.prefix(), Prefix::Tmp);
    assert_eq!(c.suffix(), "two.php");
}

#[test]
fn missing_file_record_gives_none() {
    let conn = Connection::open_in_memory().unwrap();
    file_table(&conn, &[]);
    create_table(&conn).unwrap();
    insert(&conn, 99, &names(&["Orphan"])).unwrap();
    assert!(get_path(&conn, "Orphan").unwrap().is_none());
}

#[test]
fn unknown_prefix_code_is_an_error() {
    let conn = Connection::open_in_memory().unwrap();
    file_table(&conn, &[(4, 9, "odd.php")]);
    create_table(&conn).unwrap();
    insert(&conn, 4, &names(&["Odd"])).unwrap();
    assert!(matches!(get_path(&conn, "Odd"), Err(StorageError::UnknownPrefix(9))));
}

#[test]
fn missing_suffix_is_an_error() {
    let conn = Connection::open_in_memory().unwrap();
    file_table(&conn, &[]);
    conn.execute(
        "INSERT INTO NAMING_FILE_INFO (FILE_INFO_ID, PATH_PREFIX_TYPE, PATH_SUFFIX) VALUES (8, 0, NULL);",
        (),
    )
    .unwrap();
    create_table(&conn).unwrap();
    insert(&conn, 8, &names(&["NoSuffix"])).unwrap();
    assert!(matches!(get_path(&conn, "NoSuffix"), Err(StorageError::MissingSuffix)));
}

#[test]
fn insert_without_table_is_a_storage_error() {
    let conn = Connection::open_in_memory().unwrap();
    assert!(matches!(insert(&conn, 1, &names(&["A"])), Err(StorageError::Engine(_))));
}

#[test]
fn lookup_without_tables_is_a_storage_error() {
    let conn = Connection::open_in_memory().unwrap();
    assert!(matches!(get_path(&conn, "A"), Err(StorageError::Engine(_))));
}

#[test]
fn rows_decode_into_lookup_answers() {
    assert!(matches!(path_from_row(None), Ok(None)));
    assert!(matches!(path_from_row(Some((None, None))), Ok(None)));
    assert!(matches!(path_from_row(Some((None, Some("a".to_string())))), Ok(None)));
    assert!(matches!(path_from_row(Some((Some(17), Some("a".to_string())))), Err(StorageError::UnknownPrefix(17))));
    assert!(matches!(path_from_row(Some((Some(2), None))), Err(StorageError::MissingSuffix)));
    let p = path_from_row(Some((Some(2), Some("d/e.php".to_string())))).unwrap().unwrap();
    assert_eq!(p.prefix(), Prefix::Dummy);
    assert_eq!(p.suffix(), "d/e.php");
}
