//! The index of global constants: a table from a constant's key to the id of
//! the file that defines it, and the lookup that resolves that id to a path
//! through the file-location table.
//!
//! The key column is the table's primary key and a write never replaces a
//! row: inserting a key that is already present fails with a constraint
//! error and leaves the stored row as it was (the first write wins).
use vstd::prelude::*;
use crate::path::{prefix_of_code, Prefix, RelativePath};
use crate::symbol_hash::{name_key, name_to_hash, SymbolKind};

verus! {

#[verifier::external_type_specification]
#[verifier::external_body]
pub struct ExConnection(rusqlite::Connection);

#[verifier::external_type_specification]
#[verifier::external_body]
pub struct ExError(rusqlite::Error);

#[verifier::external_type_specification]
#[verifier::external_body]
pub struct ExStatement<'conn>(rusqlite::Statement<'conn>);

#[verifier::external_type_specification]
#[verifier::external_body]
pub struct ExCachedStatement<'conn>(rusqlite::CachedStatement<'conn>);

/// Creates the index table unless it is already there.
pub const CREATE_CONSTS_TABLE: &'static str = "
    CREATE TABLE IF NOT EXISTS NAMING_CONSTS (
        HASH INTEGER PRIMARY KEY NOT NULL,
        FILE_INFO_ID INTEGER NOT NULL
    );";

/// Writes one row, given as (key, file id).
pub const INSERT_CONST: &'static str = "
    INSERT INTO NAMING_CONSTS (
        HASH,
        FILE_INFO_ID
    ) VALUES (
        ?, ?
    );";

/// Reads the file's prefix code and path fragment for one key.
pub const SELECT_CONST_PATH: &'static str = "
    SELECT
        NAMING_FILE_INFO.PATH_PREFIX_TYPE,
        NAMING_FILE_INFO.PATH_SUFFIX
    FROM
        NAMING_CONSTS
    LEFT JOIN
        NAMING_FILE_INFO
    ON
        NAMING_CONSTS.FILE_INFO_ID = NAMING_FILE_INFO.FILE_INFO_ID
    WHERE
        NAMING_CONSTS.HASH = ?
    ";

/// Why an operation on the index failed.
#[derive(Debug)]
pub enum StorageError {
    /// The storage engine failed to prepare, run or read a statement.
    Engine(rusqlite::Error),
    /// The file record holds a prefix code that names no root.
    UnknownPrefix(i64),
    /// The file record has a prefix but no path fragment.
    MissingSuffix,
}

/// Relies on `rusqlite::Connection::execute`: runs one statement without
/// parameters and reports the engine's error, if any.
#[verifier::external_body]
fn execute_statement(connection: &rusqlite::Connection, sql: &str) -> (r: Result<usize, rusqlite::Error>) {
    connection.execute(sql, ())
}

/// Relies on `rusqlite::Connection::prepare`: compiles one statement.
#[verifier::external_body]
fn prepare<'conn>(connection: &'conn rusqlite::Connection, sql: &str) -> (r: Result<rusqlite::Statement<'conn>, rusqlite::Error>) {
    connection.prepare(sql)
}

/// Relies on `rusqlite::Statement::execute`: binds the two integers to the
/// statement's two parameters, in order, and runs it.
#[verifier::external_body]
fn execute_with_pair(statement: &mut rusqlite::Statement, first: i64, second: i64) -> (r: Result<usize, rusqlite::Error>) {
    statement.execute((first, second))
}

/// Relies on `rusqlite::Connection::prepare_cached`: compiles one statement,
/// or takes it from the connection's cache of compiled statements.
#[verifier::external_body]
fn prepare_cached<'conn>(connection: &'conn rusqlite::Connection, sql: &str) -> (r: Result<rusqlite::CachedStatement<'conn>, rusqlite::Error>) {
    connection.prepare_cached(sql)
}

/// Relies on `rusqlite::Statement::query_row`: binds the integer to the
/// statement's parameter and reads the first row's two columns (through the
/// tuple conversion of `rusqlite::Row`), each absent when NULL. Its
/// `QueryReturnedNoRows` error becomes `None` through
/// `rusqlite::OptionalExtension::optional`.
#[verifier::external_body]
fn query_first_row(statement: &mut rusqlite::CachedStatement, key: i64) -> (r: Result<Option<(Option<i64>, Option<String>)>, rusqlite::Error>) {
    rusqlite::OptionalExtension::optional(
        statement.query_row((key,), |row| <(Option<i64>, Option<String>)>::try_from(row)),
    )
}

/// Creates the index table if it does not exist yet; an existing table and
/// its rows are left as they are.
pub fn create_table(connection: &rusqlite::Connection) -> (r: Result<(), StorageError>)
    ensures
        r is Err ==> r->Err_0 is Engine,
{
    match execute_statement(connection, CREATE_CONSTS_TABLE) {
        Ok(_) => Ok(()),
        Err(e) => Err(StorageError::Engine(e)),
    }
}

/// Records that every constant in `names` is defined in the file
/// `file_info_id`, one row per name, in order. Stops at the first failed
/// write: the rows written before it stay.
pub fn insert(connection: &rusqlite::Connection, file_info_id: i64, names: &[String]) -> (r: Result<(), StorageError>)
    ensures
        r is Err ==> r->Err_0 is Engine,
{
    let mut statement = match prepare(connection, INSERT_CONST) {
        Ok(s) => s,
        Err(e) => return Err(StorageError::Engine(e)),
    };
    let n = names.len();
    let mut i: usize = 0;
    while i < n
        invariant
            n == names@.len(),
            i <= n,
        decreases n - i,
    {
        let key = name_to_hash(SymbolKind::Const, names[i].as_str());
        if let Err(e) = execute_with_pair(&mut statement, key, file_info_id) {
            return Err(StorageError::Engine(e));
        }
        i = i + 1;
    }
    Ok(())
}

/// Turns the row that the index query read into the lookup's answer. `row`
/// is `None` when no key matched; otherwise it holds the file record's prefix
/// code and path fragment, each `None` where the join found no record or the
/// record left it empty. No file record means no answer.
pub fn path_from_row(row: Option<(Option<i64>, Option<String>)>) -> (r: Result<Option<RelativePath>, StorageError>)
    ensures
        match row {
            None => r matches Ok(None),
            Some((None, _)) => r matches Ok(None),
            Some((Some(code), suffix)) => match prefix_of_code(code) {
                None => r matches Err(StorageError::UnknownPrefix(c)) && c == code,
                Some(prefix) => match suffix {
                    None => r matches Err(StorageError::MissingSuffix),
                    Some(s) => r matches Ok(Some(p)) && p.prefix == prefix && p.suffix@ == s@,
                },
            },
        },
{
    match row {
        None => Ok(None),
        Some((None, _)) => Ok(None),
        Some((Some(code), suffix)) => match Prefix::from_code(code) {
            None => Err(StorageError::UnknownPrefix(code)),
            Some(prefix) => match suffix {
                None => Err(StorageError::MissingSuffix),
                Some(s) => Ok(Some(RelativePath::make(prefix, s))),
            },
        },
    }
}

/// Finds the file that defines the constant `name` and returns its path;
/// `None` when no row has the name's key or the row's file has no record.
/// Names are not stored, so two names of one key share one answer.
pub fn get_path(connection: &rusqlite::Connection, name: &str) -> (r: Result<Option<RelativePath>, StorageError>)
    ensures
        r matches Err(StorageError::UnknownPrefix(c)) ==> prefix_of_code(c) is None,
{
    let mut statement = match prepare_cached(connection, SELECT_CONST_PATH) {
        Ok(s) => s,
        Err(e) => return Err(StorageError::Engine(e)),
    };
    let key = name_to_hash(SymbolKind::Const, name);
    match query_first_row(&mut statement, key) {
        Ok(row) => path_from_row(row),
        Err(e) => Err(StorageError::Engine(e)),
    }
}

} // verus!
