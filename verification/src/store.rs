//! The boundary to SQLite.
//!
//! Everything the tracker asks of the store goes through the few functions
//! at the end of this file. What comes back depends on what the store holds,
//! so nothing is claimed of it here: the callers state what they do with
//! every possible answer.

use crate::error::StorageFailure;
use rusqlite::types::ValueRef;
use vstd::prelude::*;

verus! {

#[verifier::external_type_specification]
#[verifier::external_body]
pub struct ExConnection(rusqlite::Connection);

#[verifier::external_type_specification]
#[verifier::external_body]
pub struct ExError(rusqlite::Error);

/// A value bound to a `?` parameter of a statement.
#[derive(Debug, Clone, PartialEq, Eq)]
pub enum Param {
    Integer(i64),
    Text(String),
}

/// A statement with the values of its parameters, in order.
#[derive(Debug, Clone, PartialEq, Eq)]
pub struct Statement {
    pub sql: String,
    pub params: Vec<Param>,
}

/// A value read from one column of a result row, as SQLite holds it.
#[derive(Debug, Clone, PartialEq, Eq)]
pub enum Cell {
    Null,
    Integer(i64),
    /// A floating-point value. The tracker stores none and reads none, so
    /// the number itself is not kept.
    Real,
    /// The bytes of a text value, which need not be valid UTF-8.
    Text(Vec<u8>),
    Blob(Vec<u8>),
}

/// Opens the database file at `path` with `Connection::open`. Whether
/// that succeeds lies with the file system.
#[verifier::external_body]
pub(crate) fn open_connection(path: &str) -> (opened: Result<
    rusqlite::Connection,
    rusqlite::Error,
>) {
    rusqlite::Connection::open(path)
}

/// Runs a statement that returns no rows with `Connection::execute`, its
/// parameters bound in order through `params_from_iter`. On success the
/// number is SQLite's count of the rows that the statement changed; which
/// number that is lies with the store.
#[verifier::external_body]
pub(crate) fn execute(conn: &rusqlite::Connection, statement: &Statement) -> (changed: Result<
    usize,
    rusqlite::Error,
>) {
    let values = statement.params.iter().map(
        |param|
            match param {
                Param::Integer(number) => rusqlite::types::Value::Integer(*number),
                Param::Text(text) => rusqlite::types::Value::Text(text.clone()),
            },
    );
    conn.execute(&statement.sql, rusqlite::params_from_iter(values))
}

/// Asks `Connection::last_insert_rowid` for the row id of the latest
/// insertion on this connection.
#[verifier::external_body]
pub(crate) fn last_insert_rowid(conn: &rusqlite::Connection) -> (id: i64) {
    conn.last_insert_rowid()
}

/// Runs a query without parameters through `Connection::prepare` and
/// `Statement::query_map`, and hands out every row it yields with all its
/// columns, each read with `Row::get_ref` and copied variant by variant.
/// The first failure of SQLite, in preparing the query or in stepping to a
/// row, fails the whole call. Which rows come back lies with the store.
#[verifier::external_body]
pub(crate) fn fetch_rows(conn: &rusqlite::Connection, sql: &str) -> (rows: Result<
    Vec<Vec<Cell>>,
    rusqlite::Error,
>) {
    let mut statement = conn.prepare(sql)?;
    let width = statement.column_count();
    let read = |row: &rusqlite::Row<'_>| (0..width).map(|column| Ok(match row.get_ref(column)? {
        ValueRef::Null => Cell::Null,
        ValueRef::Integer(number) => Cell::Integer(number),
        ValueRef::Real(_) => Cell::Real,
        ValueRef::Text(bytes) => Cell::Text(bytes.to_vec()),
        ValueRef::Blob(bytes) => Cell::Blob(bytes.to_vec()),
    })).collect::<Result<Vec<Cell>, rusqlite::Error>>();
    let rows = statement.query_map([], read)?;
    rows.collect()
}

/// Whether `detail` is the storage layer's own report of a failure: what
/// `to_string` writes for one of its errors.
pub open spec fn is_storage_report(detail: String) -> bool {
    exists|error: rusqlite::Error| #[trigger]
        vstd::string::to_string_from_display_ensures::<rusqlite::Error>(&error, detail)
}

/// Turns a storage error into a failure of the tracker's own: its detail
/// is what `to_string` writes for the error, and it has no context yet.
pub(crate) fn failure_of(error: &rusqlite::Error) -> (failure: StorageFailure)
    ensures
        failure@.context is None,
        vstd::string::to_string_from_display_ensures::<rusqlite::Error>(error, failure.detail),
        is_storage_report(failure.detail),
{
    StorageFailure::new(error.to_string())
}

} // verus!
