//! The boundary to the database engine.
//!
//! Everything here is believed, not proved: the functions hand statements to
//! `rusqlite` and bring back what it answered. What a statement finds or
//! changes depends on the database, so none of them promises anything about
//! the rows: the callers decide on whatever came back.

use vstd::prelude::*;
use crate::error::SqlFailure;
use crate::request::Param;

verus! {

/// An open database: `rusqlite::Connection`.
#[verifier::external_type_specification]
#[verifier::external_body]
pub struct ExConnection(rusqlite::Connection);

/// A failure reported by `rusqlite`.
#[verifier::external_type_specification]
#[verifier::external_body]
pub struct ExError(rusqlite::Error);

/// A value read from a column: `rusqlite::types::Value`.
#[verifier::external_type_specification]
#[verifier::external_body]
pub struct ExValue(rusqlite::types::Value);

/// An open transaction: `rusqlite::Transaction`. When it is dropped without
/// having been committed, `rusqlite` rolls it back.
#[verifier::external_type_specification]
#[verifier::external_body]
pub struct ExTransaction<'conn>(rusqlite::Transaction<'conn>);

/// What a column of a result row holds.
#[derive(Debug)]
pub enum Cell {
    Null,
    Integer(i64),
    /// A floating-point column; the registry stores none and reads none.
    Real,
    Text(String),
    Blob(Vec<u8>),
}

/// Calls `rusqlite::Connection::open`: opens the database file at `path`,
/// creating it if it is not there.
#[verifier::external_body]
pub(crate) fn open(path: &str) -> (r: Result<rusqlite::Connection, rusqlite::Error>) {
    rusqlite::Connection::open(path)
}

/// Calls `rusqlite::Connection::open_in_memory`: opens a fresh database that
/// lives in memory only.
#[verifier::external_body]
pub(crate) fn open_in_memory() -> (r: Result<rusqlite::Connection, rusqlite::Error>) {
    rusqlite::Connection::open_in_memory()
}

/// Calls `rusqlite::Connection::unchecked_transaction`: opens a deferred
/// transaction on `con`. It fails where one is open already.
#[verifier::external_body]
pub(crate) fn open_transaction<'a>(con: &'a rusqlite::Connection) -> (r: Result<
    rusqlite::Transaction<'a>,
    rusqlite::Error,
>) {
    con.unchecked_transaction()
}

/// Calls `rusqlite::Transaction::commit`: makes what was done in `tx`
/// lasting. Where that fails, `tx` is dropped, which rolls it back.
#[verifier::external_body]
pub(crate) fn commit_transaction(tx: rusqlite::Transaction<'_>) -> (r: Result<
    (),
    rusqlite::Error,
>) {
    tx.commit()
}

/// Calls `rusqlite::Transaction::rollback`: undoes what was done in `tx`.
#[verifier::external_body]
pub(crate) fn rollback_transaction(tx: rusqlite::Transaction<'_>) -> (r: Result<
    (),
    rusqlite::Error,
>) {
    tx.rollback()
}

/// Calls `deref` of `rusqlite::Transaction`: the connection that `tx` is
/// open on, for the statements that run inside it.
#[verifier::external_body]
pub(crate) fn connection_of<'a>(tx: &'a rusqlite::Transaction<'_>) -> (con:
    &'a rusqlite::Connection) {
    std::ops::Deref::deref(tx)
}

/// Calls `rusqlite::Statement::execute` on the cached statement for `sql`,
/// with `params` bound in order, each as the `rusqlite::types::Value` of its
/// kind. The result is the number of rows that the statement changed.
#[verifier::external_body]
pub(crate) fn execute(con: &rusqlite::Connection, sql: &str, params: &Vec<Param>) -> (r: Result<
    usize,
    rusqlite::Error,
>) {
    let bound = params.iter().map(|p| match p {
        Param::Integer(i) => rusqlite::types::Value::from(*i),
        Param::Text(s) => rusqlite::types::Value::from(s.clone()),
    });
    con.prepare_cached(sql)?.execute(rusqlite::params_from_iter(bound))
}

/// Calls `rusqlite::Statement::query_map` on the cached statement for `sql`,
/// with `params` bound in order, each as the `rusqlite::types::Value` of its
/// kind, and reads the first `width` columns of each row with
/// `rusqlite::Row::get`. A row that has fewer columns makes the whole call
/// fail, so every row that comes back has `width` values.
#[verifier::external_body]
pub(crate) fn query(con: &rusqlite::Connection, sql: &str, params: &Vec<Param>, width: usize) -> (r:
    Result<Vec<Vec<rusqlite::types::Value>>, rusqlite::Error>)
    ensures
        r matches Ok(rows) ==> forall|i: int|
            0 <= i < rows@.len() ==> (#[trigger] rows@[i])@.len() == width,
{
    let bound = params.iter().map(|p| match p {
        Param::Integer(i) => rusqlite::types::Value::from(*i),
        Param::Text(s) => rusqlite::types::Value::from(s.clone()),
    });
    let mut stmt = con.prepare_cached(sql)?;
    let rows = stmt.query_map(
        rusqlite::params_from_iter(bound),
        |row| (0..width).map(|i| row.get::<usize, rusqlite::types::Value>(i)).collect(),
    )?;
    rows.collect()
}

/// Calls `rusqlite::Connection::last_insert_rowid`: the row id of the most
/// recent successful insert on this connection.
#[verifier::external_body]
pub(crate) fn last_insert_rowid(con: &rusqlite::Connection) -> (id: i64) {
    con.last_insert_rowid()
}

/// Tells the variants of `rusqlite::types::Value` apart and copies what the
/// value holds into a `Cell`. A floating-point value keeps its kind only.
#[verifier::external_body]
pub(crate) fn cell_of(v: &rusqlite::types::Value) -> (c: Cell) {
    match v {
        rusqlite::types::Value::Null => Cell::Null,
        rusqlite::types::Value::Integer(i) => Cell::Integer(*i),
        rusqlite::types::Value::Real(_) => Cell::Real,
        rusqlite::types::Value::Text(s) => Cell::Text(s.clone()),
        rusqlite::types::Value::Blob(b) => Cell::Blob(b.clone()),
    }
}

/// Tells the variants of `rusqlite::Error` apart: a query without rows, a
/// failure of the engine with its extended result code, or anything else.
#[verifier::external_body]
pub(crate) fn failure_of(e: &rusqlite::Error) -> (f: SqlFailure) {
    match e {
        rusqlite::Error::QueryReturnedNoRows => SqlFailure::NoRows,
        rusqlite::Error::SqliteFailure(cause, _) => SqlFailure::Engine(cause.extended_code),
        _ => SqlFailure::Other,
    }
}

} // verus!
