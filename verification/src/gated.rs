//! The template that every change to what belongs to an app follows: open a
//! transaction, decide in it whether the actor may, change, and commit; on
//! any failure roll back, so that a permission and the change it allowed are
//! never seen apart.

use vstd::prelude::*;
use crate::error::{classified_write, classify_write, SqlFailure, StoreError};
use crate::permission::{access_verdict, deletion_verdict, keyed_id, load_standing, Standing};
use crate::request::{Bound, Request};
use crate::rows::fetch;
use crate::sqlite::{
    commit_transaction,
    connection_of,
    execute,
    failure_of,
    last_insert_rowid,
    open_transaction,
    rollback_transaction,
};

verus! {

/// The identifier that stands for a row id of the store, if it can hold it.
pub open spec fn narrowed(rowid: i64) -> Option<i32> {
    if i32::MIN <= rowid <= i32::MAX {
        Some(rowid as i32)
    } else {
        None
    }
}

/// Turns a row id of the store into an identifier. One that does not fit is
/// a failure of the store.
pub fn narrow(rowid: i64) -> (r: Result<i32, StoreError>)
    ensures
        r is Ok <==> narrowed(rowid) is Some,
        r matches Ok(id) ==> Some(id) == narrowed(rowid),
        r matches Err(e) ==> e == StoreError::StorageFailure,
{
    if -2147483648 <= rowid && rowid <= 2147483647 {
        Ok(rowid as i32)
    } else {
        Err(StoreError::StorageFailure)
    }
}

/// What an insert gives for the outcome of the statement and the row id that
/// the store reports after it.
pub open spec fn insert_verdict(outcome: Result<usize, SqlFailure>, rowid: i64) -> Result<
    i32,
    StoreError,
> {
    match outcome {
        Ok(_) => match narrowed(rowid) {
            Some(id) => Ok(id),
            None => Err(StoreError::StorageFailure),
        },
        Err(failure) => Err(classified_write(failure)),
    }
}

/// Decides what an insert gives: the id of the new row after a success, the
/// kind of the failure otherwise.
pub fn inserted_id(outcome: Result<usize, SqlFailure>, rowid: i64) -> (r: Result<i32, StoreError>)
    ensures
        r == insert_verdict(outcome, rowid),
{
    match outcome {
        Ok(_) => narrow(rowid),
        Err(failure) => Err(classify_write(failure)),
    }
}

/// Hands a request that changes the store to it: the statement of the
/// request with the values that the request binds.
pub(crate) fn submit(con: &rusqlite::Connection, request: &Request) -> (r: Result<
    usize,
    rusqlite::Error,
>) {
    execute(con, request.sql, &request.params)
}

/// Hands a request that changes rows to the store and reads the failure, if
/// there is one, out of the error.
pub(crate) fn run(con: &rusqlite::Connection, request: &Request) -> (r: Result<usize, SqlFailure>) {
    match submit(con, request) {
        Ok(changed) => Ok(changed),
        Err(e) => Err(failure_of(&e)),
    }
}

/// What a delete of one row gives for the outcome of the statement: success
/// where the store says that exactly one row went, `NotFound` where none
/// went, and a failure of the store otherwise.
pub open spec fn delete_verdict(outcome: Result<usize, SqlFailure>) -> Result<usize, StoreError> {
    match outcome {
        Ok(changed) => if changed == 1 {
            Ok(1)
        } else if changed == 0 {
            Err(StoreError::NotFound)
        } else {
            Err(StoreError::StorageFailure)
        },
        Err(_) => Err(StoreError::StorageFailure),
    }
}

/// Decides what a delete of one row gives, so that a delete that removed
/// nothing is never taken for a success.
pub fn deleted_one(outcome: Result<usize, SqlFailure>) -> (r: Result<usize, StoreError>)
    ensures
        r == delete_verdict(outcome),
{
    match outcome {
        Ok(changed) => {
            if changed == 1 {
                Ok(1)
            } else if changed == 0 {
                Err(StoreError::NotFound)
            } else {
                Err(StoreError::StorageFailure)
            }
        },
        Err(_) => Err(StoreError::StorageFailure),
    }
}

/// Opens a transaction on the store. What is read and changed through it is
/// one atomic unit; it is closed by `settle`, and rolled back where it is
/// dropped before that.
pub fn begin<'a>(con: &'a rusqlite::Connection) -> (r: Result<
    rusqlite::Transaction<'a>,
    StoreError,
>)
    ensures
        r matches Err(e) ==> e == StoreError::StorageFailure,
{
    match open_transaction(con) {
        Ok(tx) => Ok(tx),
        Err(_) => Err(StoreError::StorageFailure),
    }
}

/// Closes a transaction: commits after a success, rolls back after a
/// failure. A success whose commit fails becomes a failure of the store; a
/// failure is handed on as it is.
pub fn settle<T>(tx: rusqlite::Transaction<'_>, outcome: Result<T, StoreError>) -> (r: Result<
    T,
    StoreError,
>)
    ensures
        outcome is Err ==> r == outcome,
        r is Ok ==> r == outcome,
        r matches Err(e) ==> outcome is Ok ==> e == StoreError::StorageFailure,
{
    match outcome {
        Ok(value) => {
            match commit_transaction(tx) {
                Ok(()) => Ok(value),
                Err(_) => Err(StoreError::StorageFailure),
            }
        },
        Err(e) => {
            let _ = rollback_transaction(tx);
            Err(e)
        },
    }
}

/// The statement of `sql` that deletes the row `row_id` of the app `app_id`.
pub fn delete_request(sql: &'static str, row_id: i32, app_id: i32) -> (q: Request)
    ensures
        q.asks(sql@, seq![Bound::Integer(row_id as i64), Bound::Integer(app_id as i64)]),
{
    Request::new(sql).id(row_id).id(app_id)
}

/// The statement of `sql` that looks the row `row_id` up.
pub fn probe_request(sql: &'static str, row_id: i32) -> (q: Request)
    ensures
        q.asks(sql@, seq![Bound::Integer(row_id as i64)]),
{
    Request::new(sql).id(row_id)
}

/// Carries out an insert for an app once the standing has been read: the
/// insert is made only where `user_id` has permission, and a refusal is
/// handed on as it is. Who has permission is not refused: what fails then is
/// the store. The row that is inserted is one of the app whose
/// standing was read.
pub(crate) fn insert_decided(
    con: &rusqlite::Connection,
    request: &Request,
    standing: &Standing,
    user_id: i32,
) -> (r: Result<i32, StoreError>)
    requires
        request.inserts_for(standing.app_id),
    ensures
        access_verdict(*standing, user_id) matches Err(e) ==> r == Err::<i32, StoreError>(e),
        r is Ok ==> access_verdict(*standing, user_id) is Ok,
        access_verdict(*standing, user_id) is Ok ==> (r matches Err(e) ==> e
            != StoreError::PermissionDenied),
        r matches Err(e) ==> e != StoreError::NotFound,
{
    match standing.grants(user_id) {
        Ok(()) => {
            let outcome = run(con, request);
            inserted_id(outcome, last_insert_rowid(con))
        },
        Err(e) => Err(e),
    }
}

/// Inside the transaction `tx`: inserts a row for the app `app_id` on behalf
/// of `user_id`, who needs permission on the app, and gives the new row's id.
pub(crate) fn insert_permitted(
    tx: &rusqlite::Transaction<'_>,
    request: &Request,
    app_id: i32,
    user_id: i32,
) -> (r: Result<i32, StoreError>)
    requires
        request.inserts_for(app_id),
    ensures
        r matches Err(e) ==> e != StoreError::NotFound,
{
    let con = connection_of(tx);
    let standing = load_standing(con, app_id)?;
    insert_decided(con, request, &standing, user_id)
}

/// Carries out a delete once the standing and the row's app have been read:
/// the row goes only where `deletion_verdict` allows it, and a refusal is
/// handed on as it is. Where the verdict allows it, nobody is refused for
/// want of permission: what fails then is the store, or the row is gone.
pub(crate) fn delete_decided(
    con: &rusqlite::Connection,
    delete_sql: &'static str,
    standing: &Standing,
    user_id: i32,
    row_id: i32,
    row_app: Option<i32>,
) -> (r: Result<usize, StoreError>)
    ensures
        deletion_verdict(*standing, user_id, row_app) matches Err(e) ==> r == Err::<
            usize,
            StoreError,
        >(e),
        r matches Ok(changed) ==> changed == 1 && deletion_verdict(*standing, user_id, row_app)
            is Ok,
        deletion_verdict(*standing, user_id, row_app) is Ok ==> (r matches Err(e) ==> e
            == StoreError::NotFound || e == StoreError::StorageFailure),
        r matches Err(e) ==> e == StoreError::PermissionDenied || e == StoreError::NotFound || e
            == StoreError::StorageFailure,
{
    match standing.allows_deletion(user_id, row_app) {
        Ok(()) => deleted_one(run(con, &delete_request(delete_sql, row_id, standing.app_id))),
        Err(e) => Err(e),
    }
}

/// Inside the transaction `tx`: deletes the row `row_id` of the app `app_id`
/// on behalf of `user_id`. `probe_sql` asks for the row's id and its app,
/// `delete_sql` deletes by row and app. The row goes only if `user_id` has
/// permission on `app_id` and the row belongs to that app.
pub(crate) fn delete_scoped(
    tx: &rusqlite::Transaction<'_>,
    probe_sql: &'static str,
    delete_sql: &'static str,
    app_id: i32,
    user_id: i32,
    row_id: i32,
) -> (r: Result<usize, StoreError>)
    ensures
        r matches Ok(changed) ==> changed == 1,
        r matches Err(e) ==> e == StoreError::PermissionDenied || e == StoreError::NotFound || e
            == StoreError::StorageFailure,
{
    let con = connection_of(tx);
    let standing = load_standing(con, app_id)?;
    let row_app = match fetch(con, &probe_request(probe_sql, row_id), 2) {
        Ok(rows) => keyed_id(&rows, row_id)?,
        Err(_) => {
            return Err(StoreError::StorageFailure);
        },
    };
    delete_decided(con, delete_sql, &standing, user_id, row_id, row_app)
}

} // verus!
