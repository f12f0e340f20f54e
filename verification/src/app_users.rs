//! The subscriber registry: the users that are associated with an app. The
//! owner and the operators of the app manage them.

use vstd::prelude::*;
use crate::error::StoreError;
use crate::gated::{begin, delete_scoped, insert_permitted, settle, submit};
use crate::permission::{access_verdict, load_standing, Standing};
use crate::request::{Bound, Request};
use crate::rows::{fetch, id_at, id_in, text_at, text_in};
use crate::sqlite::{connection_of, Cell};
use crate::table::TableSql;

verus! {

/// A subscribed user of an app, with the name and the handle of the user.
pub struct AppUser {
    pub id: i32,
    pub app_id: i32,
    pub user_id: i32,
    pub name: String,
    pub username: String,
}

impl AppUser {
    /// Whether `row` holds the columns `id`, `app_id`, `user_id`, `name`,
    /// `username`.
    pub open spec fn readable(row: Seq<Cell>) -> bool {
        id_in(row, 0) is Some && id_in(row, 1) is Some && id_in(row, 2) is Some && text_in(row, 3)
            is Some && text_in(row, 4) is Some
    }

    /// Whether `self` is what `row` holds.
    pub open spec fn describes(&self, row: Seq<Cell>) -> bool {
        id_in(row, 0) == Some(self.id) && id_in(row, 1) == Some(self.app_id) && id_in(row, 2)
            == Some(self.user_id) && text_in(row, 3) == Some(self.name@) && text_in(row, 4) == Some(
            self.username@,
        )
    }

    /// Decodes a row of the columns `id`, `app_id`, `user_id`, `name`,
    /// `username`.
    pub fn from_row(row: &Vec<Cell>) -> (r: Result<AppUser, StoreError>)
        ensures
            r is Ok <==> AppUser::readable(row@),
            r matches Ok(subscriber) ==> subscriber.describes(row@),
            r matches Err(e) ==> e == StoreError::StorageFailure,
    {
        match (id_at(row, 0), id_at(row, 1), id_at(row, 2), text_at(row, 3), text_at(row, 4)) {
            (Some(id), Some(app_id), Some(user_id), Some(name), Some(username)) => Ok(
                AppUser { id, app_id, user_id, name, username },
            ),
            _ => Err(StoreError::StorageFailure),
        }
    }
}

/// Whether every one of `rows` is a readable subscriber row of the app `app_id`.
pub open spec fn app_user_rows_of(rows: Seq<Vec<Cell>>, app_id: i32) -> bool {
    forall|i: int|
        0 <= i < rows.len() ==> AppUser::readable(#[trigger] rows[i]@) && id_in(rows[i]@, 1)
            == Some(app_id)
}

/// Decodes the subscriber rows of the app `app_id`. A row that cannot be
/// read, or that belongs to another app, is a failure of the store.
pub fn app_users_from_rows(rows: &Vec<Vec<Cell>>, app_id: i32) -> (r: Result<
    Vec<AppUser>,
    StoreError,
>)
    ensures
        r is Ok <==> app_user_rows_of(rows@, app_id),
        r matches Ok(subscribers) ==> subscribers@.len() == rows@.len() && forall|i: int|
            0 <= i < rows@.len() ==> (#[trigger] subscribers@[i]).describes(rows@[i]@)
                && subscribers@[i].app_id == app_id,
        r matches Err(e) ==> e == StoreError::StorageFailure,
{
    let mut subscribers: Vec<AppUser> = Vec::new();
    let mut i: usize = 0;
    while i < rows.len()
        invariant
            i <= rows@.len(),
            subscribers@.len() == i,
            forall|k: int|
                0 <= k < i ==> AppUser::readable(#[trigger] rows@[k]@) && id_in(rows@[k]@, 1)
                    == Some(app_id),
            forall|k: int|
                0 <= k < i ==> (#[trigger] subscribers@[k]).describes(rows@[k]@)
                    && subscribers@[k].app_id == app_id,
        decreases rows@.len() - i,
    {
        match AppUser::from_row(&rows[i]) {
            Ok(subscriber) => {
                if subscriber.app_id != app_id {
                    return Err(StoreError::StorageFailure);
                }
                subscribers.push(subscriber);
            },
            Err(e) => {
                return Err(e);
            },
        }
        i += 1;
    }
    Ok(subscribers)
}

/// The statement that creates the table unless it exists.
pub const CREATE_TABLE: &'static str =
    "CREATE TABLE IF NOT EXISTS app_users (
        id INTEGER PRIMARY KEY,
        app_id INTEGER,
        user_id INTEGER,
        FOREIGN KEY (app_id) REFERENCES apps(id),
        FOREIGN KEY (user_id) REFERENCES users(id),
        UNIQUE(app_id, user_id)
    )";

/// The statement that lists the rows of one app, which is its one parameter.
pub const SELECT_FOR_APP: &'static str =
    "SELECT app_users.id, app_users.app_id, app_users.user_id, users.name, users.username
        FROM app_users
        JOIN users ON app_users.user_id = users.id
        WHERE app_users.app_id = ?1";

/// The statement that deletes a row of one app; the row and the app are its
/// parameters.
pub const DELETE_IN_APP: &'static str =
    "DELETE FROM app_users WHERE id = ?1 AND app_id = ?2";

/// The statement that inserts a row.
pub const INSERT_ROW: &'static str =
    "INSERT INTO app_users(app_id, user_id) VALUES (?1, ?2)";

impl<'a> TableSql<(i32, i32), AppUser> for AppUsers<'a> {
    open spec fn create_text() -> Seq<char> {
        CREATE_TABLE@
    }

    open spec fn select_all_text() -> Seq<char> {
        SELECT_FOR_APP@
    }

    open spec fn delete_by_id_text() -> Seq<char> {
        DELETE_IN_APP@
    }

    open spec fn insert_text() -> Seq<char> {
        INSERT_ROW@
    }

    fn create() -> (sql: &'static str) {
        CREATE_TABLE
    }

    fn select_all() -> (sql: &'static str) {
        SELECT_FOR_APP
    }

    fn delete_by_id() -> (sql: &'static str) {
        DELETE_IN_APP
    }

    fn insert() -> (sql: &'static str) {
        INSERT_ROW
    }
}

/// Creates the table unless it exists.
fn create_table(con: &rusqlite::Connection) -> (r: Result<usize, rusqlite::Error>) {
    submit(con, &Request::new(<AppUsers<'_> as TableSql<(i32, i32), AppUser>>::create()))
}

/// The statement that asks for a subscriber row's id and app.
pub const PROBE_BY_ID: &'static str = "SELECT id, app_id FROM app_users WHERE id = ?1";

/// The request that subscribes `user_id` to `app_id`.
pub fn insert_request(app_id: i32, user_id: i32) -> (q: Request)
    ensures
        q.asks(INSERT_ROW@, seq![Bound::Integer(app_id as i64), Bound::Integer(user_id as i64)]),
{
    Request::new(<AppUsers<'_> as TableSql<(i32, i32), AppUser>>::insert()).id(app_id).id(user_id)
}

/// The request for the subscriber rows of `app_id` with the users' names.
pub fn list_request(app_id: i32) -> (q: Request)
    ensures
        q.asks(SELECT_FOR_APP@, seq![Bound::Integer(app_id as i64)]),
{
    Request::new(<AppUsers<'_> as TableSql<(i32, i32), AppUser>>::select_all()).id(app_id)
}

/// Lists the subscribed users of an app once its standing has been read: the
/// rows are read only where `user_id` has permission, and a refusal is handed
/// on as it is.
/// Who has permission is not refused: what fails then is the store.
fn for_app_decided(con: &rusqlite::Connection, standing: &Standing, user_id: i32) -> (r: Result<
    Vec<AppUser>,
    StoreError,
>)
    ensures
        access_verdict(*standing, user_id) matches Err(e) ==> r == Err::<Vec<AppUser>, StoreError>(
            e,
        ),
        r matches Ok(subscribers) ==> access_verdict(*standing, user_id) is Ok && forall|i: int|
            0 <= i < subscribers@.len() ==> (#[trigger] subscribers@[i]).app_id == standing.app_id,
        access_verdict(*standing, user_id) is Ok ==> (r matches Err(e) ==> e
            == StoreError::StorageFailure),
        r matches Err(e) ==> e == StoreError::PermissionDenied || e == StoreError::StorageFailure,
{
    match standing.grants(user_id) {
        Ok(()) => match fetch(con, &list_request(standing.app_id), 5) {
            Ok(rows) => app_users_from_rows(&rows, standing.app_id),
            Err(_) => Err(StoreError::StorageFailure),
        },
        Err(e) => Err(e),
    }
}

/// Inside the transaction `tx`: the subscribed users of `app_id`, for `user_id`.
fn for_app(tx: &rusqlite::Transaction<'_>, app_id: i32, user_id: i32) -> (r: Result<
    Vec<AppUser>,
    StoreError,
>)
    ensures
        r matches Ok(subscribers) ==> forall|i: int|
            0 <= i < subscribers@.len() ==> (#[trigger] subscribers@[i]).app_id == app_id,
        r matches Err(e) ==> e == StoreError::PermissionDenied || e == StoreError::StorageFailure,
{
    let con = connection_of(tx);
    let standing = load_standing(con, app_id)?;
    for_app_decided(con, &standing, user_id)
}

/// Inside the transaction `tx`: subscribes `new_user_id` to `app_id`.
fn create(
    tx: &rusqlite::Transaction<'_>,
    app_id: i32,
    user_id: i32,
    new_user_id: i32,
) -> (r: Result<i32, StoreError>)
    ensures
        r matches Err(e) ==> e != StoreError::NotFound,
{
    insert_permitted(tx, &insert_request(app_id, new_user_id), app_id, user_id)
}

/// Inside the transaction `tx`: deletes the subscriber row `app_user_id` of `app_id`.
fn delete(
    tx: &rusqlite::Transaction<'_>,
    app_id: i32,
    user_id: i32,
    app_user_id: i32,
) -> (r: Result<usize, StoreError>)
    ensures
        r matches Ok(changed) ==> changed == 1,
        r matches Err(e) ==> e == StoreError::PermissionDenied || e == StoreError::NotFound || e
            == StoreError::StorageFailure,
{
    delete_scoped(
        tx,
        PROBE_BY_ID,
        <AppUsers<'_> as TableSql<(i32, i32), AppUser>>::delete_by_id(),
        app_id,
        user_id,
        app_user_id,
    )
}

/// The subscriber relation of a store.
pub struct AppUsers<'a> {
    con: &'a rusqlite::Connection,
}

impl<'a> AppUsers<'a> {
    /// The connection to the store that holds the rows.
    pub closed spec fn store(&self) -> &rusqlite::Connection {
        self.con
    }

    /// The subscriber relation of the store behind `con`.
    pub fn new(con: &'a rusqlite::Connection) -> (subscribers: Self)
        ensures
            subscribers.store() == con,
    {
        Self { con }
    }

    /// Creates the table of subscribed users unless it exists.
    pub fn create_table(&self) -> (r: Result<usize, rusqlite::Error>) {
        create_table(self.con)
    }

    /// The subscribed users of the app `app_id`, for its owner or one of its
    /// operators; `PermissionDenied` for anybody else.
    pub fn for_app(&self, app_id: i32, user_id: i32) -> (r: Result<Vec<AppUser>, StoreError>)
        ensures
            r matches Ok(subscribers) ==> forall|i: int|
                0 <= i < subscribers@.len() ==> (#[trigger] subscribers@[i]).app_id == app_id,
            r matches Err(e) ==> e == StoreError::PermissionDenied || e
                == StoreError::StorageFailure,
    {
        let tx = begin(self.con)?;
        let outcome = for_app(&tx, app_id, user_id);
        settle(tx, outcome)
    }

    /// Subscribes the user `new_user_id` to the app `app_id` on behalf of
    /// `user_id` and gives the id of the new row.
    ///
    /// The owner and the operators of the app may (`PermissionDenied` for
    /// anybody else). A pair that is there already is `AlreadyExists`, a user
    /// that does not exist `ForeignKeyViolation`. The permission is that of
    /// `Standing::grants`, decided in the transaction that inserts.
    pub fn create(&self, app_id: i32, user_id: i32, new_user_id: i32) -> (r: Result<
        i32,
        StoreError,
    >)
        ensures
            r matches Err(e) ==> e != StoreError::NotFound,
    {
        let tx = begin(self.con)?;
        let outcome = create(&tx, app_id, user_id, new_user_id);
        settle(tx, outcome)
    }

    /// Deletes the subscriber row `app_user_id` from the app `app_id` on
    /// behalf of `user_id` and gives the number of rows deleted, which
    /// is one.
    ///
    /// The owner and the operators of the app may (`PermissionDenied` for
    /// anybody else), and only a row of that app: a row of another app, or
    /// none, is `NotFound`. The decision is that of
    /// `Standing::allows_deletion`, taken in the transaction that deletes.
    pub fn delete(&self, app_id: i32, user_id: i32, app_user_id: i32) -> (r: Result<
        usize,
        StoreError,
    >)
        ensures
            r matches Ok(changed) ==> changed == 1,
            r matches Err(e) ==> e == StoreError::PermissionDenied || e == StoreError::NotFound
                || e == StoreError::StorageFailure,
    {
        let tx = begin(self.con)?;
        let outcome = delete(&tx, app_id, user_id, app_user_id);
        settle(tx, outcome)
    }
}

} // verus!
