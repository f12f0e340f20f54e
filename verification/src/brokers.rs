//! The broker registry: the named resources of an app. The owner and the
//! operators of the app manage them.

use vstd::prelude::*;
use vstd::string::*;
use crate::error::StoreError;
use crate::gated::{begin, delete_scoped, insert_permitted, settle, submit};
use crate::permission::{access_verdict, load_standing, Standing};
use crate::request::{Bound, Request};
use crate::rows::{fetch, flag_at, flag_in, flag_number, id_at, id_in, text_at, text_in};
use crate::sqlite::{connection_of, Cell};
use crate::table::TableSql;

verus! {

/// A broker of an app.
pub struct Broker {
    pub id: i32,
    pub app_id: i32,
    pub name: String,
    pub description: String,
    pub version: String,
    pub active: bool,
    pub stopped: bool,
}

/// A broker to create.
pub struct NewBroker {
    pub name: String,
    pub description: String,
    pub stopped: bool,
}

impl Broker {
    /// Whether `row` holds the columns `id`, `app_id`, `name`, `description`,
    /// `version`, `active`, `stopped`.
    pub open spec fn readable(row: Seq<Cell>) -> bool {
        id_in(row, 0) is Some && id_in(row, 1) is Some && text_in(row, 2) is Some && text_in(row, 3)
            is Some && text_in(row, 4) is Some && flag_in(row, 5) is Some && flag_in(row, 6)
            is Some
    }

    /// Whether `self` is what `row` holds.
    pub open spec fn describes(&self, row: Seq<Cell>) -> bool {
        id_in(row, 0) == Some(self.id) && id_in(row, 1) == Some(self.app_id) && text_in(row, 2)
            == Some(self.name@) && text_in(row, 3) == Some(self.description@) && text_in(row, 4)
            == Some(self.version@) && flag_in(row, 5) == Some(self.active) && flag_in(row, 6)
            == Some(self.stopped)
    }

    /// Decodes a row of the columns `id`, `app_id`, `name`, `description`,
    /// `version`, `active`, `stopped`.
    pub fn from_row(row: &Vec<Cell>) -> (r: Result<Broker, StoreError>)
        ensures
            r is Ok <==> Broker::readable(row@),
            r matches Ok(broker) ==> broker.describes(row@),
            r matches Err(e) ==> e == StoreError::StorageFailure,
    {
        match (
            id_at(row, 0),
            id_at(row, 1),
            text_at(row, 2),
            text_at(row, 3),
            text_at(row, 4),
            flag_at(row, 5),
            flag_at(row, 6),
        ) {
            (
                Some(id),
                Some(app_id),
                Some(name),
                Some(description),
                Some(version),
                Some(active),
                Some(stopped),
            ) => Ok(Broker { id, app_id, name, description, version, active, stopped }),
            _ => Err(StoreError::StorageFailure),
        }
    }
}

/// Whether every one of `rows` is a readable broker row of the app `app_id`.
pub open spec fn broker_rows_of(rows: Seq<Vec<Cell>>, app_id: i32) -> bool {
    forall|i: int|
        0 <= i < rows.len() ==> Broker::readable(#[trigger] rows[i]@) && id_in(rows[i]@, 1) == Some(
            app_id,
        )
}

/// Decodes the broker rows of the app `app_id`. A row that cannot be read, or
/// that belongs to another app, is a failure of the store.
pub fn brokers_from_rows(rows: &Vec<Vec<Cell>>, app_id: i32) -> (r: Result<Vec<Broker>, StoreError>)
    ensures
        r is Ok <==> broker_rows_of(rows@, app_id),
        r matches Ok(brokers) ==> brokers@.len() == rows@.len() && forall|i: int|
            0 <= i < rows@.len() ==> (#[trigger] brokers@[i]).describes(rows@[i]@)
                && brokers@[i].app_id == app_id,
        r matches Err(e) ==> e == StoreError::StorageFailure,
{
    let mut brokers: Vec<Broker> = Vec::new();
    let mut i: usize = 0;
    while i < rows.len()
        invariant
            i <= rows@.len(),
            brokers@.len() == i,
            forall|k: int|
                0 <= k < i ==> Broker::readable(#[trigger] rows@[k]@) && id_in(rows@[k]@, 1)
                    == Some(app_id),
            forall|k: int|
                0 <= k < i ==> (#[trigger] brokers@[k]).describes(rows@[k]@) && brokers@[k].app_id
                    == app_id,
        decreases rows@.len() - i,
    {
        match Broker::from_row(&rows[i]) {
            Ok(broker) => {
                if broker.app_id != app_id {
                    return Err(StoreError::StorageFailure);
                }
                brokers.push(broker);
            },
            Err(e) => {
                return Err(e);
            },
        }
        i += 1;
    }
    Ok(brokers)
}

/// The statement that creates the table unless it exists.
pub const CREATE_TABLE: &'static str =
    "CREATE TABLE IF NOT EXISTS brokers (
            id INTEGER PRIMARY KEY,
            app_id INTEGER,
            name TEXT,
            description TEXT,
            version TEXT,
            active INTEGER,
            stopped INTEGER,
            FOREIGN KEY(app_id) REFERENCES apps(id)
        )";

/// The statement that lists the rows of one app, which is its one parameter.
pub const SELECT_FOR_APP: &'static str =
    "SELECT id, app_id, name, description, version, active, stopped
        FROM brokers WHERE app_id = ?1";

/// The statement that deletes a row of one app; the row and the app are its
/// parameters.
pub const DELETE_IN_APP: &'static str =
    "DELETE FROM brokers WHERE id = ?1 AND app_id = ?2";

/// The statement that inserts a row; its parameters are the app, the name,
/// the description, the stopped flag, the version and the active flag.
pub const INSERT_ROW: &'static str =
    "INSERT INTO brokers(app_id, name, description, stopped, version, active)
        VALUES (?1, ?2, ?3, ?4, ?5, ?6)";

/// The version that a new broker has.
pub const INITIAL_VERSION: &'static str = "0.0.0";

/// The statement that asks for a broker's id and app.
pub const PROBE_BY_ID: &'static str = "SELECT id, app_id FROM brokers WHERE id = ?1";

impl<'a> TableSql<NewBroker, Broker> for Brokers<'a> {
    open spec fn create_text() -> Seq<char> {
        CREATE_TABLE@
    }

    open spec fn select_all_text() -> Seq<char> {
        SELECT_FOR_APP@
    }

    open spec fn delete_by_id_text() -> Seq<char> {
        DELETE_IN_APP@
    }

    open spec fn insert_text() -> Seq<char> {
        INSERT_ROW@
    }

    fn create() -> (sql: &'static str) {
        CREATE_TABLE
    }

    fn select_all() -> (sql: &'static str) {
        SELECT_FOR_APP
    }

    fn delete_by_id() -> (sql: &'static str) {
        DELETE_IN_APP
    }

    fn insert() -> (sql: &'static str) {
        INSERT_ROW
    }
}

/// Creates the table unless it exists.
fn create_table(con: &rusqlite::Connection) -> (r: Result<usize, rusqlite::Error>) {
    submit(con, &Request::new(<Brokers<'_> as TableSql<NewBroker, Broker>>::create()))
}

/// The request that stores `new_broker` as a broker of `app_id`. A new
/// broker has the version `0.0.0` and is not active.
pub fn insert_request(app_id: i32, new_broker: NewBroker) -> (q: Request)
    ensures
        q.asks(
            INSERT_ROW@,
            seq![
                Bound::Integer(app_id as i64),
                Bound::Text(new_broker.name@),
                Bound::Text(new_broker.description@),
                Bound::Integer(flag_number(new_broker.stopped)),
                Bound::Text(INITIAL_VERSION@),
                Bound::Integer(flag_number(false)),
            ],
        ),
{
    Request::new(<Brokers<'_> as TableSql<NewBroker, Broker>>::insert()).id(app_id).text(
        new_broker.name,
    ).text(new_broker.description).flag(new_broker.stopped).text(
        String::from_str(INITIAL_VERSION),
    ).flag(false)
}

/// The request for the brokers of `app_id`.
pub fn list_request(app_id: i32) -> (q: Request)
    ensures
        q.asks(SELECT_FOR_APP@, seq![Bound::Integer(app_id as i64)]),
{
    Request::new(<Brokers<'_> as TableSql<NewBroker, Broker>>::select_all()).id(app_id)
}

/// Lists the brokers of an app once its standing has been read: the rows are
/// read only where `user_id` has permission, and a refusal is handed on as it
/// is.
/// Who has permission is not refused: what fails then is the store.
fn for_app_decided(con: &rusqlite::Connection, standing: &Standing, user_id: i32) -> (r: Result<
    Vec<Broker>,
    StoreError,
>)
    ensures
        access_verdict(*standing, user_id) matches Err(e) ==> r == Err::<Vec<Broker>, StoreError>(
            e,
        ),
        r matches Ok(brokers) ==> access_verdict(*standing, user_id) is Ok && forall|i: int|
            0 <= i < brokers@.len() ==> (#[trigger] brokers@[i]).app_id == standing.app_id,
        access_verdict(*standing, user_id) is Ok ==> (r matches Err(e) ==> e
            == StoreError::StorageFailure),
        r matches Err(e) ==> e == StoreError::PermissionDenied || e == StoreError::StorageFailure,
{
    match standing.grants(user_id) {
        Ok(()) => match fetch(con, &list_request(standing.app_id), 7) {
            Ok(rows) => brokers_from_rows(&rows, standing.app_id),
            Err(_) => Err(StoreError::StorageFailure),
        },
        Err(e) => Err(e),
    }
}

/// Inside the transaction `tx`: the brokers of `app_id`, for `user_id`.
fn for_app(tx: &rusqlite::Transaction<'_>, app_id: i32, user_id: i32) -> (r: Result<
    Vec<Broker>,
    StoreError,
>)
    ensures
        r matches Ok(brokers) ==> forall|i: int|
            0 <= i < brokers@.len() ==> (#[trigger] brokers@[i]).app_id == app_id,
        r matches Err(e) ==> e == StoreError::PermissionDenied || e == StoreError::StorageFailure,
{
    let con = connection_of(tx);
    let standing = load_standing(con, app_id)?;
    for_app_decided(con, &standing, user_id)
}

/// Inside the transaction `tx`: creates a broker of `app_id`. What is stored
/// for it is what `insert_request` binds.
fn create(tx: &rusqlite::Transaction<'_>, app_id: i32, user_id: i32, new_broker: NewBroker) -> (r:
    Result<i32, StoreError>)
    ensures
        r matches Err(e) ==> e != StoreError::NotFound,
{
    insert_permitted(tx, &insert_request(app_id, new_broker), app_id, user_id)
}

/// Inside the transaction `tx`: deletes the broker `broker_id` of `app_id`.
fn delete(tx: &rusqlite::Transaction<'_>, app_id: i32, user_id: i32, broker_id: i32) -> (r: Result<
    usize,
    StoreError,
>)
    ensures
        r matches Ok(changed) ==> changed == 1,
        r matches Err(e) ==> e == StoreError::PermissionDenied || e == StoreError::NotFound || e
            == StoreError::StorageFailure,
{
    delete_scoped(
        tx,
        PROBE_BY_ID,
        <Brokers<'_> as TableSql<NewBroker, Broker>>::delete_by_id(),
        app_id,
        user_id,
        broker_id,
    )
}

/// The brokers of a store.
pub struct Brokers<'a> {
    con: &'a rusqlite::Connection,
}

impl<'a> Brokers<'a> {
    /// The connection to the store that holds the rows.
    pub closed spec fn store(&self) -> &rusqlite::Connection {
        self.con
    }

    /// The brokers of the store behind `con`.
    pub fn new(con: &'a rusqlite::Connection) -> (brokers: Self)
        ensures
            brokers.store() == con,
    {
        Self { con }
    }

    /// Creates the table of brokers unless it exists.
    pub fn create_table(&self) -> (r: Result<usize, rusqlite::Error>) {
        create_table(self.con)
    }

    /// The brokers of the app `app_id`, for its owner or one of its
    /// operators; `PermissionDenied` for anybody else.
    pub fn for_app(&self, app_id: i32, user_id: i32) -> (r: Result<Vec<Broker>, StoreError>)
        ensures
            r matches Ok(brokers) ==> forall|i: int|
                0 <= i < brokers@.len() ==> (#[trigger] brokers@[i]).app_id == app_id,
            r matches Err(e) ==> e == StoreError::PermissionDenied || e
                == StoreError::StorageFailure,
    {
        let tx = begin(self.con)?;
        let outcome = for_app(&tx, app_id, user_id);
        settle(tx, outcome)
    }

    /// Creates a broker of the app `app_id` on behalf of `user_id` and gives
    /// its id. The owner and the operators of the app may (`PermissionDenied`
    /// for anybody else). The permission is that of `Standing::grants`,
    /// decided in the transaction that inserts.
    pub fn create(&self, app_id: i32, user_id: i32, new_broker: NewBroker) -> (r: Result<
        i32,
        StoreError,
    >)
        ensures
            r matches Err(e) ==> e != StoreError::NotFound,
    {
        let tx = begin(self.con)?;
        let outcome = create(&tx, app_id, user_id, new_broker);
        settle(tx, outcome)
    }

    /// Deletes the broker `broker_id` of the app `app_id` on behalf of
    /// `user_id` and gives the number of rows deleted, which
    /// is one.
    ///
    /// The owner and the operators of the app may (`PermissionDenied` for
    /// anybody else), and only a broker of that app: a broker of another app,
    /// or none, is `NotFound`. The decision is that of
    /// `Standing::allows_deletion`, taken in the transaction that deletes.
    pub fn delete(&self, app_id: i32, user_id: i32, broker_id: i32) -> (r: Result<
        usize,
        StoreError,
    >)
        ensures
            r matches Ok(changed) ==> changed == 1,
            r matches Err(e) ==> e == StoreError::PermissionDenied || e == StoreError::NotFound
                || e == StoreError::StorageFailure,
    {
        let tx = begin(self.con)?;
        let outcome = delete(&tx, app_id, user_id, broker_id);
        settle(tx, outcome)
    }
}

} // verus!
