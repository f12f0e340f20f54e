//! The operator registry: the users whom the owner of an app has delegated.
//! Only the owner adds and removes operators.

use vstd::prelude::*;
use crate::error::StoreError;
use crate::gated::{begin, delete_request, deleted_one, inserted_id, probe_request, run, settle, submit};
use crate::permission::{
    access_verdict,
    admission_verdict,
    load_standing,
    removal_verdict,
    Relation,
    Standing,
};
use crate::request::{Bound, Request};
use crate::rows::{fetch, id_at, id_in, text_at, text_in};
use crate::sqlite::{connection_of, last_insert_rowid, Cell};
use crate::table::TableSql;
use crate::users::user_exists;

verus! {

/// An operator of an app, with the name and the handle of the user.
pub struct Operator {
    pub id: i32,
    pub app_id: i32,
    pub user_id: i32,
    pub name: String,
    pub username: String,
}

impl Operator {
    /// Whether `row` holds the columns `id`, `app_id`, `user_id`, `name`,
    /// `username`.
    pub open spec fn readable(row: Seq<Cell>) -> bool {
        id_in(row, 0) is Some && id_in(row, 1) is Some && id_in(row, 2) is Some && text_in(row, 3)
            is Some && text_in(row, 4) is Some
    }

    /// Whether `self` is what `row` holds.
    pub open spec fn describes(&self, row: Seq<Cell>) -> bool {
        id_in(row, 0) == Some(self.id) && id_in(row, 1) == Some(self.app_id) && id_in(row, 2)
            == Some(self.user_id) && text_in(row, 3) == Some(self.name@) && text_in(row, 4) == Some(
            self.username@,
        )
    }

    /// Decodes a row of the columns `id`, `app_id`, `user_id`, `name`,
    /// `username`.
    pub fn from_row(row: &Vec<Cell>) -> (r: Result<Operator, StoreError>)
        ensures
            r is Ok <==> Operator::readable(row@),
            r matches Ok(operator) ==> operator.describes(row@),
            r matches Err(e) ==> e == StoreError::StorageFailure,
    {
        match (id_at(row, 0), id_at(row, 1), id_at(row, 2), text_at(row, 3), text_at(row, 4)) {
            (Some(id), Some(app_id), Some(user_id), Some(name), Some(username)) => Ok(
                Operator { id, app_id, user_id, name, username },
            ),
            _ => Err(StoreError::StorageFailure),
        }
    }
}

/// Whether every one of `rows` is a readable operator row of the app `app_id`.
pub open spec fn operator_rows_of(rows: Seq<Vec<Cell>>, app_id: i32) -> bool {
    forall|i: int|
        0 <= i < rows.len() ==> Operator::readable(#[trigger] rows[i]@) && id_in(rows[i]@, 1)
            == Some(app_id)
}

/// Decodes the operator rows of the app `app_id`. A row that cannot be read,
/// or that belongs to another app, is a failure of the store.
pub fn operators_from_rows(rows: &Vec<Vec<Cell>>, app_id: i32) -> (r: Result<
    Vec<Operator>,
    StoreError,
>)
    ensures
        r is Ok <==> operator_rows_of(rows@, app_id),
        r matches Ok(operators) ==> operators@.len() == rows@.len() && forall|i: int|
            0 <= i < rows@.len() ==> (#[trigger] operators@[i]).describes(rows@[i]@)
                && operators@[i].app_id == app_id,
        r matches Err(e) ==> e == StoreError::StorageFailure,
{
    let mut operators: Vec<Operator> = Vec::new();
    let mut i: usize = 0;
    while i < rows.len()
        invariant
            i <= rows@.len(),
            operators@.len() == i,
            forall|k: int|
                0 <= k < i ==> Operator::readable(#[trigger] rows@[k]@) && id_in(rows@[k]@, 1)
                    == Some(app_id),
            forall|k: int|
                0 <= k < i ==> (#[trigger] operators@[k]).describes(rows@[k]@)
                    && operators@[k].app_id == app_id,
        decreases rows@.len() - i,
    {
        match Operator::from_row(&rows[i]) {
            Ok(operator) => {
                if operator.app_id != app_id {
                    return Err(StoreError::StorageFailure);
                }
                operators.push(operator);
            },
            Err(e) => {
                return Err(e);
            },
        }
        i += 1;
    }
    Ok(operators)
}

/// The new operator that the rows read back after the insert give: the first
/// row, if it is the row `id` and joins `app_id` and `user_id`.
pub fn created_operator(rows: &Vec<Vec<Cell>>, id: i32, app_id: i32, user_id: i32) -> (r: Result<
    Operator,
    StoreError,
>)
    ensures
        r is Ok <==> rows@.len() > 0 && Operator::readable(rows@[0]@) && id_in(rows@[0]@, 0)
            == Some(id) && id_in(rows@[0]@, 1) == Some(app_id) && id_in(rows@[0]@, 2) == Some(
            user_id,
        ),
        r matches Ok(operator) ==> operator.describes(rows@[0]@) && operator.id == id
            && operator.app_id == app_id && operator.user_id == user_id,
        r matches Err(e) ==> e == StoreError::StorageFailure,
{
    if rows.len() == 0 {
        return Err(StoreError::StorageFailure);
    }
    let operator = Operator::from_row(&rows[0])?;
    if operator.id == id && operator.app_id == app_id && operator.user_id == user_id {
        Ok(operator)
    } else {
        Err(StoreError::StorageFailure)
    }
}

/// The relation row that the rows of a lookup by id give, if there is one. A
/// row under another id than the one looked up is a failure of the store.
pub fn relation_with_id(rows: &Vec<Vec<Cell>>, id: i32) -> (r: Result<Option<Relation>, StoreError>)
    ensures
        r is Ok <==> rows@.len() == 0 || (Relation::readable(rows@[0]@) && id_in(rows@[0]@, 0)
            == Some(id)),
        r matches Ok(found) ==> (found is Some <==> rows@.len() > 0),
        r matches Ok(Some(relation)) ==> relation.describes(rows@[0]@) && relation.id == id,
        r matches Err(e) ==> e == StoreError::StorageFailure,
{
    if rows.len() == 0 {
        Ok(None)
    } else {
        match Relation::from_row(&rows[0]) {
            Ok(relation) => {
                if relation.id == id {
                    Ok(Some(relation))
                } else {
                    Err(StoreError::StorageFailure)
                }
            },
            Err(e) => Err(e),
        }
    }
}

/// The statement that creates the table unless it exists.
pub const CREATE_TABLE: &'static str =
    "CREATE TABLE IF NOT EXISTS operators(
        id INTEGER PRIMARY KEY,
        app_id INTEGER,
        user_id INTEGER,
        FOREIGN KEY (app_id) REFERENCES apps(id),
        FOREIGN KEY (user_id) REFERENCES users(id),
        UNIQUE(app_id, user_id)
    )";

/// The statement that lists the rows of one app, which is its one parameter.
pub const SELECT_FOR_APP: &'static str =
    "SELECT operators.id, operators.app_id, operators.user_id, users.name, users.username
        FROM operators
        JOIN users ON users.id = operators.user_id
        WHERE operators.app_id = ?1";

/// The statement that deletes a row of one app; the row and the app are its
/// parameters.
pub const DELETE_IN_APP: &'static str =
    "DELETE FROM operators WHERE id = ?1 AND app_id = ?2";

/// The statement that inserts a row.
pub const INSERT_ROW: &'static str =
    "INSERT INTO operators (app_id, user_id) VALUES(?1, ?2)";

impl<'a> TableSql<(i32, i32), Operator> for Operators<'a> {
    open spec fn create_text() -> Seq<char> {
        CREATE_TABLE@
    }

    open spec fn select_all_text() -> Seq<char> {
        SELECT_FOR_APP@
    }

    open spec fn delete_by_id_text() -> Seq<char> {
        DELETE_IN_APP@
    }

    open spec fn insert_text() -> Seq<char> {
        INSERT_ROW@
    }

    fn create() -> (sql: &'static str) {
        CREATE_TABLE
    }

    fn select_all() -> (sql: &'static str) {
        SELECT_FOR_APP
    }

    fn delete_by_id() -> (sql: &'static str) {
        DELETE_IN_APP
    }

    fn insert() -> (sql: &'static str) {
        INSERT_ROW
    }
}

/// Creates the table unless it exists.
fn create_table(con: &rusqlite::Connection) -> (r: Result<usize, rusqlite::Error>) {
    submit(con, &Request::new(<Operators<'_> as TableSql<(i32, i32), Operator>>::create()))
}

/// The statement that reads an operator row back with the user's name and
/// handle.
pub const SELECT_BY_ID: &'static str =
    "SELECT operators.id, operators.app_id, operators.user_id, users.name, users.username
        FROM operators
        JOIN users ON users.id = operators.user_id
        WHERE operators.id = ?1";

/// The statement that looks an operator row up by its id.
pub const PROBE_BY_ID: &'static str = "SELECT id, app_id, user_id FROM operators WHERE id = ?1";

/// The request that makes `user_id` an operator of `app_id`.
pub fn insert_request(app_id: i32, user_id: i32) -> (q: Request)
    ensures
        q.asks(INSERT_ROW@, seq![Bound::Integer(app_id as i64), Bound::Integer(user_id as i64)]),
{
    Request::new(<Operators<'_> as TableSql<(i32, i32), Operator>>::insert()).id(app_id).id(user_id)
}

/// The request for the operator rows of `app_id` with the users' names.
pub fn list_request(app_id: i32) -> (q: Request)
    ensures
        q.asks(SELECT_FOR_APP@, seq![Bound::Integer(app_id as i64)]),
{
    Request::new(<Operators<'_> as TableSql<(i32, i32), Operator>>::select_all()).id(app_id)
}

/// The request that reads the operator row `id` back.
pub fn read_back_request(id: i32) -> (q: Request)
    ensures
        q.asks(SELECT_BY_ID@, seq![Bound::Integer(id as i64)]),
{
    Request::new(SELECT_BY_ID).id(id)
}

/// Makes `new_operator_id` an operator once the standing of the app has been
/// read and it is known whether the user exists: the row is inserted only
/// where `admission_verdict` allows it, and a refusal is handed on as it is.
/// The owner who names an existing user is not refused: what fails then is
/// the store, as where the pair is there already.
fn create_decided(
    con: &rusqlite::Connection,
    standing: &Standing,
    owner_id: i32,
    new_operator_id: i32,
    candidate_exists: bool,
) -> (r: Result<Operator, StoreError>)
    ensures
        admission_verdict(*standing, owner_id, candidate_exists) matches Err(e) ==> r == Err::<
            Operator,
            StoreError,
        >(e),
        r matches Ok(operator) ==> admission_verdict(*standing, owner_id, candidate_exists) is Ok
            && operator.app_id == standing.app_id && operator.user_id == new_operator_id,
        admission_verdict(*standing, owner_id, candidate_exists) is Ok ==> (r matches Err(e) ==> e
            != StoreError::PermissionDenied && e != StoreError::NotFound),
{
    match standing.admits_operator(owner_id, candidate_exists) {
        Ok(()) => {
            let outcome = run(con, &insert_request(standing.app_id, new_operator_id));
            let id = inserted_id(outcome, last_insert_rowid(con))?;
            match fetch(con, &read_back_request(id), 5) {
                Ok(rows) => created_operator(&rows, id, standing.app_id, new_operator_id),
                Err(_) => Err(StoreError::StorageFailure),
            }
        },
        Err(e) => Err(e),
    }
}

/// Inside the transaction `tx`: makes `new_operator_id` an operator of `app_id` on
/// behalf of `owner_id`.
fn create(tx: &rusqlite::Transaction<'_>, app_id: i32, owner_id: i32, new_operator_id: i32) -> (r:
    Result<Operator, StoreError>)
    ensures
        r matches Ok(operator) ==> operator.app_id == app_id && operator.user_id
            == new_operator_id,
{
    let con = connection_of(tx);
    let standing = load_standing(con, app_id)?;
    let candidate_exists = match user_exists(con, new_operator_id) {
        Ok(()) => true,
        Err(StoreError::NotFound) => false,
        Err(e) => {
            return Err(e);
        },
    };
    create_decided(con, &standing, owner_id, new_operator_id, candidate_exists)
}

/// Removes the operator row `operator_id` once the standing of the app and
/// the row have been read: the row goes only where `removal_verdict` allows
/// it, and a refusal is handed on as it is.
fn delete_decided(
    con: &rusqlite::Connection,
    standing: &Standing,
    user_id: i32,
    operator_id: i32,
    row: Option<Relation>,
) -> (r: Result<usize, StoreError>)
    ensures
        removal_verdict(*standing, user_id, row) matches Err(e) ==> r == Err::<usize, StoreError>(
            e,
        ),
        r matches Ok(changed) ==> changed == 1 && removal_verdict(*standing, user_id, row) is Ok,
        r matches Err(e) ==> e == StoreError::NotFound || e == StoreError::StorageFailure,
{
    match standing.allows_removal(user_id, row) {
        Ok(()) => deleted_one(
            run(
                con,
                &delete_request(
                    <Operators<'_> as TableSql<(i32, i32), Operator>>::delete_by_id(),
                    operator_id,
                    standing.app_id,
                ),
            ),
        ),
        Err(e) => Err(e),
    }
}

/// Inside the transaction `tx`: removes the operator row `operator_id` of `app_id`
/// on behalf of `user_id`.
fn delete(
    tx: &rusqlite::Transaction<'_>,
    app_id: i32,
    user_id: i32,
    operator_id: i32,
) -> (r: Result<usize, StoreError>)
    ensures
        r matches Ok(changed) ==> changed == 1,
        r matches Err(e) ==> e == StoreError::NotFound || e == StoreError::StorageFailure,
{
    let con = connection_of(tx);
    let standing = load_standing(con, app_id)?;
    let row = match fetch(con, &probe_request(PROBE_BY_ID, operator_id), 3) {
        Ok(rows) => relation_with_id(&rows, operator_id)?,
        Err(_) => {
            return Err(StoreError::StorageFailure);
        },
    };
    delete_decided(con, &standing, user_id, operator_id, row)
}

/// Lists the operators of an app once its standing has been read: the rows
/// are read only where `user_id` has permission, and a refusal is handed on
/// as it is.
/// Who has permission is not refused: what fails then is the store.
fn for_app_decided(con: &rusqlite::Connection, standing: &Standing, user_id: i32) -> (r: Result<
    Vec<Operator>,
    StoreError,
>)
    ensures
        access_verdict(*standing, user_id) matches Err(e) ==> r == Err::<Vec<Operator>, StoreError>(
            e,
        ),
        r matches Ok(operators) ==> access_verdict(*standing, user_id) is Ok && forall|i: int|
            0 <= i < operators@.len() ==> (#[trigger] operators@[i]).app_id == standing.app_id,
        access_verdict(*standing, user_id) is Ok ==> (r matches Err(e) ==> e
            == StoreError::StorageFailure),
        r matches Err(e) ==> e == StoreError::PermissionDenied || e == StoreError::StorageFailure,
{
    match standing.grants(user_id) {
        Ok(()) => match fetch(con, &list_request(standing.app_id), 5) {
            Ok(rows) => operators_from_rows(&rows, standing.app_id),
            Err(_) => Err(StoreError::StorageFailure),
        },
        Err(e) => Err(e),
    }
}

/// Inside the transaction `tx`: the operators of `app_id`, for `user_id`.
fn for_app(tx: &rusqlite::Transaction<'_>, app_id: i32, user_id: i32) -> (r: Result<
    Vec<Operator>,
    StoreError,
>)
    ensures
        r matches Ok(operators) ==> forall|i: int|
            0 <= i < operators@.len() ==> (#[trigger] operators@[i]).app_id == app_id,
        r matches Err(e) ==> e == StoreError::PermissionDenied || e == StoreError::StorageFailure,
{
    let con = connection_of(tx);
    let standing = load_standing(con, app_id)?;
    for_app_decided(con, &standing, user_id)
}

/// The operator relation of a store.
pub struct Operators<'a> {
    con: &'a rusqlite::Connection,
}

impl<'a> Operators<'a> {
    /// The connection to the store that holds the rows.
    pub closed spec fn store(&self) -> &rusqlite::Connection {
        self.con
    }

    /// The operator relation of the store behind `con`.
    pub fn new(con: &'a rusqlite::Connection) -> (operators: Self)
        ensures
            operators.store() == con,
    {
        Self { con }
    }

    /// Creates the table of operators unless it exists.
    pub fn create_table(&self) -> (r: Result<usize, rusqlite::Error>) {
        create_table(self.con)
    }

    /// Makes the user `new_operator_id` an operator of the app `app_id`.
    ///
    /// Only the owner of the app may: anybody else, an operator included, gets
    /// `PermissionDenied`. The user has to exist (`NotFound`) and must not be
    /// an operator of the app already (`AlreadyExists`). What is returned is
    /// the new row with the user's name and handle. The decision is that of
    /// `Standing::admits_operator`, taken in the transaction that inserts;
    /// what the insert gives is decided by `inserted_id`, and the row that is
    /// read back is held against the request by `created_operator`.
    pub fn create(&self, app_id: i32, owner_id: i32, new_operator_id: i32) -> (r: Result<
        Operator,
        StoreError,
    >)
        ensures
            r matches Ok(operator) ==> operator.app_id == app_id && operator.user_id
                == new_operator_id,
    {
        let tx = begin(self.con)?;
        let outcome = create(&tx, app_id, owner_id, new_operator_id);
        settle(tx, outcome)
    }

    /// Removes the operator row `operator_id` from the app `app_id` and gives
    /// the number of rows removed, which is one.
    ///
    /// Only the owner of the app may, and only a row of that app: anything
    /// else is `NotFound`. The decision is that of `Standing::allows_removal`,
    /// taken in the transaction that deletes.
    pub fn delete(&self, app_id: i32, user_id: i32, operator_id: i32) -> (r: Result<
        usize,
        StoreError,
    >)
        ensures
            r matches Ok(changed) ==> changed == 1,
            r matches Err(e) ==> e == StoreError::NotFound || e == StoreError::StorageFailure,
    {
        let tx = begin(self.con)?;
        let outcome = delete(&tx, app_id, user_id, operator_id);
        settle(tx, outcome)
    }

    /// The operators of the app `app_id`, for its owner or one of its
    /// operators; `PermissionDenied` for anybody else.
    pub fn for_app(&self, app_id: i32, user_id: i32) -> (r: Result<Vec<Operator>, StoreError>)
        ensures
            r matches Ok(operators) ==> forall|i: int|
                0 <= i < operators@.len() ==> (#[trigger] operators@[i]).app_id == app_id,
            r matches Err(e) ==> e == StoreError::PermissionDenied || e
                == StoreError::StorageFailure,
    {
        let tx = begin(self.con)?;
        let outcome = for_app(&tx, app_id, user_id);
        settle(tx, outcome)
    }
}

} // verus!
