//! The identity store: user records, registration and login.

use vstd::prelude::*;
use crate::credential::{credential_matches, hash_credential, verify_credential};
use crate::error::{classified_write, classify_write, SqlFailure, StoreError};
use crate::gated::{inserted_id, run, submit};
use crate::request::{escape_pattern, escaped, Bound, Request};
use crate::rows::{fetch, id_at, id_in, index_at, index_in, text_at, text_in};
use crate::sqlite::{last_insert_rowid, Cell};

verus! {

/// A failure of `std::io`.
#[verifier::external_type_specification]
#[verifier::external_body]
pub struct ExIoError(std::io::Error);

/// A user as the store holds it. `password` is the hash of the credential.
pub struct User {
    pub id: i32,
    pub name: String,
    pub username: String,
    pub password: String,
}

impl User {
    /// Whether `row` holds the columns `id`, `name`, `username`, `password`.
    pub open spec fn readable(row: Seq<Cell>) -> bool {
        id_in(row, 0) is Some && text_in(row, 1) is Some && text_in(row, 2) is Some && text_in(
            row,
            3,
        ) is Some
    }

    /// Whether `self` is what `row` holds.
    pub open spec fn describes(&self, row: Seq<Cell>) -> bool {
        id_in(row, 0) == Some(self.id) && text_in(row, 1) == Some(self.name@) && text_in(row, 2)
            == Some(self.username@) && text_in(row, 3) == Some(self.password@)
    }

    /// Decodes a row of the columns `id`, `name`, `username`, `password`.
    pub fn from_row(row: &Vec<Cell>) -> (r: Result<User, StoreError>)
        ensures
            r is Ok <==> User::readable(row@),
            r matches Ok(user) ==> user.describes(row@),
            r matches Err(e) ==> e == StoreError::StorageFailure,
    {
        match (id_at(row, 0), text_at(row, 1), text_at(row, 2), text_at(row, 3)) {
            (Some(id), Some(name), Some(username), Some(password)) => Ok(
                User { id, name, username, password },
            ),
            _ => Err(StoreError::StorageFailure),
        }
    }
}

/// A user as others see it: without the credential.
pub struct UserView {
    pub id: usize,
    pub name: String,
    pub username: String,
}

impl UserView {
    /// Whether `row` holds the columns `id`, `name`, `username`.
    pub open spec fn readable(row: Seq<Cell>) -> bool {
        index_in(row, 0) is Some && text_in(row, 1) is Some && text_in(row, 2) is Some
    }

    /// Whether `self` is what `row` holds.
    pub open spec fn describes(&self, row: Seq<Cell>) -> bool {
        index_in(row, 0) == Some(self.id) && text_in(row, 1) == Some(self.name@) && text_in(row, 2)
            == Some(self.username@)
    }

    /// Decodes a row of the columns `id`, `name`, `username`.
    pub fn from_row(row: &Vec<Cell>) -> (r: Result<UserView, StoreError>)
        ensures
            r is Ok <==> UserView::readable(row@),
            r matches Ok(user) ==> user.describes(row@),
            r matches Err(e) ==> e == StoreError::StorageFailure,
    {
        match (index_at(row, 0), text_at(row, 1), text_at(row, 2)) {
            (Some(id), Some(name), Some(username)) => Ok(UserView { id, name, username }),
            _ => Err(StoreError::StorageFailure),
        }
    }
}

/// A user to register. `password` is the credential in plain.
pub struct NewUser {
    pub name: String,
    pub username: String,
    pub password: String,
}

impl NewUser {
    /// Makes the record of a user to register. Every triple of texts is
    /// accepted.
    pub fn new(name: String, username: String, password: String) -> (r: std::io::Result<NewUser>)
        ensures
            r matches Ok(user) && user.name == name && user.username == username && user.password
                == password,
    {
        Ok(Self { name, username, password })
    }
}

/// Why a login failed.
#[derive(Clone, Copy, Debug, PartialEq, Eq, Structural)]
pub enum LoginError {
    UserNotFound,
    WrongPassword,
    /// The store failed; the field says how.
    SqliteError(StoreError),
}

/// Why a registration failed.
#[derive(Clone, Copy, Debug, PartialEq, Eq, Structural)]
pub enum RegistrationError {
    UserAlreadyExists,
    /// The store failed; the field says how.
    SqliteError(StoreError),
}

/// What a registration gives for a failed insert.
pub open spec fn registration_failure(failure: SqlFailure) -> RegistrationError {
    if classified_write(failure) == StoreError::AlreadyExists {
        RegistrationError::UserAlreadyExists
    } else {
        RegistrationError::SqliteError(classified_write(failure))
    }
}

/// What a login gives for the user that the store holds under the handle and
/// for the outcome of checking the credential against the stored hash.
pub fn judge_login(found: Option<User>, plain: &str) -> (r: Result<User, LoginError>)
    ensures
        match found {
            None => r matches Err(LoginError::UserNotFound),
            Some(user) => if credential_matches(plain@, user.password@) {
                r == Ok::<User, LoginError>(user)
            } else {
                r matches Err(LoginError::WrongPassword)
            },
        },
{
    match found {
        None => Err(LoginError::UserNotFound),
        Some(user) => {
            if verify_credential(plain, user.password.as_str()) {
                Ok(user)
            } else {
                Err(LoginError::WrongPassword)
            }
        },
    }
}

/// What a registration gives for the outcome of the insert: a violated
/// uniqueness constraint means that the handle is taken, any other failure is
/// handed on by its kind.
pub fn judge_registration(outcome: Result<usize, SqlFailure>) -> (r: Result<
    (),
    RegistrationError,
>)
    ensures
        outcome is Ok ==> r is Ok,
        outcome matches Err(failure) ==> r == Err::<(), RegistrationError>(
            registration_failure(failure),
        ),
{
    match outcome {
        Ok(_) => Ok(()),
        Err(failure) => {
            match classify_write(failure) {
                StoreError::AlreadyExists => Err(RegistrationError::UserAlreadyExists),
                kind => Err(RegistrationError::SqliteError(kind)),
            }
        },
    }
}

/// The first of `rows` as a user, if there is one.
pub fn first_user(rows: &Vec<Vec<Cell>>) -> (r: Result<Option<User>, StoreError>)
    ensures
        r is Ok <==> rows@.len() == 0 || User::readable(rows@[0]@),
        r matches Ok(found) ==> (found is Some <==> rows@.len() > 0),
        r matches Ok(Some(user)) ==> user.describes(rows@[0]@),
        r matches Err(e) ==> e == StoreError::StorageFailure,
{
    if rows.len() == 0 {
        Ok(None)
    } else {
        match User::from_row(&rows[0]) {
            Ok(user) => Ok(Some(user)),
            Err(e) => Err(e),
        }
    }
}

/// Decodes the rows of a search for users.
pub fn user_views_from_rows(rows: &Vec<Vec<Cell>>) -> (r: Result<Vec<UserView>, StoreError>)
    ensures
        r is Ok <==> forall|i: int|
            0 <= i < rows@.len() ==> UserView::readable(#[trigger] rows@[i]@),
        r matches Ok(users) ==> users@.len() == rows@.len() && forall|i: int|
            0 <= i < rows@.len() ==> (#[trigger] users@[i]).describes(rows@[i]@),
        r matches Err(e) ==> e == StoreError::StorageFailure,
{
    let mut users: Vec<UserView> = Vec::new();
    let mut i: usize = 0;
    while i < rows.len()
        invariant
            i <= rows@.len(),
            users@.len() == i,
            forall|k: int| 0 <= k < i ==> UserView::readable(#[trigger] rows@[k]@),
            forall|k: int| 0 <= k < i ==> (#[trigger] users@[k]).describes(rows@[k]@),
        decreases rows@.len() - i,
    {
        match UserView::from_row(&rows[i]) {
            Ok(user) => users.push(user),
            Err(e) => {
                return Err(e);
            },
        }
        i += 1;
    }
    Ok(users)
}

/// What the rows of a lookup of a user's id say: that there is no such user
/// where there is no row, that there is one where the first row holds the id,
/// and a failure of the store otherwise.
pub open spec fn existence_verdict(rows: Seq<Vec<Cell>>, user_id: i32) -> Result<(), StoreError> {
    if rows.len() == 0 {
        Err(StoreError::NotFound)
    } else if id_in(rows[0]@, 0) == Some(user_id) {
        Ok(())
    } else {
        Err(StoreError::StorageFailure)
    }
}

/// Judges the rows of a lookup of a user's id.
pub fn user_in_rows(rows: &Vec<Vec<Cell>>, user_id: i32) -> (r: Result<(), StoreError>)
    ensures
        r == existence_verdict(rows@, user_id),
{
    if rows.len() == 0 {
        Err(StoreError::NotFound)
    } else {
        match id_at(&rows[0], 0) {
            Some(id) => {
                if id == user_id {
                    Ok(())
                } else {
                    Err(StoreError::StorageFailure)
                }
            },
            None => Err(StoreError::StorageFailure),
        }
    }
}

/// The statement that asks for a user by id.
pub const SELECT_ID: &'static str = "SELECT id FROM users WHERE id = ?1";

/// The statement that asks for a user by handle.
pub const SELECT_BY_HANDLE: &'static str =
    "SELECT id, name, username, password FROM users WHERE username = ?1";

/// The statement that stores a user: name, handle and credential.
pub const INSERT_USER: &'static str =
    "INSERT INTO users(name, username, password) VALUES (?1, ?2, ?3)";

/// The statement that creates the table of users unless it exists.
pub const CREATE_USERS: &'static str =
    "CREATE TABLE IF NOT EXISTS users (
                    id INTEGER PRIMARY KEY,
                    name TEXT,
                    username TEXT UNIQUE,
                    password TEXT
                )";

/// The statement that asks for the users whose handle matches a pattern
/// between any two texts. `\` takes the special meaning from the character
/// after it.
pub const SEARCH_BY_HANDLE: &'static str =
    "SELECT id, name, username FROM users
        WHERE users.username LIKE '%' || ?1 || '%' ESCAPE '\\'";

/// The request that asks whether the user `user_id` is there.
pub fn existence_request(user_id: i32) -> (q: Request)
    ensures
        q.asks(SELECT_ID@, seq![Bound::Integer(user_id as i64)]),
{
    Request::new(SELECT_ID).id(user_id)
}

/// The request for the user with the handle `username`.
pub fn handle_request(username: &str) -> (q: Request)
    ensures
        q.asks(SELECT_BY_HANDLE@, seq![Bound::Text(username@)]),
{
    Request::new(SELECT_BY_HANDLE).text(username.to_owned())
}

/// The request for the users whose handle contains `query` as it stands:
/// what is bound is the pattern that matches `query` itself.
pub fn search_request(query: &str) -> (q: Request)
    ensures
        q.asks(SEARCH_BY_HANDLE@, seq![Bound::Text(escaped(query@))]),
{
    Request::new(SEARCH_BY_HANDLE).text(escape_pattern(query))
}

/// The request that stores `user` with `hash` as the credential. Only a hash
/// of the user's password is stored, never the password.
fn store_request(user: &NewUser, hash: String) -> (q: Request)
    requires
        credential_matches(user.password@, hash@),
        hash@ != user.password@,
    ensures
        q.asks(
            INSERT_USER@,
            seq![Bound::Text(user.name@), Bound::Text(user.username@), Bound::Text(hash@)],
        ),
{
    Request::new(INSERT_USER).text(user.name.clone()).text(user.username.clone()).text(hash)
}

/// Succeeds if the store holds a user with the id `user_id`; `NotFound`
/// where it holds none. The rows that the store gives are judged by
/// `user_in_rows`.
pub fn user_exists(con: &rusqlite::Connection, user_id: i32) -> (r: Result<(), StoreError>)
    ensures
        r matches Err(e) ==> e == StoreError::NotFound || e == StoreError::StorageFailure,
{
    match fetch(con, &existence_request(user_id), 1) {
        Ok(rows) => user_in_rows(&rows, user_id),
        Err(_) => Err(StoreError::StorageFailure),
    }
}

/// The user that the rows of a lookup by handle give, if there is one. A
/// row under another handle than the one asked for is a failure of the
/// store.
pub fn user_named(rows: &Vec<Vec<Cell>>, username: &str) -> (r: Result<Option<User>, StoreError>)
    ensures
        r is Ok <==> rows@.len() == 0 || (User::readable(rows@[0]@) && text_in(rows@[0]@, 2)
            == Some(username@)),
        r matches Ok(found) ==> (found is Some <==> rows@.len() > 0),
        r matches Ok(Some(user)) ==> user.describes(rows@[0]@) && user.username@ == username@,
        r matches Err(e) ==> e == StoreError::StorageFailure,
{
    match first_user(rows)? {
        Some(user) => {
            let wanted = username.to_owned();
            if user.username == wanted {
                Ok(Some(user))
            } else {
                Err(StoreError::StorageFailure)
            }
        },
        None => Ok(None),
    }
}

/// Reads the user with the handle `username`, if the store holds one.
fn lookup(con: &rusqlite::Connection, username: &str) -> (r: Result<Option<User>, StoreError>)
    ensures
        r matches Ok(Some(user)) ==> user.username@ == username@,
        r matches Err(e) ==> e == StoreError::StorageFailure,
{
    match fetch(con, &handle_request(username), 4) {
        Ok(rows) => user_named(&rows, username),
        Err(_) => Err(StoreError::StorageFailure),
    }
}

/// Logs a user in: looks the user with the handle `username` up and checks
/// `password` against the stored hash. Nobody is logged in under another
/// handle or with a password that the hash does not accept. What the store
/// holds under the handle is judged by `judge_login`.
pub fn find_user(users: &Users<'_>, username: &str, password: &str) -> (r: Result<User, LoginError>)
    ensures
        r matches Ok(user) ==> user.username@ == username@ && credential_matches(
            password@,
            user.password@,
        ),
        r matches Err(LoginError::SqliteError(e)) ==> e == StoreError::StorageFailure,
{
    match lookup(users.con, username) {
        Ok(found) => judge_login(found, password),
        Err(e) => Err(LoginError::SqliteError(e)),
    }
}

/// Stores `user` with the hash of the credential, unless the handle is taken.
/// A handle that is taken is always told as `UserAlreadyExists`; what is
/// handed on as a failure of the store is neither that nor a missing row nor
/// a denied permission. What the insert gives is decided by
/// `judge_registration`.
fn register_user(users: &Users<'_>, user: &NewUser) -> (r: Result<(), RegistrationError>)
    ensures
        r matches Err(RegistrationError::SqliteError(e)) ==> e != StoreError::AlreadyExists && e
            != StoreError::NotFound && e != StoreError::PermissionDenied,
{
    let hash = match hash_credential(user.password.as_str()) {
        Ok(hash) => hash,
        Err(e) => {
            return Err(RegistrationError::SqliteError(e));
        },
    };
    let outcome = run(users.con, &store_request(user, hash));
    judge_registration(outcome)
}

/// The user records of a store.
pub struct Users<'a> {
    con: &'a rusqlite::Connection,
}

impl<'a> Users<'a> {
    /// The connection to the store that holds the rows.
    pub closed spec fn store(&self) -> &rusqlite::Connection {
        self.con
    }

    /// The user records of the store behind `con`.
    pub fn new(con: &'a rusqlite::Connection) -> (users: Self)
        ensures
            users.store() == con,
    {
        Users { con }
    }

    /// Creates the table of users unless it exists.
    pub fn create_table(&self) -> (r: Result<usize, rusqlite::Error>) {
        submit(self.con, &Request::new(CREATE_USERS))
    }

    /// Stores `user` with the hash of the credential and gives the new id. A
    /// handle that is taken is `AlreadyExists`. What the insert gives is
    /// decided by `inserted_id`.
    pub fn insert(&self, user: NewUser) -> (r: Result<i32, StoreError>)
        ensures
            r matches Err(e) ==> e != StoreError::PermissionDenied && e != StoreError::NotFound,
    {
        let hash = hash_credential(user.password.as_str())?;
        let outcome = run(self.con, &store_request(&user, hash));
        inserted_id(outcome, last_insert_rowid(self.con))
    }

    /// The user with the handle `username`; `NotFound` where there is none.
    pub fn find_user_by_name(&self, username: &str) -> (r: Result<User, StoreError>)
        ensures
            r matches Ok(user) ==> user.username@ == username@,
            r matches Err(e) ==> e == StoreError::NotFound || e == StoreError::StorageFailure,
    {
        match lookup(self.con, username)? {
            Some(user) => Ok(user),
            None => Err(StoreError::NotFound),
        }
    }

    /// Registers `user`: see the function `register_user`.
    pub fn register_user(&self, user: &NewUser) -> (r: Result<(), RegistrationError>)
        ensures
            r matches Err(RegistrationError::SqliteError(e)) ==> e != StoreError::AlreadyExists
                && e != StoreError::NotFound && e != StoreError::PermissionDenied,
    {
        register_user(self, user)
    }

    /// Logs a user in: see the function `find_user`.
    pub fn find_user(&self, username: &str, password: &str) -> (r: Result<User, LoginError>)
        ensures
            r matches Ok(user) ==> user.username@ == username@ && credential_matches(
                password@,
                user.password@,
            ),
            r matches Err(LoginError::SqliteError(e)) ==> e == StoreError::StorageFailure,
    {
        find_user(self, username, password)
    }

    /// The users whose handle contains `query`.
    pub fn search(&self, query: &str) -> (r: Result<Vec<UserView>, StoreError>)
        ensures
            r matches Err(e) ==> e == StoreError::StorageFailure,
    {
        search(self.con, query)
    }
}

/// The users whose handle contains `query`, as the store matches it. A
/// wildcard in `query` is looked for as a character: what is handed to the
/// store is `search_request(query)`.
fn search(con: &rusqlite::Connection, query: &str) -> (r: Result<Vec<UserView>, StoreError>)
    ensures
        r matches Err(e) ==> e == StoreError::StorageFailure,
{
    match fetch(con, &search_request(query), 3) {
        Ok(rows) => user_views_from_rows(&rows),
        Err(_) => Err(StoreError::StorageFailure),
    }
}

} // verus!
