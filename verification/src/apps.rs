//! The app registry: the apps with their owner, what describes them, their
//! visibility and their status.

use vstd::prelude::*;
use crate::error::{classified_write, classify_write, SqlFailure, StoreError};
use crate::gated::{begin, run, settle, submit};
use crate::request::{escape_pattern, escaped, Bound, Request};
use crate::rows::{
    fetch,
    flag_at,
    flag_in,
    flag_number,
    holds,
    id_at,
    id_in,
    index_at,
    index_in,
    text_at,
    text_in,
};
use crate::sqlite::{connection_of, last_insert_rowid, Cell};
use crate::users::user_exists;

verus! {

/// The lifecycle status of an app. The store keeps it as a number.
#[derive(Clone, Copy, Debug, PartialEq, Eq, Structural)]
pub enum AppStatus {
    Active,
    Passive,
    Stopped,
    Blocked,
}

impl AppStatus {
    /// The number that the store keeps for the status.
    pub open spec fn ordinal_of(self) -> usize {
        match self {
            AppStatus::Active => 0,
            AppStatus::Passive => 1,
            AppStatus::Stopped => 2,
            AppStatus::Blocked => 3,
        }
    }

    /// The status that the number `value` stands for, if it stands for one.
    pub open spec fn of_ordinal(value: usize) -> Option<AppStatus> {
        if value == 0 {
            Some(AppStatus::Active)
        } else if value == 1 {
            Some(AppStatus::Passive)
        } else if value == 2 {
            Some(AppStatus::Stopped)
        } else if value == 3 {
            Some(AppStatus::Blocked)
        } else {
            None
        }
    }

    /// The number to store for the status.
    pub fn ordinal(self) -> (value: usize)
        ensures
            value == self.ordinal_of(),
            value < 4,
    {
        match self {
            AppStatus::Active => 0,
            AppStatus::Passive => 1,
            AppStatus::Stopped => 2,
            AppStatus::Blocked => 3,
        }
    }

    /// Decodes a stored number. A number that stands for no status is
    /// refused.
    pub fn from_ordinal(value: usize) -> (status: Option<AppStatus>)
        ensures
            status == AppStatus::of_ordinal(value),
            status is Some <==> value < 4,
    {
        if value == 0 {
            Some(AppStatus::Active)
        } else if value == 1 {
            Some(AppStatus::Passive)
        } else if value == 2 {
            Some(AppStatus::Stopped)
        } else if value == 3 {
            Some(AppStatus::Blocked)
        } else {
            None
        }
    }
}

/// Every status is decoded from the number it is stored as, and a number
/// that decodes is the number of the status it decodes to.
pub proof fn status_round_trip(status: AppStatus, value: usize)
    ensures
        AppStatus::of_ordinal(status.ordinal_of()) == Some(status),
        AppStatus::of_ordinal(value) matches Some(decoded) ==> decoded.ordinal_of() == value,
{
}

/// The status in column `i` of `row`, if the column holds the number of one.
pub open spec fn status_in(row: Seq<Cell>, i: int) -> Option<AppStatus> {
    match index_in(row, i) {
        Some(value) => AppStatus::of_ordinal(value),
        None => None,
    }
}

/// Reads column `i` as a status.
pub fn status_at(row: &Vec<Cell>, i: usize) -> (r: Option<AppStatus>)
    ensures
        r == status_in(row@, i as int),
{
    match index_at(row, i) {
        Some(value) => AppStatus::from_ordinal(value),
        None => None,
    }
}

/// A status reads back from a column that holds what `insert_request` binds
/// for it.
pub proof fn stored_status_reads_back(status: AppStatus, row: Seq<Cell>, i: int)
    requires
        0 <= i < row.len(),
        holds(row[i], Bound::Integer(status.ordinal_of() as i64)),
    ensures
        status_in(row, i) == Some(status),
{
}

/// An app to create, and an app as its details are shown.
pub struct NewApp {
    pub author_id: i32,
    pub title: String,
    pub description: String,
    pub weblink: String,
    pub version: String,
    pub public: bool,
    pub status: AppStatus,
}

impl NewApp {
    /// Whether `row` holds the columns `author_id`, `title`, `description`,
    /// `weblink`, `version`, `public`, `status`.
    pub open spec fn readable(row: Seq<Cell>) -> bool {
        id_in(row, 0) is Some && text_in(row, 1) is Some && text_in(row, 2) is Some && text_in(
            row,
            3,
        ) is Some && text_in(row, 4) is Some && flag_in(row, 5) is Some && status_in(row, 6)
            is Some
    }

    /// Whether `self` is what `row` holds.
    pub open spec fn describes(&self, row: Seq<Cell>) -> bool {
        id_in(row, 0) == Some(self.author_id) && text_in(row, 1) == Some(self.title@) && text_in(
            row,
            2,
        ) == Some(self.description@) && text_in(row, 3) == Some(self.weblink@) && text_in(row, 4)
            == Some(self.version@) && flag_in(row, 5) == Some(self.public) && status_in(row, 6)
            == Some(self.status)
    }

    /// Whether the app is shown to `user_id`: a public app to everybody, a
    /// private one to its owner.
    pub open spec fn visible_to(&self, user_id: i32) -> bool {
        self.public || self.author_id == user_id
    }

    /// Decodes a row of the columns `author_id`, `title`, `description`,
    /// `weblink`, `version`, `public`, `status`.
    pub fn from_row(row: &Vec<Cell>) -> (r: Result<Self, StoreError>)
        ensures
            r is Ok <==> NewApp::readable(row@),
            r matches Ok(app) ==> app.describes(row@),
            r matches Err(e) ==> e == StoreError::StorageFailure,
    {
        match (
            id_at(row, 0),
            text_at(row, 1),
            text_at(row, 2),
            text_at(row, 3),
            text_at(row, 4),
            flag_at(row, 5),
            status_at(row, 6),
        ) {
            (
                Some(author_id),
                Some(title),
                Some(description),
                Some(weblink),
                Some(version),
                Some(public),
                Some(status),
            ) => Ok(NewApp { author_id, title, description, weblink, version, public, status }),
            _ => Err(StoreError::StorageFailure),
        }
    }
}

/// An app as the listings show it.
pub struct AppEntity {
    pub id: usize,
    pub author: usize,
    pub title: String,
    pub description: String,
    pub weblink: String,
    pub version: String,
    pub public: bool,
    pub status: AppStatus,
}

impl AppEntity {
    /// Whether `row` holds the columns `id`, `author_id`, `title`,
    /// `description`, `weblink`, `version`, `public`, `status`.
    pub open spec fn readable(row: Seq<Cell>) -> bool {
        index_in(row, 0) is Some && index_in(row, 1) is Some && text_in(row, 2) is Some && text_in(
            row,
            3,
        ) is Some && text_in(row, 4) is Some && text_in(row, 5) is Some && flag_in(row, 6)
            is Some && status_in(row, 7) is Some
    }

    /// Whether `self` is what `row` holds.
    pub open spec fn describes(&self, row: Seq<Cell>) -> bool {
        index_in(row, 0) == Some(self.id) && index_in(row, 1) == Some(self.author) && text_in(
            row,
            2,
        ) == Some(self.title@) && text_in(row, 3) == Some(self.description@) && text_in(row, 4)
            == Some(self.weblink@) && text_in(row, 5) == Some(self.version@) && flag_in(row, 6)
            == Some(self.public) && status_in(row, 7) == Some(self.status)
    }

    /// Decodes a row of the columns `id`, `author_id`, `title`,
    /// `description`, `weblink`, `version`, `public`, `status`. A status
    /// number that stands for no status makes the row unreadable.
    pub fn from_row(row: &Vec<Cell>) -> (r: Result<AppEntity, StoreError>)
        ensures
            r is Ok <==> AppEntity::readable(row@),
            r matches Ok(app) ==> app.describes(row@),
            r matches Err(e) ==> e == StoreError::StorageFailure,
    {
        match (
            index_at(row, 0),
            index_at(row, 1),
            text_at(row, 2),
            text_at(row, 3),
            text_at(row, 4),
            text_at(row, 5),
            flag_at(row, 6),
            status_at(row, 7),
        ) {
            (
                Some(id),
                Some(author),
                Some(title),
                Some(description),
                Some(weblink),
                Some(version),
                Some(public),
                Some(status),
            ) => Ok(AppEntity { id, author, title, description, weblink, version, public, status }),
            _ => Err(StoreError::StorageFailure),
        }
    }
}

/// Decodes the rows of a listing of apps.
pub fn apps_from_rows(rows: &Vec<Vec<Cell>>) -> (r: Result<Vec<AppEntity>, StoreError>)
    ensures
        r is Ok <==> forall|i: int|
            0 <= i < rows@.len() ==> AppEntity::readable(#[trigger] rows@[i]@),
        r matches Ok(apps) ==> apps@.len() == rows@.len() && forall|i: int|
            0 <= i < rows@.len() ==> (#[trigger] apps@[i]).describes(rows@[i]@),
        r matches Err(e) ==> e == StoreError::StorageFailure,
{
    let mut apps: Vec<AppEntity> = Vec::new();
    let mut i: usize = 0;
    while i < rows.len()
        invariant
            i <= rows@.len(),
            apps@.len() == i,
            forall|k: int| 0 <= k < i ==> AppEntity::readable(#[trigger] rows@[k]@),
            forall|k: int| 0 <= k < i ==> (#[trigger] apps@[k]).describes(rows@[k]@),
        decreases rows@.len() - i,
    {
        match AppEntity::from_row(&rows[i]) {
            Ok(app) => apps.push(app),
            Err(e) => {
                return Err(e);
            },
        }
        i += 1;
    }
    Ok(apps)
}

/// The app that the rows of a lookup by id give, if there is one.
pub fn first_app(rows: &Vec<Vec<Cell>>) -> (r: Result<Option<NewApp>, StoreError>)
    ensures
        r is Ok <==> rows@.len() == 0 || NewApp::readable(rows@[0]@),
        r matches Ok(found) ==> (found is Some <==> rows@.len() > 0),
        r matches Ok(Some(app)) ==> app.describes(rows@[0]@),
        r matches Err(e) ==> e == StoreError::StorageFailure,
{
    if rows.len() == 0 {
        Ok(None)
    } else {
        match NewApp::from_row(&rows[0]) {
            Ok(app) => Ok(Some(app)),
            Err(e) => Err(e),
        }
    }
}

/// What `user_id` gets to see of the app that a lookup found: the app if it
/// is public or `user_id` owns it. A private app of somebody else is withheld
/// in the same way as an app that is not there.
pub fn disclose(found: Option<NewApp>, user_id: i32) -> (shown: Option<NewApp>)
    ensures
        shown is Some <==> found is Some && found->0.visible_to(user_id),
        shown is Some ==> shown == found,
{
    match found {
        Some(app) => {
            if app.public || app.author_id == user_id {
                Some(app)
            } else {
                None
            }
        },
        None => None,
    }
}

/// What an insert of an app gives for the outcome of looking its owner up:
/// an owner who is not there is a violated foreign key.
pub open spec fn owner_verdict(owner: Result<(), StoreError>) -> Result<(), StoreError> {
    match owner {
        Ok(()) => Ok(()),
        Err(StoreError::NotFound) => Err(StoreError::ForeignKeyViolation),
        Err(e) => Err(e),
    }
}

/// Judges the outcome of looking the owner of a new app up.
pub fn owner_checked(owner: Result<(), StoreError>) -> (r: Result<(), StoreError>)
    ensures
        r == owner_verdict(owner),
{
    match owner {
        Ok(()) => Ok(()),
        Err(StoreError::NotFound) => Err(StoreError::ForeignKeyViolation),
        Err(e) => Err(e),
    }
}

/// The index that stands for a row id of the store, if it can hold it.
pub open spec fn widened(rowid: i64) -> Option<usize> {
    if 0 <= rowid <= usize::MAX {
        Some(rowid as usize)
    } else {
        None
    }
}

/// Turns a row id of the store into an index. A negative one is a failure of
/// the store.
pub fn widen(rowid: i64) -> (r: Result<usize, StoreError>)
    ensures
        r is Ok <==> widened(rowid) is Some,
        r matches Ok(id) ==> Some(id) == widened(rowid),
        r matches Err(e) ==> e == StoreError::StorageFailure,
{
    if 0 <= rowid && rowid as u64 <= usize::MAX as u64 {
        Ok(rowid as usize)
    } else {
        Err(StoreError::StorageFailure)
    }
}

/// What an insert of an app gives for the outcome of the statement and the
/// row id that the store reports after it.
pub open spec fn app_insert_verdict(outcome: Result<usize, SqlFailure>, rowid: i64) -> Result<
    usize,
    StoreError,
> {
    match outcome {
        Ok(_) => match widened(rowid) {
            Some(id) => Ok(id),
            None => Err(StoreError::StorageFailure),
        },
        Err(failure) => Err(classified_write(failure)),
    }
}

/// Decides what an insert of an app gives: the id of the new app after a
/// success, the kind of the failure otherwise.
pub fn inserted_app(outcome: Result<usize, SqlFailure>, rowid: i64) -> (r: Result<
    usize,
    StoreError,
>)
    ensures
        r == app_insert_verdict(outcome, rowid),
{
    match outcome {
        Ok(_) => widen(rowid),
        Err(failure) => Err(classify_write(failure)),
    }
}

/// The statement that stores an app: owner, title, description, link,
/// version, visibility and status.
pub const INSERT_APP: &'static str =
    "INSERT INTO apps(author_id, title, description, weblink, version, public, status)
        VALUES (?1, ?2, ?3, ?4, ?5, ?6, ?7)";

/// The statement that asks for the details of an app.
pub const SELECT_BY_ID: &'static str =
    "SELECT author_id, title, description, weblink, version, public, status
        FROM apps WHERE apps.id = ?1";

/// The statement that lists every app.
pub const SELECT_ALL: &'static str =
    "SELECT id, author_id, title, description, weblink, version, public, status FROM apps";

/// The statement that lists the apps whose title matches a pattern between
/// any two texts. The backslash takes the special meaning from the character
/// after it.
pub const SEARCH_BY_TITLE: &'static str =
    "SELECT id, author_id, title, description, weblink, version, public, status
            FROM apps WHERE apps.title LIKE '%' || ?1 || '%' ESCAPE '\\'";

/// The statement that creates the table of apps unless it exists.
pub const CREATE_APPS: &'static str =
    "CREATE TABLE IF NOT EXISTS apps (
            id INTEGER PRIMARY KEY,
            author_id INTEGER,
            title TEXT,
            description TEXT,
            weblink TEXT,
            version TEXT,
            public INTEGER,
            status INTEGER,
            FOREIGN KEY (author_id) REFERENCES users(id)
        )";

/// The request that stores `app`: what is bound is what the app holds, the
/// visibility and the status as the numbers that stand for them.
pub fn insert_request(app: NewApp) -> (q: Request)
    ensures
        q.asks(
            INSERT_APP@,
            seq![
                Bound::Integer(app.author_id as i64),
                Bound::Text(app.title@),
                Bound::Text(app.description@),
                Bound::Text(app.weblink@),
                Bound::Text(app.version@),
                Bound::Integer(flag_number(app.public)),
                Bound::Integer(app.status.ordinal_of() as i64),
            ],
        ),
{
    Request::new(INSERT_APP).id(app.author_id).text(app.title).text(app.description).text(
        app.weblink,
    ).text(app.version).flag(app.public).integer(app.status.ordinal() as i64)
}

/// The request for the details of the app `app_id`.
pub fn details_request(app_id: i64) -> (q: Request)
    ensures
        q.asks(SELECT_BY_ID@, seq![Bound::Integer(app_id)]),
{
    Request::new(SELECT_BY_ID).integer(app_id)
}

/// The request for every app.
pub fn all_request() -> (q: Request)
    ensures
        q.asks(SELECT_ALL@, Seq::<Bound>::empty()),
{
    Request::new(SELECT_ALL)
}

/// The request for the apps whose title contains `title` as it stands: what
/// is bound is the pattern that matches `title` itself.
pub fn search_request(title: &str) -> (q: Request)
    ensures
        q.asks(SEARCH_BY_TITLE@, seq![Bound::Text(escaped(title@))]),
{
    Request::new(SEARCH_BY_TITLE).text(escape_pattern(title))
}

/// Stores `app` once its owner has been looked up: the app is stored only
/// where the owner is there, and a refusal is handed on as `owner_verdict`
/// gives it.
fn insert_checked(con: &rusqlite::Connection, app: NewApp, owner: Result<(), StoreError>) -> (r:
    Result<usize, StoreError>)
    ensures
        owner_verdict(owner) matches Err(e) ==> r == Err::<usize, StoreError>(e),
        r is Ok ==> owner_verdict(owner) is Ok,
        owner_verdict(owner) is Ok ==> (r matches Err(e) ==> e != StoreError::PermissionDenied
            && e != StoreError::NotFound),
{
    match owner_checked(owner) {
        Ok(()) => {
            let outcome = run(con, &insert_request(app));
            inserted_app(outcome, last_insert_rowid(con))
        },
        Err(e) => Err(e),
    }
}

/// Inside the transaction `tx`: stores `app` and gives its id.
fn insert(tx: &rusqlite::Transaction<'_>, app: NewApp) -> (r: Result<usize, StoreError>)
    ensures
        r matches Err(e) ==> e != StoreError::PermissionDenied && e != StoreError::NotFound,
{
    let con = connection_of(tx);
    let owner = user_exists(con, app.author_id);
    insert_checked(con, app, owner)
}

/// The app `app_id` with its details, whoever asks. An id that is larger
/// than any that the store can hold cannot be bound: it is a failure of the
/// store, and the store is not asked.
fn get_app_by_id(con: &rusqlite::Connection, app_id: usize) -> (r: Result<
    Option<NewApp>,
    StoreError,
>)
    ensures
        app_id > i64::MAX ==> r == Err::<Option<NewApp>, StoreError>(
            StoreError::StorageFailure,
        ),
        r matches Err(e) ==> e == StoreError::StorageFailure,
{
    let wide: u64 = app_id as u64;
    if wide > 0x7fff_ffff_ffff_ffff {
        return Err(StoreError::StorageFailure);
    }
    match fetch(con, &details_request(wide as i64), 7) {
        Ok(rows) => first_app(&rows),
        Err(_) => Err(StoreError::StorageFailure),
    }
}

/// The app `app_id` as `user_id` gets to see it.
fn by_id_for_user(con: &rusqlite::Connection, app_id: i32, user_id: i32) -> (r: Result<
    Option<NewApp>,
    StoreError,
>)
    ensures
        r matches Ok(Some(app)) ==> app.visible_to(user_id),
        r matches Err(e) ==> e == StoreError::StorageFailure,
{
    match fetch(con, &details_request(app_id as i64), 7) {
        Ok(rows) => Ok(disclose(first_app(&rows)?, user_id)),
        Err(_) => Err(StoreError::StorageFailure),
    }
}

/// The apps of a store.
pub struct Apps<'a> {
    con: &'a rusqlite::Connection,
}

impl<'a> Apps<'a> {
    /// The connection to the store that holds the rows.
    pub closed spec fn store(&self) -> &rusqlite::Connection {
        self.con
    }

    /// The apps of the store behind `con`.
    pub fn new(con: &'a rusqlite::Connection) -> (apps: Self)
        ensures
            apps.store() == con,
    {
        Self { con }
    }

    /// Creates the table of apps unless it exists.
    pub fn create_table(&self) -> (r: Result<usize, rusqlite::Error>) {
        submit(self.con, &Request::new(CREATE_APPS))
    }

    /// Stores `app` and gives its id. An owner who does not exist is a
    /// `ForeignKeyViolation`, and nothing is stored. Whether the owner is
    /// there is judged by `owner_checked`, what the insert gives by
    /// `inserted_app`.
    pub fn insert(&self, app: NewApp) -> (r: Result<usize, StoreError>)
        ensures
            r matches Err(e) ==> e != StoreError::PermissionDenied && e != StoreError::NotFound,
    {
        let tx = begin(self.con)?;
        let outcome = insert(&tx, app);
        settle(tx, outcome)
    }

    /// Every app, whatever its visibility.
    pub fn select_all(&self) -> (r: Result<Vec<AppEntity>, StoreError>)
        ensures
            r matches Err(e) ==> e == StoreError::StorageFailure,
    {
        match fetch(self.con, &all_request(), 8) {
            Ok(rows) => apps_from_rows(&rows),
            Err(_) => Err(StoreError::StorageFailure),
        }
    }

    /// The apps whose title contains `app_title`, as the store matches it,
    /// whatever their visibility. A wildcard in `app_title` is looked for as
    /// a character: what is handed to the store is
    /// `search_request(app_title)`.
    pub fn search_by_name(&self, app_title: String) -> (r: Result<Vec<AppEntity>, StoreError>)
        ensures
            r matches Err(e) ==> e == StoreError::StorageFailure,
    {
        match fetch(self.con, &search_request(app_title.as_str()), 8) {
            Ok(rows) => apps_from_rows(&rows),
            Err(_) => Err(StoreError::StorageFailure),
        }
    }

    /// The app `app_id` with its details, whoever asks; `None` where there
    /// is no such app. An id that is larger than any that the store can hold
    /// is a failure of the store.
    pub fn by_id(&self, app_id: usize) -> (r: Result<Option<NewApp>, StoreError>)
        ensures
            app_id > i64::MAX ==> r == Err::<Option<NewApp>, StoreError>(
                StoreError::StorageFailure,
            ),
            r matches Err(e) ==> e == StoreError::StorageFailure,
    {
        get_app_by_id(self.con, app_id)
    }

    /// The app `app_id` as `user_id` gets to see it: a public app, or one
    /// that `user_id` owns. A private app of somebody else gives `None`, as
    /// an app that is not there does. What is shown of the app that the store
    /// holds is decided by `disclose`.
    pub fn by_id_for_user(&self, app_id: i32, user_id: i32) -> (r: Result<
        Option<NewApp>,
        StoreError,
    >)
        ensures
            r matches Ok(Some(app)) ==> app.visible_to(user_id),
            r matches Err(e) ==> e == StoreError::StorageFailure,
    {
        by_id_for_user(self.con, app_id, user_id)
    }
}

} // verus!
