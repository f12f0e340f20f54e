//! The store: one SQLite database with the tables of the registry.

use vstd::prelude::*;
use crate::app_users::AppUsers;
use crate::apps::Apps;
use crate::brokers::Brokers;
use crate::error::StoreError;
use crate::operators::Operators;
use crate::gated::submit;
use crate::request::Request;
use crate::sqlite::{open, open_in_memory};
use crate::users::Users;

verus! {

/// The statement that switches the enforcement of foreign keys on.
pub const FOREIGN_KEYS_ON: &'static str = "PRAGMA foreign_keys = ON";

/// What a statement of the set-up gave: its count, or a failure of the
/// store.
pub fn stored(outcome: Result<usize, rusqlite::Error>) -> (r: Result<usize, StoreError>)
    ensures
        outcome is Ok <==> r is Ok,
        outcome matches Ok(count) ==> r == Ok::<usize, StoreError>(count),
        r matches Err(e) ==> e == StoreError::StorageFailure,
{
    match outcome {
        Ok(count) => Ok(count),
        Err(_) => Err(StoreError::StorageFailure),
    }
}

/// An open store. Every operation takes the connection from here, so that
/// what it reads and what it changes goes through the one handle.
pub struct SqliteDb {
    con: rusqlite::Connection,
}

impl SqliteDb {
    /// The connection that the store is open on.
    pub closed spec fn store(&self) -> &rusqlite::Connection {
        &self.con
    }

    /// Opens the store in the file at `path`, creating the file if needed.
    pub fn new(path: String) -> (r: Result<Self, rusqlite::Error>) {
        match open(path.as_str()) {
            Ok(con) => Ok(Self { con }),
            Err(e) => Err(e),
        }
    }

    /// Opens a fresh store that lives in memory only.
    pub fn in_memory() -> (r: Result<Self, rusqlite::Error>) {
        match open_in_memory() {
            Ok(con) => Ok(Self { con }),
            Err(e) => Err(e),
        }
    }

    /// Switches the enforcement of foreign keys on and creates the tables
    /// that are not there yet. The result is what the last statement gave;
    /// the first statement that fails ends the work, and its failure is
    /// handed on as a failure of the store.
    pub fn init(&self) -> (r: Result<usize, StoreError>)
        ensures
            r matches Err(e) ==> e == StoreError::StorageFailure,
    {
        stored(submit(&self.con, &Request::new(FOREIGN_KEYS_ON)))?;
        stored(self.users().create_table())?;
        stored(self.apps().create_table())?;
        stored(self.operators().create_table())?;
        stored(self.app_users().create_table())?;
        stored(self.brokers().create_table())
    }

    /// The connection to the store.
    pub fn connection(&self) -> (con: &rusqlite::Connection)
        ensures
            con == self.store(),
    {
        &self.con
    }

    /// The users of the store.
    pub fn users(&self) -> (users: Users<'_>)
        ensures
            users.store() == self.store(),
    {
        Users::new(&self.con)
    }

    /// The apps of the store.
    pub fn apps(&self) -> (apps: Apps<'_>)
        ensures
            apps.store() == self.store(),
    {
        Apps::new(&self.con)
    }

    /// The operator relation of the store.
    pub fn operators(&self) -> (operators: Operators<'_>)
        ensures
            operators.store() == self.store(),
    {
        Operators::new(&self.con)
    }

    /// The subscriber relation of the store.
    pub fn app_users(&self) -> (subscribers: AppUsers<'_>)
        ensures
            subscribers.store() == self.store(),
    {
        AppUsers::new(&self.con)
    }

    /// The brokers of the store.
    pub fn brokers(&self) -> (brokers: Brokers<'_>)
        ensures
            brokers.store() == self.store(),
    {
        Brokers::new(&self.con)
    }
}

} // verus!
