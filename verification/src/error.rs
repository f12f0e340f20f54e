//! The kinds of failure that the registry reports, and how a failure of the
//! database engine is sorted into them.

use vstd::prelude::*;

verus! {

/// Why an operation on the registry did not succeed.
#[derive(Clone, Copy, Debug, PartialEq, Eq, Structural)]
pub enum StoreError {
    /// The acting user is neither the owner nor an operator of the app.
    PermissionDenied,
    /// The app, user or relation row that was referred to is not there.
    NotFound,
    /// A row for the same pair exists already.
    AlreadyExists,
    /// A row would refer to a user or an app that does not exist.
    ForeignKeyViolation,
    /// Any other failure of the store, a row that cannot be decoded included.
    StorageFailure,
}

/// Failures of opening the database.
#[derive(Clone, Copy, Debug, PartialEq, Eq, Structural)]
pub enum SqlError {
    DbFileNotFound,
}

/// What the library reads out of an error of the database layer.
#[derive(Clone, Copy, Debug, PartialEq, Eq, Structural)]
pub enum SqlFailure {
    /// A query that had to give a row gave none.
    NoRows,
    /// The engine refused the statement; the field is its extended result code.
    Engine(i32),
    /// Anything else.
    Other,
}

/// Extended result code of a violated `UNIQUE` constraint.
pub const CONSTRAINT_UNIQUE: i32 = 2067;

/// Extended result code of a violated `PRIMARY KEY` constraint.
pub const CONSTRAINT_PRIMARY_KEY: i32 = 1555;

/// Extended result code of a violated `FOREIGN KEY` constraint.
pub const CONSTRAINT_FOREIGN_KEY: i32 = 787;

/// The kind of failure that stands for `failure`.
pub open spec fn classified(failure: SqlFailure) -> StoreError {
    match failure {
        SqlFailure::NoRows => StoreError::NotFound,
        SqlFailure::Engine(code) => if code == CONSTRAINT_UNIQUE || code
            == CONSTRAINT_PRIMARY_KEY {
            StoreError::AlreadyExists
        } else if code == CONSTRAINT_FOREIGN_KEY {
            StoreError::ForeignKeyViolation
        } else {
            StoreError::StorageFailure
        },
        SqlFailure::Other => StoreError::StorageFailure,
    }
}

/// The kind of failure that stands for the failure of a statement that
/// changes rows. Such a statement asks for no row, so a missing row is not
/// among its failures.
pub open spec fn classified_write(failure: SqlFailure) -> StoreError {
    if classified(failure) == StoreError::NotFound {
        StoreError::StorageFailure
    } else {
        classified(failure)
    }
}

/// Sorts the failure of a statement that changes rows into the registry's
/// kinds.
pub fn classify_write(failure: SqlFailure) -> (kind: StoreError)
    ensures
        kind == classified_write(failure),
        kind != StoreError::NotFound,
        kind != StoreError::PermissionDenied,
{
    match classify(failure) {
        StoreError::NotFound => StoreError::StorageFailure,
        kind => kind,
    }
}

/// Sorts a failure of the database layer into the registry's kinds.
pub fn classify(failure: SqlFailure) -> (kind: StoreError)
    ensures
        kind == classified(failure),
{
    match failure {
        SqlFailure::NoRows => StoreError::NotFound,
        SqlFailure::Engine(code) => {
            if code == CONSTRAINT_UNIQUE || code == CONSTRAINT_PRIMARY_KEY {
                StoreError::AlreadyExists
            } else if code == CONSTRAINT_FOREIGN_KEY {
                StoreError::ForeignKeyViolation
            } else {
                StoreError::StorageFailure
            }
        },
        SqlFailure::Other => StoreError::StorageFailure,
    }
}

impl StoreError {
    /// A short text for the kind, for logs and responses.
    pub fn message(&self) -> (text: &'static str)
        ensures
            text@ == kind_text(*self),
    {
        match self {
            StoreError::PermissionDenied => "permission denied",
            StoreError::NotFound => "not found",
            StoreError::AlreadyExists => "already exists",
            StoreError::ForeignKeyViolation => "foreign key violation",
            StoreError::StorageFailure => "storage failure",
        }
    }
}

/// The text that `StoreError::message` gives for each kind.
pub open spec fn kind_text(kind: StoreError) -> Seq<char> {
    match kind {
        StoreError::PermissionDenied => "permission denied"@,
        StoreError::NotFound => "not found"@,
        StoreError::AlreadyExists => "already exists"@,
        StoreError::ForeignKeyViolation => "foreign key violation"@,
        StoreError::StorageFailure => "storage failure"@,
    }
}

} // verus!
