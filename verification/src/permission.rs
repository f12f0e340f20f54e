//! The permission oracle: who may act on an app.
//!
//! The owner of an app and the operators that the owner delegated may manage
//! what belongs to the app. Only the owner may manage the operators
//! themselves. The decisions are taken on a `Standing`, the rows that the
//! store holds about one app, read in the transaction that also carries out
//! what was decided.

use vstd::prelude::*;
use crate::error::StoreError;
use crate::request::{Bound, Request};
use crate::rows::{fetch, id_at, id_in};
use crate::sqlite::Cell;

verus! {

/// A row of a relation between an app and a user.
#[derive(Clone, Copy, Debug, PartialEq, Eq, Structural)]
pub struct Relation {
    pub id: i32,
    pub app_id: i32,
    pub user_id: i32,
}

impl Relation {
    /// Whether `row` holds the three identifiers of a relation row.
    pub open spec fn readable(row: Seq<Cell>) -> bool {
        id_in(row, 0) is Some && id_in(row, 1) is Some && id_in(row, 2) is Some
    }

    /// Whether `self` is what `row` holds.
    pub open spec fn describes(&self, row: Seq<Cell>) -> bool {
        id_in(row, 0) == Some(self.id) && id_in(row, 1) == Some(self.app_id) && id_in(row, 2)
            == Some(self.user_id)
    }

    /// Decodes a row of the columns `id`, `app_id`, `user_id`.
    pub fn from_row(row: &Vec<Cell>) -> (r: Result<Relation, StoreError>)
        ensures
            r is Ok <==> Relation::readable(row@),
            r matches Ok(relation) ==> relation.describes(row@),
            r matches Err(e) ==> e == StoreError::StorageFailure,
    {
        match (id_at(row, 0), id_at(row, 1), id_at(row, 2)) {
            (Some(id), Some(app_id), Some(user_id)) => Ok(Relation { id, app_id, user_id }),
            _ => Err(StoreError::StorageFailure),
        }
    }
}

/// What the store holds about who may act on one app: its owner, if the app
/// exists, and rows of the operator relation.
pub struct Standing {
    pub app_id: i32,
    pub owner: Option<i32>,
    pub operators: Vec<Relation>,
}

/// Whether one of `rows` joins the app `app_id` and the user `user_id`.
pub open spec fn joined_in(rows: Seq<Relation>, app_id: i32, user_id: i32) -> bool {
    exists|i: int|
        0 <= i < rows.len() && (#[trigger] rows[i]).app_id == app_id && rows[i].user_id == user_id
}

/// The rows without those that have the id `id`.
pub open spec fn without_row(rows: Seq<Relation>, id: i32) -> Seq<Relation> {
    rows.filter(|row: Relation| row.id != id)
}

/// The verdict on a request to read or change what belongs to an app.
pub open spec fn access_verdict(standing: Standing, user_id: i32) -> Result<(), StoreError> {
    if standing.permits(user_id) {
        Ok(())
    } else {
        Err(StoreError::PermissionDenied)
    }
}

/// The verdict on a request to make a user an operator of an app.
pub open spec fn admission_verdict(
    standing: Standing,
    requester: i32,
    candidate_exists: bool,
) -> Result<(), StoreError> {
    if !standing.owned_by(requester) {
        Err(StoreError::PermissionDenied)
    } else if !candidate_exists {
        Err(StoreError::NotFound)
    } else {
        Ok(())
    }
}

/// The verdict on a request to remove the operator row `row`.
pub open spec fn removal_verdict(
    standing: Standing,
    requester: i32,
    row: Option<Relation>,
) -> Result<(), StoreError> {
    match row {
        Some(relation) => if relation.app_id == standing.app_id && standing.owned_by(requester) {
            Ok(())
        } else {
            Err(StoreError::NotFound)
        },
        None => Err(StoreError::NotFound),
    }
}

/// The verdict on a request to delete a row that belongs to the app
/// `row_app`, or that is not there.
pub open spec fn deletion_verdict(
    standing: Standing,
    requester: i32,
    row_app: Option<i32>,
) -> Result<(), StoreError> {
    if !standing.permits(requester) {
        Err(StoreError::PermissionDenied)
    } else if row_app != Some(standing.app_id) {
        Err(StoreError::NotFound)
    } else {
        Ok(())
    }
}

impl Standing {
    /// Whether `user_id` owns the app.
    pub open spec fn owned_by(&self, user_id: i32) -> bool {
        self.owner == Some(user_id)
    }

    /// Whether a row of the operator relation joins the app and `user_id`.
    pub open spec fn delegates_to(&self, user_id: i32) -> bool {
        joined_in(self.operators@, self.app_id, user_id)
    }

    /// Whether `user_id` is the owner or an operator of the app.
    pub open spec fn permits(&self, user_id: i32) -> bool {
        self.owned_by(user_id) || self.delegates_to(user_id)
    }

    /// Tells whether `user_id` owns the app.
    pub fn is_owner(&self, user_id: i32) -> (r: bool)
        ensures
            r == self.owned_by(user_id),
    {
        match self.owner {
            Some(owner) => owner == user_id,
            None => false,
        }
    }

    /// Tells whether `user_id` is an operator of the app.
    pub fn is_operator(&self, user_id: i32) -> (r: bool)
        ensures
            r == self.delegates_to(user_id),
    {
        let mut i: usize = 0;
        while i < self.operators.len()
            invariant
                i <= self.operators@.len(),
                forall|k: int|
                    0 <= k < i ==> !((#[trigger] self.operators@[k]).app_id == self.app_id
                        && self.operators@[k].user_id == user_id),
            decreases self.operators@.len() - i,
        {
            if self.operators[i].app_id == self.app_id && self.operators[i].user_id == user_id {
                return true;
            }
            i += 1;
        }
        false
    }

    /// Decides whether `user_id` may read or change what belongs to the app:
    /// the owner and the operators may, nobody else.
    pub fn grants(&self, user_id: i32) -> (r: Result<(), StoreError>)
        ensures
            r == access_verdict(*self, user_id),
            r is Ok <==> self.owned_by(user_id) || self.delegates_to(user_id),
    {
        if self.is_owner(user_id) || self.is_operator(user_id) {
            Ok(())
        } else {
            Err(StoreError::PermissionDenied)
        }
    }

    /// Decides whether `requester` may make a user an operator of the app.
    /// Only the owner may; the user has to exist.
    pub fn admits_operator(&self, requester: i32, candidate_exists: bool) -> (r: Result<
        (),
        StoreError,
    >)
        ensures
            r == admission_verdict(*self, requester, candidate_exists),
    {
        if !self.is_owner(requester) {
            Err(StoreError::PermissionDenied)
        } else if !candidate_exists {
            Err(StoreError::NotFound)
        } else {
            Ok(())
        }
    }

    /// Decides whether `requester` may remove the operator row `row`. The row
    /// has to belong to the app and the requester has to own the app;
    /// anything else is reported as a row that is not there.
    pub fn allows_removal(&self, requester: i32, row: Option<Relation>) -> (r: Result<
        (),
        StoreError,
    >)
        ensures
            r == removal_verdict(*self, requester, row),
    {
        match row {
            Some(relation) => {
                if relation.app_id == self.app_id && self.is_owner(requester) {
                    Ok(())
                } else {
                    Err(StoreError::NotFound)
                }
            },
            None => Err(StoreError::NotFound),
        }
    }

    /// Decides whether `requester` may delete a subscriber or broker row that
    /// belongs to the app `row_app` (`None`: there is no such row). The
    /// requester needs permission on the app, and the row has to belong to it.
    pub fn allows_deletion(&self, requester: i32, row_app: Option<i32>) -> (r: Result<
        (),
        StoreError,
    >)
        ensures
            r == deletion_verdict(*self, requester, row_app),
    {
        if self.grants(requester).is_err() {
            Err(StoreError::PermissionDenied)
        } else {
            match row_app {
                Some(app) => {
                    if app == self.app_id {
                        Ok(())
                    } else {
                        Err(StoreError::NotFound)
                    }
                },
                None => Err(StoreError::NotFound),
            }
        }
    }
}

/// Access is granted to the owner and to the users that a row of the operator
/// relation joins to the app, and to nobody else.
pub proof fn access_iff_owner_or_operator(standing: Standing, user_id: i32)
    ensures
        access_verdict(standing, user_id) is Ok <==> standing.owner == Some(user_id) || exists|
            i: int,
        |
            0 <= i < standing.operators@.len() && (#[trigger] standing.operators@[i]).app_id
                == standing.app_id && standing.operators@[i].user_id == user_id,
        !(access_verdict(standing, user_id) is Ok) ==> access_verdict(standing, user_id) == Err::<
            (),
            StoreError,
        >(StoreError::PermissionDenied),
{
}

/// Rows of which none has the id `id` are the same without that id.
proof fn without_absent_row(rows: Seq<Relation>, id: i32)
    requires
        forall|i: int| 0 <= i < rows.len() ==> (#[trigger] rows[i]).id != id,
    ensures
        without_row(rows, id) == rows,
    decreases rows.len(),
{
    reveal(Seq::filter);
    if rows.len() > 0 {
        without_absent_row(rows.drop_last(), id);
        assert(rows.drop_last().push(rows.last()) =~= rows);
    }
}

/// On the rows of a relation: a row that comes in under an id that no row
/// has, and goes out again by that id, leaves the rows as they were. So where
/// no row joined the pair before, none joins it afterwards.
pub proof fn add_then_remove_restores(rows: Seq<Relation>, row: Relation)
    requires
        forall|i: int| 0 <= i < rows.len() ==> (#[trigger] rows[i]).id != row.id,
    ensures
        without_row(rows.push(row), row.id) == rows,
        !joined_in(rows, row.app_id, row.user_id) ==> !joined_in(
            without_row(rows.push(row), row.id),
            row.app_id,
            row.user_id,
        ),
{
    reveal(Seq::filter);
    without_absent_row(rows, row.id);
    assert(rows.push(row).drop_last() =~= rows);
}

/// The owner who was allowed to add an operator is allowed to remove the row
/// that was added.
pub proof fn owner_removes_what_was_added(
    standing: Standing,
    requester: i32,
    candidate_exists: bool,
    row: Relation,
)
    requires
        admission_verdict(standing, requester, candidate_exists) is Ok,
        row.app_id == standing.app_id,
    ensures
        removal_verdict(standing, requester, Some(row)) is Ok,
{
}

/// The round trip on the rows that a standing holds. Where a request to add
/// an operator was admitted, and the rows afterwards are the rows before with
/// the new row under an id that no row had, then the requester may remove that
/// row, and the rows without it are the rows before: if the pair was not
/// joined before, it is not joined after the removal. This speaks of rows as
/// values; that the store adds and removes just these rows is not part of it.
pub proof fn round_trip_on_rows(
    before: Standing,
    after: Standing,
    requester: i32,
    candidate_exists: bool,
    row: Relation,
)
    requires
        admission_verdict(before, requester, candidate_exists) is Ok,
        row.app_id == before.app_id,
        forall|i: int|
            0 <= i < before.operators@.len() ==> (#[trigger] before.operators@[i]).id != row.id,
        !before.delegates_to(row.user_id),
        after.app_id == before.app_id,
        after.owner == before.owner,
        after.operators@ == before.operators@.push(row),
    ensures
        after.delegates_to(row.user_id),
        removal_verdict(after, requester, Some(row)) is Ok,
        without_row(after.operators@, row.id) == before.operators@,
        !joined_in(without_row(after.operators@, row.id), row.app_id, row.user_id),
{
    add_then_remove_restores(before.operators@, row);
    let last = before.operators@.len() as int;
    assert(after.operators@[last] == row);
}

/// Nobody but the owner removes an operator: a requester who does not own the
/// app is told that the row is not there, whether or not the requester is an
/// operator of the app and whatever row was named.
pub proof fn removal_is_owner_only(standing: Standing, requester: i32, row: Option<Relation>)
    requires
        standing.owner != Some(requester),
    ensures
        removal_verdict(standing, requester, row) == Err::<(), StoreError>(StoreError::NotFound),
{
}

/// Nobody but the owner adds an operator, an operator of the app included.
pub proof fn admission_is_owner_only(standing: Standing, requester: i32, candidate_exists: bool)
    requires
        standing.owner != Some(requester),
    ensures
        admission_verdict(standing, requester, candidate_exists) == Err::<(), StoreError>(
            StoreError::PermissionDenied,
        ),
{
}

/// A row of another app is never deleted: whoever asks, and with whatever
/// standing, a row that does not belong to the app the request names is
/// refused.
pub proof fn deletion_is_scoped(standing: Standing, requester: i32, row_app: Option<i32>)
    requires
        row_app != Some(standing.app_id),
    ensures
        deletion_verdict(standing, requester, row_app) is Err,
        standing.permits(requester) ==> deletion_verdict(standing, requester, row_app) == Err::<
            (),
            StoreError,
        >(StoreError::NotFound),
{
}

/// An operator may do what needs permission on the app, and still may not
/// add or remove operators.
pub proof fn operator_standing(
    standing: Standing,
    user_id: i32,
    row: Relation,
    candidate_exists: bool,
)
    requires
        standing.delegates_to(user_id),
        standing.owner != Some(user_id),
    ensures
        access_verdict(standing, user_id) is Ok,
        deletion_verdict(standing, user_id, Some(standing.app_id)) is Ok,
        admission_verdict(standing, user_id, candidate_exists) is Err,
        removal_verdict(standing, user_id, Some(row)) is Err,
{
}

/// Decodes the rows of a relation, `id`, `app_id`, `user_id` each.
pub fn relations_from_rows(rows: &Vec<Vec<Cell>>) -> (r: Result<Vec<Relation>, StoreError>)
    ensures
        r is Ok <==> forall|i: int|
            0 <= i < rows@.len() ==> Relation::readable(#[trigger] rows@[i]@),
        r matches Ok(relations) ==> relations@.len() == rows@.len() && forall|i: int|
            0 <= i < rows@.len() ==> (#[trigger] relations@[i]).describes(rows@[i]@),
        r matches Err(e) ==> e == StoreError::StorageFailure,
{
    let mut relations: Vec<Relation> = Vec::new();
    let mut i: usize = 0;
    while i < rows.len()
        invariant
            i <= rows@.len(),
            relations@.len() == i,
            forall|k: int| 0 <= k < i ==> Relation::readable(#[trigger] rows@[k]@),
            forall|k: int| 0 <= k < i ==> (#[trigger] relations@[k]).describes(rows@[k]@),
        decreases rows@.len() - i,
    {
        match Relation::from_row(&rows[i]) {
            Ok(relation) => relations.push(relation),
            Err(e) => {
                return Err(e);
            },
        }
        i += 1;
    }
    Ok(relations)
}

/// What the rows of a lookup by id give, where a row holds the id that was
/// looked up and one more identifier: nothing where there is no row, the
/// second identifier of the first row where that row is the one looked up,
/// and a failure of the store otherwise.
pub open spec fn keyed_lookup(rows: Seq<Vec<Cell>>, key: i32) -> Result<Option<i32>, StoreError> {
    if rows.len() == 0 {
        Ok(None)
    } else if id_in(rows[0]@, 0) == Some(key) && id_in(rows[0]@, 1) is Some {
        Ok(id_in(rows[0]@, 1))
    } else {
        Err(StoreError::StorageFailure)
    }
}

/// Reads the rows of a lookup by id: the owner of an app, or the app of a
/// row. A row under another id than the one looked up is not believed.
pub fn keyed_id(rows: &Vec<Vec<Cell>>, key: i32) -> (r: Result<Option<i32>, StoreError>)
    ensures
        r == keyed_lookup(rows@, key),
{
    if rows.len() == 0 {
        Ok(None)
    } else {
        match (id_at(&rows[0], 0), id_at(&rows[0], 1)) {
            (Some(id), Some(value)) => {
                if id == key {
                    Ok(Some(value))
                } else {
                    Err(StoreError::StorageFailure)
                }
            },
            _ => Err(StoreError::StorageFailure),
        }
    }
}

/// The statement that asks for an app's id and owner.
pub const OWNER_OF_APP: &'static str = "SELECT id, author_id FROM apps WHERE id = ?1";

/// The statement that asks for the operator rows of an app.
pub const OPERATORS_OF_APP: &'static str =
    "SELECT id, app_id, user_id FROM operators WHERE app_id = ?1";

/// The request for the owner of the app `app_id`.
pub fn owner_request(app_id: i32) -> (q: Request)
    ensures
        q.asks(OWNER_OF_APP@, seq![Bound::Integer(app_id as i64)]),
{
    Request::new(OWNER_OF_APP).id(app_id)
}

/// The request for the operator rows of the app `app_id`.
pub fn operators_request(app_id: i32) -> (q: Request)
    ensures
        q.asks(OPERATORS_OF_APP@, seq![Bound::Integer(app_id as i64)]),
{
    Request::new(OPERATORS_OF_APP).id(app_id)
}

/// Reads what the store holds about who may act on the app `app_id`.
pub fn load_standing(con: &rusqlite::Connection, app_id: i32) -> (r: Result<Standing, StoreError>)
    ensures
        r matches Ok(standing) ==> standing.app_id == app_id,
        r matches Err(e) ==> e == StoreError::StorageFailure,
{
    let owner = match fetch(con, &owner_request(app_id), 2) {
        Ok(rows) => keyed_id(&rows, app_id)?,
        Err(_) => {
            return Err(StoreError::StorageFailure);
        },
    };
    let operators = match fetch(con, &operators_request(app_id), 3) {
        Ok(rows) => relations_from_rows(&rows)?,
        Err(_) => {
            return Err(StoreError::StorageFailure);
        },
    };
    Ok(Standing { app_id, owner, operators })
}

/// Succeeds if `user_id` is the owner or an operator of the app `app_id`.
/// What the store holds is read by `load_standing` and judged by
/// `Standing::grants`.
pub fn has_permission(con: &rusqlite::Connection, app_id: i32, user_id: i32) -> (r: Result<
    (),
    StoreError,
>)
    ensures
        r matches Err(e) ==> e == StoreError::PermissionDenied || e == StoreError::StorageFailure,
{
    let standing = load_standing(con, app_id)?;
    standing.grants(user_id)
}

} // verus!
