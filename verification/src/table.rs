//! The statements of a table.

use vstd::prelude::*;

verus! {

/// The statements that a table of the store is created, listed and changed
/// with. `Insert` is what a new row is made from, `Select` what a row is
/// read as. Each statement has its text, and the function that hands a
/// statement out gives that text.
pub trait TableSql<Insert, Select> {
    /// The text of the statement that creates the table unless it exists.
    spec fn create_text() -> Seq<char>;

    /// The text of the statement that lists the rows of one app.
    spec fn select_all_text() -> Seq<char>;

    /// The text of the statement that deletes a row of one app.
    spec fn delete_by_id_text() -> Seq<char>;

    /// The text of the statement that inserts a row.
    spec fn insert_text() -> Seq<char>;

    /// Creates the table unless it exists.
    fn create() -> (sql: &'static str)
        ensures
            sql@ == Self::create_text(),
    ;

    /// Lists the rows of one app: the app is the one parameter.
    fn select_all() -> (sql: &'static str)
        ensures
            sql@ == Self::select_all_text(),
    ;

    /// Deletes a row of one app: the row and the app are the parameters.
    fn delete_by_id() -> (sql: &'static str)
        ensures
            sql@ == Self::delete_by_id_text(),
    ;

    /// Inserts a row; the parameters are the columns of `Insert`.
    fn insert() -> (sql: &'static str)
        ensures
            sql@ == Self::insert_text(),
    ;
}

} // verus!
