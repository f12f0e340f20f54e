//! Result rows as plain values, and the checked reading of their columns.

use vstd::prelude::*;
use crate::request::{Bound, Request};
use crate::sqlite::{cell_of, query, Cell};

verus! {

/// The integer in column `i` of `row`, if the column is there and holds one.
pub open spec fn int_in(row: Seq<Cell>, i: int) -> Option<i64> {
    if 0 <= i < row.len() {
        match row[i] {
            Cell::Integer(n) => Some(n),
            _ => None,
        }
    } else {
        None
    }
}

/// The integer in column `i` of `row`, if it is one that an identifier can hold.
pub open spec fn id_in(row: Seq<Cell>, i: int) -> Option<i32> {
    match int_in(row, i) {
        Some(n) => if i32::MIN <= n <= i32::MAX {
            Some(n as i32)
        } else {
            None
        },
        None => None,
    }
}

/// The integer in column `i` of `row`, if it is not negative.
pub open spec fn index_in(row: Seq<Cell>, i: int) -> Option<usize> {
    match int_in(row, i) {
        Some(n) => if 0 <= n <= usize::MAX {
            Some(n as usize)
        } else {
            None
        },
        None => None,
    }
}

/// The flag in column `i` of `row`: an integer, true unless it is zero.
pub open spec fn flag_in(row: Seq<Cell>, i: int) -> Option<bool> {
    match int_in(row, i) {
        Some(n) => Some(n != 0),
        None => None,
    }
}

/// The text in column `i` of `row`, if the column is there and holds text.
pub open spec fn text_in(row: Seq<Cell>, i: int) -> Option<Seq<char>> {
    if 0 <= i < row.len() {
        match row[i] {
            Cell::Text(s) => Some(s@),
            _ => None,
        }
    } else {
        None
    }
}

/// Reads column `i` as an integer.
pub fn int_at(row: &Vec<Cell>, i: usize) -> (r: Option<i64>)
    ensures
        r == int_in(row@, i as int),
{
    if i < row.len() {
        match &row[i] {
            Cell::Integer(n) => Some(*n),
            _ => None,
        }
    } else {
        None
    }
}

/// Reads column `i` as an identifier.
pub fn id_at(row: &Vec<Cell>, i: usize) -> (r: Option<i32>)
    ensures
        r == id_in(row@, i as int),
{
    match int_at(row, i) {
        Some(n) => {
            if -2147483648 <= n && n <= 2147483647 {
                Some(n as i32)
            } else {
                None
            }
        },
        None => None,
    }
}

/// Reads column `i` as an integer that is not negative.
pub fn index_at(row: &Vec<Cell>, i: usize) -> (r: Option<usize>)
    ensures
        r == index_in(row@, i as int),
{
    match int_at(row, i) {
        Some(n) => {
            if 0 <= n && n as u64 <= usize::MAX as u64 {
                Some(n as usize)
            } else {
                None
            }
        },
        None => None,
    }
}

/// Reads column `i` as a flag.
pub fn flag_at(row: &Vec<Cell>, i: usize) -> (r: Option<bool>)
    ensures
        r == flag_in(row@, i as int),
{
    match int_at(row, i) {
        Some(n) => Some(n != 0),
        None => None,
    }
}

/// Reads column `i` as text.
pub fn text_at(row: &Vec<Cell>, i: usize) -> (r: Option<String>)
    ensures
        match text_in(row@, i as int) {
            Some(t) => r matches Some(s) && s@ == t,
            None => r is None,
        },
{
    if i < row.len() {
        match &row[i] {
            Cell::Text(s) => Some(s.clone()),
            _ => None,
        }
    } else {
        None
    }
}

/// The number that the store keeps for a flag.
pub open spec fn flag_number(flag: bool) -> i64 {
    if flag {
        1
    } else {
        0
    }
}

/// The number to store for a flag: one for true, zero for false.
pub fn flag_to_number(flag: bool) -> (n: i64)
    ensures
        n == flag_number(flag),
{
    if flag {
        1
    } else {
        0
    }
}

/// Whether the column `cell` holds what `bound` binds.
pub open spec fn holds(cell: Cell, bound: Bound) -> bool {
    match (cell, bound) {
        (Cell::Integer(stored), Bound::Integer(given)) => stored == given,
        (Cell::Text(stored), Bound::Text(given)) => stored@ == given,
        _ => false,
    }
}

/// A flag reads back from a column that holds what `Request::flag` binds
/// for it.
pub proof fn stored_flag_reads_back(flag: bool, row: Seq<Cell>, i: int)
    requires
        0 <= i < row.len(),
        holds(row[i], Bound::Integer(flag_number(flag))),
    ensures
        flag_in(row, i) == Some(flag),
{
}

/// An identifier reads back from a column that holds what `Request::id`
/// binds for it.
pub proof fn stored_id_reads_back(id: i32, row: Seq<Cell>, i: int)
    requires
        0 <= i < row.len(),
        holds(row[i], Bound::Integer(id as i64)),
    ensures
        id_in(row, i) == Some(id),
{
}

/// A text reads back from a column that holds what `Request::text` binds
/// for it.
pub proof fn stored_text_reads_back(text: Seq<char>, row: Seq<Cell>, i: int)
    requires
        0 <= i < row.len(),
        holds(row[i], Bound::Text(text)),
    ensures
        text_in(row, i) == Some(text),
{
}

/// Hands `request` to the store and gives the rows that come back as plain
/// values, `width` columns each.
pub(crate) fn fetch(con: &rusqlite::Connection, request: &Request, width: usize) -> (r: Result<
    Vec<Vec<Cell>>,
    rusqlite::Error,
>)
    ensures
        r matches Ok(rows) ==> forall|i: int|
            0 <= i < rows@.len() ==> (#[trigger] rows@[i])@.len() == width,
{
    let raw = query(con, request.sql, &request.params, width)?;
    let mut rows: Vec<Vec<Cell>> = Vec::new();
    let mut i: usize = 0;
    while i < raw.len()
        invariant
            i <= raw@.len(),
            rows@.len() == i,
            forall|k: int| 0 <= k < raw@.len() ==> (#[trigger] raw@[k])@.len() == width,
            forall|k: int| 0 <= k < rows@.len() ==> (#[trigger] rows@[k])@.len() == width,
        decreases raw@.len() - i,
    {
        let mut cells: Vec<Cell> = Vec::new();
        let mut j: usize = 0;
        while j < raw[i].len()
            invariant
                i < raw@.len(),
                j <= raw@[i as int]@.len(),
                cells@.len() == j,
            decreases raw@[i as int]@.len() - j,
        {
            cells.push(cell_of(&raw[i][j]));
            j += 1;
        }
        rows.push(cells);
        i += 1;
    }
    Ok(rows)
}

} // verus!
