//! What is handed to the store: a statement by its text, and the values that
//! are bound to its parameters, in order.

use vstd::prelude::*;
use vstd::string::*;
use crate::rows::{flag_number, flag_to_number};

verus! {

/// A value that is bound to a parameter of a statement.
#[derive(Debug, PartialEq, Eq)]
pub enum Param {
    Integer(i64),
    Text(String),
}

/// What a bound value holds.
pub enum Bound {
    Integer(i64),
    Text(Seq<char>),
}

impl View for Param {
    type V = Bound;

    open spec fn view(&self) -> Bound {
        match self {
            Param::Integer(value) => Bound::Integer(*value),
            Param::Text(value) => Bound::Text(value@),
        }
    }
}

/// A statement together with the values that are bound to it.
pub struct Request {
    pub sql: &'static str,
    pub params: Vec<Param>,
}

impl Request {
    /// What the bound values hold, in order.
    pub open spec fn bound(&self) -> Seq<Bound> {
        Seq::new(self.params@.len(), |i: int| self.params@[i]@)
    }

    /// Whether the request is the statement `sql` with exactly the values
    /// `bound`, in that order.
    pub open spec fn asks(&self, sql: Seq<char>, bound: Seq<Bound>) -> bool {
        self.sql@ == sql && self.bound() =~= bound
    }

    /// Whether the request binds the app `app_id` to its first parameter, as
    /// an insert of a row of that app does.
    pub open spec fn inserts_for(&self, app_id: i32) -> bool {
        self.bound().len() > 0 && self.bound()[0] == Bound::Integer(app_id as i64)
    }

    /// The statement `sql` with nothing bound yet.
    pub fn new(sql: &'static str) -> (q: Self)
        ensures
            q.sql == sql,
            q.bound() == Seq::<Bound>::empty(),
    {
        let q = Request { sql, params: Vec::new() };
        assert(q.bound() =~= Seq::<Bound>::empty());
        q
    }

    /// Binds the integer `value` to the next parameter.
    pub fn integer(self, value: i64) -> (q: Self)
        ensures
            q.sql == self.sql,
            q.bound() == self.bound().push(Bound::Integer(value)),
    {
        let Request { sql, params } = self;
        let mut params = params;
        params.push(Param::Integer(value));
        let q = Request { sql, params };
        assert(q.bound() =~= self.bound().push(Bound::Integer(value)));
        q
    }

    /// Binds the identifier `value` to the next parameter.
    pub fn id(self, value: i32) -> (q: Self)
        ensures
            q.sql == self.sql,
            q.bound() == self.bound().push(Bound::Integer(value as i64)),
    {
        self.integer(value as i64)
    }

    /// Binds the flag `value` to the next parameter: one for true, zero for
    /// false.
    pub fn flag(self, value: bool) -> (q: Self)
        ensures
            q.sql == self.sql,
            q.bound() == self.bound().push(Bound::Integer(flag_number(value))),
    {
        self.integer(flag_to_number(value))
    }

    /// Binds the text `value` to the next parameter.
    pub fn text(self, value: String) -> (q: Self)
        ensures
            q.sql == self.sql,
            q.bound() == self.bound().push(Bound::Text(value@)),
    {
        let ghost held = value@;
        let Request { sql, params } = self;
        let mut params = params;
        params.push(Param::Text(value));
        let q = Request { sql, params };
        assert(q.bound() =~= self.bound().push(Bound::Text(held)));
        q
    }
}

/// The character that takes the special meaning from the character after it
/// in a pattern.
pub const ESCAPE: char = '\\';

/// Whether `c` has a special meaning in a pattern: the two wildcards and the
/// escape character itself.
pub open spec fn is_special(c: char) -> bool {
    c == '%' || c == '_' || c == ESCAPE
}

/// What stands for the character `c` in a pattern that matches `c` itself:
/// the character, after the escape character where it has a special meaning.
pub open spec fn escaped_char(c: char) -> Seq<char> {
    if is_special(c) {
        seq![ESCAPE, c]
    } else {
        seq![c]
    }
}

/// The pattern that matches the text itself: each of its characters as
/// `escaped_char` gives it, in order.
pub open spec fn escaped(text: Seq<char>) -> Seq<char>
    decreases text.len(),
{
    if text.len() == 0 {
        Seq::empty()
    } else {
        escaped(text.drop_last()) + escaped_char(text.last())
    }
}

/// Makes the pattern that matches `text` itself, so that a wildcard in a
/// text that is searched for is looked for as a character.
pub fn escape_pattern(text: &str) -> (pattern: String)
    ensures
        pattern@ == escaped(text@),
{
    let mut pattern = String::new();
    let n = text.unicode_len();
    let mut i: usize = 0;
    while i < n
        invariant
            n == text@.len(),
            i <= n,
            pattern@ == escaped(text@.subrange(0, i as int)),
        decreases n - i,
    {
        let c = text.get_char(i);
        proof {
            reveal_strlit("\\");
            let before = text@.subrange(0, i as int);
            let upto = text@.subrange(0, i + 1);
            assert(upto.drop_last() =~= before);
            assert(upto.last() == c);
            assert(text@.subrange(i as int, i + 1) =~= seq![c]);
        }
        if c == '%' || c == '_' || c == '\\' {
            pattern.append("\\");
        }
        pattern.append(text.substring_char(i, i + 1));
        proof {
            assert(pattern@ =~= escaped(text@.subrange(0, i + 1)));
        }
        i += 1;
    }
    proof {
        assert(text@.subrange(0, n as int) =~= text@);
    }
    pattern
}

} // verus!
