//! Values, statements and the assembly of statement text.
//!
//! Table and column names come from the entities' own declarations; every
//! value that a caller supplies travels as a bound value, never as text.

use crate::models::Date;
use crate::text::{join, joined};
use vstd::prelude::*;
use vstd::string::*;

verus! {

/// A value bound to a statement's placeholder, or held by a cell of a row.
#[derive(Clone, Debug, PartialEq, Eq)]
pub enum SqlValue {
    Null,
    Integer(i64),
    Text(String),
    Date(Date),
}

/// A value with its text as a character sequence.
pub enum SqlValueView {
    Null,
    Integer(i64),
    Text(Seq<char>),
    Date(Date),
}

impl View for SqlValue {
    type V = SqlValueView;

    open spec fn view(&self) -> SqlValueView {
        match *self {
            SqlValue::Null => SqlValueView::Null,
            SqlValue::Integer(i) => SqlValueView::Integer(i),
            SqlValue::Text(s) => SqlValueView::Text(s@),
            SqlValue::Date(d) => SqlValueView::Date(d),
        }
    }
}

impl DeepView for SqlValue {
    type V = SqlValueView;

    open spec fn deep_view(&self) -> SqlValueView {
        self@
    }
}

impl SqlValue {
    /// A copy of this value.
    pub fn duplicate(&self) -> (r: SqlValue)
        ensures
            r@ == self@,
    {
        match self {
            SqlValue::Null => SqlValue::Null,
            SqlValue::Integer(i) => SqlValue::Integer(*i),
            SqlValue::Text(s) => SqlValue::Text(s.clone()),
            SqlValue::Date(d) => SqlValue::Date(*d),
        }
    }
}

/// What can be bound to a placeholder.
pub trait Value {
    /// The value that stands for `self` in a statement.
    spec fn encoded(&self) -> SqlValueView;

    /// Encodes `self` for a statement.
    fn encode(&self) -> (v: SqlValue)
        ensures
            v@ == self.encoded(),
    ;
}

impl Value for SqlValue {
    open spec fn encoded(&self) -> SqlValueView {
        self@
    }

    fn encode(&self) -> (v: SqlValue) {
        self.duplicate()
    }
}

impl Value for String {
    open spec fn encoded(&self) -> SqlValueView {
        SqlValueView::Text(self@)
    }

    fn encode(&self) -> (v: SqlValue) {
        SqlValue::Text(self.clone())
    }
}

impl Value for Date {
    open spec fn encoded(&self) -> SqlValueView {
        SqlValueView::Date(*self)
    }

    fn encode(&self) -> (v: SqlValue) {
        SqlValue::Date(*self)
    }
}

impl Value for i64 {
    open spec fn encoded(&self) -> SqlValueView {
        SqlValueView::Integer(*self)
    }

    fn encode(&self) -> (v: SqlValue) {
        SqlValue::Integer(*self)
    }
}

/// The signed number with the same 64 bits as `n`: how an unsigned number is
/// stored in an integer column.
pub open spec fn stored(n: u64) -> i64 {
    if n <= i64::MAX {
        n as i64
    } else {
        (n - 0x1_0000_0000_0000_0000) as i64
    }
}

/// The unsigned number with the same 64 bits as `i`: how an integer column
/// is read back into an unsigned number.
pub open spec fn loaded(i: i64) -> u64 {
    if i >= 0 {
        i as u64
    } else {
        (i + 0x1_0000_0000_0000_0000) as u64
    }
}

/// Reading back what was stored gives the number that was stored.
pub proof fn lemma_loaded_stored(n: u64)
    ensures
        loaded(stored(n)) == n,
{
}

/// The signed number with the same 64 bits as `n`.
pub fn to_stored(n: u64) -> (i: i64)
    ensures
        i == stored(n),
{
    if n <= i64::MAX as u64 {
        n as i64
    } else {
        let below: u64 = n - 0x8000_0000_0000_0000;
        (below as i64) + i64::MIN
    }
}

/// The unsigned number with the same 64 bits as `i`.
pub fn to_loaded(i: i64) -> (n: u64)
    ensures
        n == loaded(i),
{
    if i >= 0 {
        i as u64
    } else {
        let above: i64 = i - i64::MIN;
        (above as u64) + 0x8000_0000_0000_0000
    }
}

impl Value for u64 {
    open spec fn encoded(&self) -> SqlValueView {
        SqlValueView::Integer(stored(*self))
    }

    fn encode(&self) -> (v: SqlValue) {
        SqlValue::Integer(to_stored(*self))
    }
}

impl<'a, T: Value> Value for &'a T {
    open spec fn encoded(&self) -> SqlValueView {
        (**self).encoded()
    }

    fn encode(&self) -> (v: SqlValue) {
        (**self).encode()
    }
}

impl<T: Value> Value for Option<T> {
    open spec fn encoded(&self) -> SqlValueView {
        match self {
            Some(inner) => inner.encoded(),
            None => SqlValueView::Null,
        }
    }

    fn encode(&self) -> (v: SqlValue) {
        match self {
            Some(inner) => inner.encode(),
            None => SqlValue::Null,
        }
    }
}

/// A statement: its text, with a `?` for each bound value, and the values in
/// the order of their placeholders.
#[derive(Clone, Debug, PartialEq, Eq)]
pub struct Statement {
    pub sql: String,
    pub binds: Vec<SqlValue>,
}

/// A statement with its text as a character sequence.
pub struct StatementView {
    pub sql: Seq<char>,
    pub binds: Seq<SqlValueView>,
}

impl View for Statement {
    type V = StatementView;

    open spec fn view(&self) -> StatementView {
        StatementView { sql: self.sql@, binds: self.binds.deep_view() }
    }
}

impl DeepView for Statement {
    type V = StatementView;

    open spec fn deep_view(&self) -> StatementView {
        self@
    }
}

/// `count` placeholders.
pub open spec fn placeholders(count: nat) -> Seq<Seq<char>> {
    Seq::new(count, |i: int| seq!['?'])
}

/// The text of the comparison of each column to a placeholder, in order.
pub open spec fn comparisons(columns: Seq<Seq<char>>) -> Seq<Seq<char>> {
    Seq::new(columns.len(), |i: int| columns[i] + seq![' ', '=', ' ', '?'])
}

/// The text of every clause in order, each after a space.
pub open spec fn trailing(clauses: Seq<Seq<char>>) -> Seq<char>
    decreases clauses.len(),
{
    if clauses.len() == 0 {
        Seq::empty()
    } else {
        trailing(clauses.drop_last()) + seq![' '] + clauses.last()
    }
}

/// The text of a statement that reads `columns` from `table`: where `filters`
/// names columns, only the rows in which each of them equals its bound
/// value; then the clauses of `extra` as they are.
pub open spec fn select_text(
    table: Seq<char>,
    columns: Seq<Seq<char>>,
    filters: Seq<Seq<char>>,
    extra: Seq<Seq<char>>,
) -> Seq<char> {
    "SELECT "@ + joined(columns, ","@) + " FROM "@ + table + (if filters.len() > 0 {
        " WHERE "@ + joined(comparisons(filters), " AND "@)
    } else {
        Seq::empty()
    }) + trailing(extra)
}

/// The text of a statement that writes one row of `columns` into `table`,
/// in place of the row with the same key if there is one.
pub open spec fn upsert_text(table: Seq<char>, columns: Seq<Seq<char>>) -> Seq<char> {
    "INSERT OR REPLACE INTO "@ + table + " ("@ + joined(columns, ","@) + ") VALUES ("@ + joined(
        placeholders(columns.len()),
        ","@,
    ) + ")"@
}

/// The statement text that reads `columns` from `table`, as `select_text`
/// defines it.
pub fn select_sql(table: &str, columns: &Vec<&str>, filters: &Vec<&str>, extra: &Vec<&str>) -> (r:
    String)
    ensures
        r@ == select_text(table@, columns.deep_view(), filters.deep_view(), extra.deep_view()),
{
    let mut r = String::from_str("SELECT ");
    let listed = join(columns, ",");
    r.append(listed.as_str());
    r.append(" FROM ");
    r.append(table);
    if filters.len() > 0 {
        let ghost names = filters.deep_view();
        let mut tests: Vec<String> = Vec::new();
        let mut i: usize = 0;
        while i < filters.len()
            invariant
                i <= filters.len(),
                names == filters.deep_view(),
                tests@.len() == i,
                forall|k: int| 0 <= k < i ==> (#[trigger] tests@[k])@ == comparisons(names)[k],
            decreases filters.len() - i,
        {
            let mut test = String::from_str(filters[i]);
            test.append(" = ?");
            proof {
                reveal_strlit(" = ?");
                assert(" = ?"@ =~= seq![' ', '=', ' ', '?']);
                assert(names[i as int] == filters[i as int]@);
            }
            tests.push(test);
            i += 1;
        }
        let mut borrowed: Vec<&str> = Vec::new();
        let mut i: usize = 0;
        while i < tests.len()
            invariant
                i <= tests.len(),
                borrowed@.len() == i,
                forall|k: int| 0 <= k < i ==> (#[trigger] borrowed@[k])@ == tests@[k]@,
            decreases tests.len() - i,
        {
            borrowed.push(tests[i].as_str());
            i += 1;
        }
        assert(borrowed.deep_view() =~= comparisons(names));
        r.append(" WHERE ");
        let tested = join(&borrowed, " AND ");
        r.append(tested.as_str());
    }
    let ghost clauses = extra.deep_view();
    let ghost head = r@;
    let mut i: usize = 0;
    while i < extra.len()
        invariant
            i <= extra.len(),
            clauses == extra.deep_view(),
            r@ == head + trailing(clauses.take(i as int)),
        decreases extra.len() - i,
    {
        proof {
            assert(clauses.take(i + 1).drop_last() =~= clauses.take(i as int));
            assert(clauses.take(i + 1).last() == extra[i as int]@);
            reveal_strlit(" ");
            assert(" "@ =~= seq![' ']);
        }
        r.append(" ");
        r.append(extra[i]);
        i += 1;
    }
    proof {
        assert(clauses.take(i as int) =~= clauses);
    }
    r
}

/// The statement text that writes one row of `columns` into `table`, as
/// `upsert_text` defines it.
pub fn upsert_sql(table: &str, columns: &Vec<&str>) -> (r: String)
    ensures
        r@ == upsert_text(table@, columns.deep_view()),
{
    let mut marks: Vec<&str> = Vec::new();
    let mut i: usize = 0;
    while i < columns.len()
        invariant
            i <= columns.len(),
            marks@.len() == i,
            forall|k: int| 0 <= k < i ==> (#[trigger] marks@[k])@ == seq!['?'],
        decreases columns.len() - i,
    {
        proof {
            reveal_strlit("?");
            assert("?"@ =~= seq!['?']);
        }
        marks.push("?");
        i += 1;
    }
    assert(marks.deep_view() =~= placeholders(columns.deep_view().len()));
    let mut r = String::from_str("INSERT OR REPLACE INTO ");
    r.append(table);
    r.append(" (");
    let listed = join(columns, ",");
    r.append(listed.as_str());
    r.append(") VALUES (");
    let marked = join(&marks, ",");
    r.append(marked.as_str());
    r.append(")");
    r
}

} // verus!
