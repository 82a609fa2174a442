//! Rows as they come back from a query: cells by column name.

use crate::library::sql::{loaded, to_loaded, SqlValue, SqlValueView};
use crate::models::Date;
use crate::text::same_text;
use vstd::prelude::*;

verus! {

/// One row of a result: the name and the value of each cell, in the order of
/// the columns.
#[derive(Clone, Debug, PartialEq, Eq)]
pub struct Row {
    pub cells: Vec<(String, SqlValue)>,
}

/// A row with its names and texts as character sequences.
pub type RowView = Seq<(Seq<char>, SqlValueView)>;

impl View for Row {
    type V = RowView;

    open spec fn view(&self) -> RowView {
        self.cells.deep_view()
    }
}

impl DeepView for Row {
    type V = RowView;

    open spec fn deep_view(&self) -> RowView {
        self@
    }
}

/// The value of the first cell named `column` at or after position `from`;
/// `Null` where there is none.
pub open spec fn lookup_from(row: RowView, column: Seq<char>, from: int) -> SqlValueView
    decreases row.len() - from,
{
    if from < 0 || from >= row.len() {
        SqlValueView::Null
    } else if row[from].0 == column {
        row[from].1
    } else {
        lookup_from(row, column, from + 1)
    }
}

/// The value of the first cell named `column`; `Null` where the row has no
/// such cell.
pub open spec fn lookup(row: RowView, column: Seq<char>) -> SqlValueView {
    lookup_from(row, column, 0)
}

/// The text that a value holds, if it holds one.
pub open spec fn text_of(value: SqlValueView) -> Option<Seq<char>> {
    match value {
        SqlValueView::Text(t) => Some(t),
        _ => None,
    }
}

/// The date that a value holds, if it holds one.
pub open spec fn date_of(value: SqlValueView) -> Option<Date> {
    match value {
        SqlValueView::Date(d) => Some(d),
        _ => None,
    }
}

/// The unsigned number that a value holds, if it holds an integer.
pub open spec fn number_of(value: SqlValueView) -> Option<u64> {
    match value {
        SqlValueView::Integer(i) => Some(loaded(i)),
        _ => None,
    }
}

impl Row {
    /// The value of the first cell named `column`, if there is such a cell
    /// and it is not `Null`.
    pub fn get(&self, column: &str) -> (r: Option<&SqlValue>)
        ensures
            match r {
                Some(v) => v@ == lookup(self@, column@) && v@ != SqlValueView::Null,
                None => lookup(self@, column@) == SqlValueView::Null,
            },
    {
        let mut i: usize = 0;
        while i < self.cells.len()
            invariant
                i <= self.cells.len(),
                lookup(self@, column@) == lookup_from(self@, column@, i as int),
            decreases self.cells.len() - i,
        {
            assert(self@[i as int] == self.cells[i as int].deep_view());
            if same_text(self.cells[i].0.as_str(), column) {
                return match &self.cells[i].1 {
                    SqlValue::Null => None,
                    other => Some(other),
                };
            }
            i += 1;
        }
        None
    }

    /// The text in the cell named `column`, if it holds text.
    pub fn text(&self, column: &str) -> (r: Option<String>)
        ensures
            r.deep_view() == text_of(lookup(self@, column@)),
    {
        match self.get(column) {
            Some(SqlValue::Text(t)) => Some(t.clone()),
            _ => None,
        }
    }

    /// The date in the cell named `column`, if it holds one.
    pub fn date(&self, column: &str) -> (r: Option<Date>)
        ensures
            r == date_of(lookup(self@, column@)),
    {
        match self.get(column) {
            Some(SqlValue::Date(d)) => Some(*d),
            _ => None,
        }
    }

    /// The unsigned number in the cell named `column`, if it holds an
    /// integer.
    pub fn number(&self, column: &str) -> (r: Option<u64>)
        ensures
            r == number_of(lookup(self@, column@)),
    {
        match self.get(column) {
            Some(SqlValue::Integer(i)) => Some(to_loaded(*i)),
            _ => None,
        }
    }
}

} // verus!
