//! Maps entities to tables: statements to read and write them, rows decoded
//! into them, and the order in which a stored entity's parts are written.
//!
//! Nothing here touches storage. A caller sends the statements that these
//! functions build and hands back the rows that come in answer.

pub mod paths;
pub mod round_trip;
pub mod row;
pub mod sql;
pub mod store;
pub mod tables;

pub use crate::library::paths::{LibraryRelease, LibraryTrack};
pub use crate::library::store::Store;

use crate::error::{Error, ErrorView};
use crate::library::row::{Row, RowView};
use crate::models::{Artist, ArtistView};
use crate::library::sql::{
    select_sql, select_text, upsert_sql, upsert_text, SqlValue, SqlValueView, Statement,
    StatementView, Value,
};
use vstd::prelude::*;
use vstd::string::*;

verus! {

/// The layout of the library on disk.
#[derive(Clone, Debug, PartialEq, Eq)]
pub struct Settings {
    /// The directory that holds the library.
    pub library: String,
    /// The template of a release's directory name.
    pub release_name: String,
    /// The template of a track's file name, without its extension.
    pub track_name: String,
}

/// What the library was started with. It is made once and handed to every
/// operation that needs storage or settings.
#[derive(Clone, Debug, PartialEq, Eq)]
pub struct Context {
    /// Whether a connection pool to the storage was initialised.
    pub database: bool,
    /// The settings, once they were read.
    pub settings: Option<Settings>,
}

/// The text of the error that is reported where no storage was initialised.
pub open spec fn no_database() -> ErrorView {
    ErrorView::Configuration("Could not get database"@)
}

impl Context {
    /// Fails where no storage was initialised.
    pub fn require_database(&self) -> (r: Result<(), Error>)
        ensures
            self.database ==> r is Ok,
            !self.database ==> r is Err && r->Err_0@ == no_database(),
    {
        if self.database {
            Ok(())
        } else {
            Err(Error::Configuration(String::from_str("Could not get database")))
        }
    }
}

/// `decoded` is what `expected` says, the entity by its view and the error
/// by its view.
pub open spec fn agrees<T: View>(decoded: Result<T, Error>, expected: Result<T::V, ErrorView>) -> bool {
    match decoded {
        Ok(entity) => expected == Ok::<T::V, ErrorView>(entity@),
        Err(error) => expected == Err::<T::V, ErrorView>(error@),
    }
}

/// The text of the error that is reported where an entity is handed another
/// number of credit lists than it has relationships.
pub open spec fn wrong_relationships() -> ErrorView {
    ErrorView::Precondition("Wrong number of relationships"@)
}

/// An entity that has a table of its own.
pub trait InTable: Sized + View {
    /// The name of the entity's table.
    spec fn table_spec() -> Seq<char>;

    /// The names of the table's columns, in order.
    spec fn fields_spec() -> Seq<Seq<char>>;

    /// The entity that a row of the table holds, or why it holds none.
    spec fn decoded(row: RowView) -> Result<Self::V, ErrorView>;

    /// The statements that read the entity's relationships, one for each.
    spec fn relationships_spec(&self) -> Seq<StatementView>;

    /// The entity with `credits` for its relationships, one credit list for
    /// each in the order of `relationships_spec`.
    spec fn filled(&self, credits: Seq<Seq<ArtistView>>) -> Self::V;

    /// The name of the entity's table.
    fn table() -> (t: &'static str)
        ensures
            t@ == Self::table_spec(),
    ;

    /// The names of the table's columns, in order.
    fn fields() -> (f: Vec<&'static str>)
        ensures
            f.deep_view() == Self::fields_spec(),
    ;

    /// Decodes a row of the entity's table. A column that is missing or holds
    /// something else than expected leaves its field empty, unless the field
    /// cannot be empty: then decoding fails.
    fn decode(row: &Row) -> (r: Result<Self, Error>)
        ensures
            agrees(r, Self::decoded(row@)),
    ;

    /// The statements that read the entity's relationships from their link
    /// tables, one for each relationship.
    fn relationships(&self) -> (q: Vec<Statement>)
        ensures
            q.deep_view() == self.relationships_spec(),
    ;

    /// Sets the entity's relationships to `credits`: one credit list for each
    /// statement of `relationships`, in the same order. With another number
    /// of lists nothing changes and the call fails.
    fn fill_relationships(&mut self, credits: Vec<Vec<Artist>>) -> (r: Result<(), Error>)
        ensures
            credits.len() == old(self).relationships_spec().len() ==> r is Ok && final(self)@
                == old(self).filled(credits.deep_view()),
            credits.len() != old(self).relationships_spec().len() ==> r is Err && r->Err_0@
                == wrong_relationships() && final(self)@ == old(self)@,
    ;
}

/// The names of the columns that a list of filters compares.
pub open spec fn filter_names<B>(fields: Seq<(&str, B)>) -> Seq<Seq<char>> {
    Seq::new(fields.len(), |i: int| fields[i].0@)
}

/// The values that a list of filters binds, in order.
pub open spec fn filter_values<B: Value>(fields: Seq<(&str, B)>) -> Seq<SqlValueView> {
    Seq::new(fields.len(), |i: int| fields[i].1.encoded())
}

/// Builds the statements that read and write an entity's table.
pub trait Builder: InTable {
    /// The statement that reads the rows in which each column named in
    /// `fields` equals the value beside it, followed by the clauses of
    /// `extra`.
    fn query_builder<B: Value>(fields: &Vec<(&str, B)>, extra: &Vec<&str>) -> (q: Statement)
        ensures
            q.sql@ == select_text(
                Self::table_spec(),
                Self::fields_spec(),
                filter_names(fields@),
                extra.deep_view(),
            ),
            q.binds.deep_view() == filter_values(fields@),
    ;

    /// The statement that writes one row, with a placeholder for each column
    /// and no value bound yet.
    fn store_builder() -> (q: Statement)
        ensures
            q.sql@ == upsert_text(Self::table_spec(), Self::fields_spec()),
            q.binds@.len() == 0,
    ;
}

impl<T: InTable> Builder for T {
    fn query_builder<B: Value>(fields: &Vec<(&str, B)>, extra: &Vec<&str>) -> (q: Statement) {
        let mut names: Vec<&str> = Vec::new();
        let mut binds: Vec<SqlValue> = Vec::new();
        let mut i: usize = 0;
        while i < fields.len()
            invariant
                i <= fields.len(),
                names@.len() == i,
                binds@.len() == i,
                forall|k: int| 0 <= k < i ==> (#[trigger] names@[k])@ == fields@[k].0@,
                forall|k: int| 0 <= k < i ==> (#[trigger] binds@[k])@ == fields@[k].1.encoded(),
            decreases fields.len() - i,
        {
            names.push(fields[i].0);
            binds.push(fields[i].1.encode());
            i += 1;
        }
        assert(names.deep_view() =~= filter_names(fields@));
        assert(binds.deep_view() =~= filter_values(fields@));
        Statement { sql: select_sql(Self::table(), &Self::fields(), &names, extra), binds }
    }

    fn store_builder() -> (q: Statement) {
        Statement { sql: upsert_sql(Self::table(), &Self::fields()), binds: Vec::new() }
    }
}

/// The entities that a list of rows holds, in order, or the failure of the
/// first row that holds none.
pub open spec fn decoded_all<T: InTable>(rows: Seq<RowView>) -> Result<Seq<T::V>, ErrorView>
    decreases rows.len(),
{
    if rows.len() == 0 {
        Ok(Seq::empty())
    } else {
        match decoded_all::<T>(rows.drop_last()) {
            Err(e) => Err(e),
            Ok(before) => match T::decoded(rows.last()) {
                Ok(entity) => Ok(before.push(entity)),
                Err(e) => Err(e),
            },
        }
    }
}

/// `decoded` is what `expected` says, the entities by their views and the
/// error by its view.
pub open spec fn agrees_all<T: InTable>(
    decoded: Result<Vec<T>, Error>,
    expected: Result<Seq<T::V>, ErrorView>,
) -> bool {
    match decoded {
        Ok(entities) => expected == Ok::<Seq<T::V>, ErrorView>(
            Seq::new(entities@.len(), |i: int| entities@[i]@),
        ),
        Err(error) => expected == Err::<Seq<T::V>, ErrorView>(error@),
    }
}

/// Reads the entities of a table that meet a list of conditions.
pub trait Filter: Builder {
    /// The statement that reads the rows in which each column named in
    /// `fields` equals the value beside it, followed by the clauses of
    /// `extra`. Fails where no storage was initialised.
    fn filter<B: Value>(context: &Context, fields: &Vec<(&str, B)>, extra: &Vec<&str>) -> (r:
        Result<Statement, Error>)
        ensures
            context.database ==> r is Ok && r->Ok_0.sql@ == select_text(
                Self::table_spec(),
                Self::fields_spec(),
                filter_names(fields@),
                extra.deep_view(),
            ) && r->Ok_0.binds.deep_view() == filter_values(fields@),
            !context.database ==> r is Err && r->Err_0@ == no_database(),
    ;

    /// Decodes every row of an answer, in order. The first row that cannot
    /// be decoded fails the whole.
    fn filtered(rows: &Vec<Row>) -> (r: Result<Vec<Self>, Error>)
        ensures
            agrees_all(r, decoded_all::<Self>(rows.deep_view())),
    ;
}

impl<T: Builder> Filter for T {
    fn filter<B: Value>(context: &Context, fields: &Vec<(&str, B)>, extra: &Vec<&str>) -> (r:
        Result<Statement, Error>) {
        match context.require_database() {
            Err(e) => Err(e),
            Ok(_) => Ok(Self::query_builder(fields, extra)),
        }
    }

    fn filtered(rows: &Vec<Row>) -> (r: Result<Vec<Self>, Error>) {
        let ghost all = rows.deep_view();
        let mut entities: Vec<Self> = Vec::new();
        let mut i: usize = 0;
        assert(Seq::new(entities@.len(), |k: int| entities@[k]@) =~= Seq::<Self::V>::empty());
        while i < rows.len()
            invariant
                i <= rows.len(),
                all == rows.deep_view(),
                decoded_all::<Self>(all.take(i as int)) == Ok::<Seq<Self::V>, ErrorView>(
                    Seq::new(entities@.len(), |k: int| entities@[k]@),
                ),
            decreases rows.len() - i,
        {
            proof {
                assert(all.take(i + 1).drop_last() =~= all.take(i as int));
                assert(all.take(i + 1).last() == rows[i as int]@);
            }
            let ghost before = Seq::new(entities@.len(), |k: int| entities@[k]@);
            match Self::decode(&rows[i]) {
                Err(e) => {
                    proof {
                        lemma_decoded_all_fails::<Self>(all, i + 1);
                    }
                    return Err(e);
                },
                Ok(entity) => {
                    entities.push(entity);
                    assert(Seq::new(entities@.len(), |k: int| entities@[k]@) =~= before.push(
                        entity@,
                    ));
                },
            }
            i += 1;
        }
        proof {
            assert(all.take(i as int) =~= all);
        }
        Ok(entities)
    }
}

/// Where the rows up to `upto` fail to decode, the whole list fails in the
/// same way.
pub proof fn lemma_decoded_all_fails<T: InTable>(rows: Seq<RowView>, upto: int)
    requires
        0 <= upto <= rows.len(),
        decoded_all::<T>(rows.take(upto)) is Err,
    ensures
        decoded_all::<T>(rows) == decoded_all::<T>(rows.take(upto)),
    decreases rows.len() - upto,
{
    if upto < rows.len() {
        assert(rows.take(upto + 1).drop_last() =~= rows.take(upto));
        lemma_decoded_all_fails::<T>(rows, upto + 1);
    } else {
        assert(rows.take(upto) =~= rows);
    }
}

/// The entity that the answer to a query by identifier holds: the one of its
/// only row. No row and more than one row are failures.
pub open spec fn fetched_spec<T: InTable>(rows: Seq<RowView>) -> Result<T::V, ErrorView> {
    if rows.len() == 0 {
        Err(ErrorView::NotFound)
    } else if rows.len() > 1 {
        Err(ErrorView::Ambiguous)
    } else {
        T::decoded(rows[0])
    }
}

/// Reads the entity with a given identifier.
pub trait Fetch: Builder {
    /// The statement that reads the row with the identifier `mbid`, and one
    /// row at most. Fails where no storage was initialised.
    fn fetch(context: &Context, mbid: String) -> (r: Result<Statement, Error>)
        ensures
            context.database ==> r is Ok && r->Ok_0.sql@ == select_text(
                Self::table_spec(),
                Self::fields_spec(),
                seq!["mbid"@],
                seq!["LIMIT 1"@],
            ) && r->Ok_0.binds.deep_view() == seq![SqlValueView::Text(mbid@)],
            !context.database ==> r is Err && r->Err_0@ == no_database(),
    ;

    /// Decodes the answer to the statement of `fetch`: exactly one row is
    /// expected.
    fn fetched(rows: &Vec<Row>) -> (r: Result<Self, Error>)
        ensures
            agrees(r, fetched_spec::<Self>(rows.deep_view())),
    ;
}

impl<T: Builder> Fetch for T {
    fn fetch(context: &Context, mbid: String) -> (r: Result<Statement, Error>) {
        match context.require_database() {
            Err(e) => Err(e),
            Ok(_) => {
                let mut fields: Vec<(&str, String)> = Vec::new();
                fields.push(("mbid", mbid));
                let mut extra: Vec<&str> = Vec::new();
                extra.push("LIMIT 1");
                let q = Self::query_builder(&fields, &extra);
                assert(filter_names(fields@) =~= seq!["mbid"@]);
                assert(filter_values(fields@) =~= seq![SqlValueView::Text(mbid@)]);
                assert(extra.deep_view() =~= seq!["LIMIT 1"@]);
                Ok(q)
            },
        }
    }

    fn fetched(rows: &Vec<Row>) -> (r: Result<Self, Error>) {
        if rows.len() == 0 {
            Err(Error::NotFound)
        } else if rows.len() > 1 {
            Err(Error::Ambiguous)
        } else {
            assert(rows.deep_view()[0] == rows[0]@);
            Self::decode(&rows[0])
        }
    }
}

} // verus!
