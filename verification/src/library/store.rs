//! What is written when an entity is stored, and in which order.
//!
//! Storing computes a plan: the statements to send, one after the other, and
//! the failure that ends the plan early, if there is one. Whoever sends the
//! statements stops at the first that storage refuses; what was sent before
//! stays written.

use crate::error::{Error, ErrorView};
use crate::library::sql::{
    select_text, stored, upsert_text, SqlValue, SqlValueView, Statement, StatementView, Value,
};
use crate::library::{filter_names, no_database, Builder, Context, InTable};
use crate::models::{Artist, ArtistView, Date, Length, Release, ReleaseView, Track, TrackView};
use crate::track::format::Format;
use std::sync::Arc;
use vstd::prelude::*;
use vstd::string::*;

verus! {

/// The JSON text of a list of strings, where serde_json renders one.
pub uninterp spec fn string_list_json(list: Seq<Seq<char>>) -> Option<Seq<char>>;

/// Calls `to_string` of the crate serde_json on a list of strings. The
/// result is the JSON text of the list, and nothing where serde_json reports
/// an error.
#[verifier::external_body]
fn render_string_list(list: &Vec<String>) -> (r: Option<String>)
    ensures
        r.deep_view() == string_list_json(list.deep_view()),
{
    serde_json::to_string(list).ok()
}

/// The statements to send, in order, and the failure that ends them.
#[derive(Clone, Debug, PartialEq, Eq)]
pub struct Plan {
    /// The statements, first to last.
    pub writes: Vec<Statement>,
    /// Why the plan ends before everything is written, if it does.
    pub failure: Option<Error>,
}

/// A plan with its texts as character sequences.
pub struct PlanView {
    pub writes: Seq<StatementView>,
    pub failure: Option<ErrorView>,
}

impl View for Plan {
    type V = PlanView;

    open spec fn view(&self) -> PlanView {
        PlanView { writes: self.writes.deep_view(), failure: self.failure.deep_view() }
    }
}

/// The plan that writes nothing and does not fail.
pub open spec fn nothing() -> PlanView {
    PlanView { writes: Seq::empty(), failure: None }
}

/// The plan that sends one statement.
pub open spec fn writing(statement: StatementView) -> PlanView {
    PlanView { writes: seq![statement], failure: None }
}

/// The plan that writes nothing and fails.
pub open spec fn failing(error: ErrorView) -> PlanView {
    PlanView { writes: Seq::empty(), failure: Some(error) }
}

/// The plan `first` and after it the plan `second`, unless `first` fails:
/// a failure ends everything that would follow.
pub open spec fn followed_by(first: PlanView, second: PlanView) -> PlanView {
    if first.failure is Some {
        first
    } else {
        PlanView { writes: first.writes + second.writes, failure: second.failure }
    }
}

impl Plan {
    /// The plan that writes nothing and does not fail.
    pub fn new() -> (p: Plan)
        ensures
            p@ == nothing(),
    {
        let p = Plan { writes: Vec::new(), failure: None };
        assert(p@.writes =~= Seq::empty());
        p
    }

    /// Adds a statement at the end, unless the plan has failed.
    pub fn write(&mut self, statement: Statement)
        ensures
            final(self)@ == followed_by(old(self)@, writing(statement@)),
    {
        if self.failure.is_none() {
            self.writes.push(statement);
            assert(self@.writes =~= old(self)@.writes + seq![statement@]);
        }
    }

    /// Ends the plan with a failure, unless it has failed before.
    pub fn fail(&mut self, error: Error)
        ensures
            final(self)@ == followed_by(old(self)@, failing(error@)),
    {
        if self.failure.is_none() {
            self.failure = Some(error);
            assert(self@.writes =~= old(self)@.writes + Seq::empty());
        }
    }

    /// Adds another plan at the end, unless this one has failed.
    pub fn append(&mut self, other: Plan)
        ensures
            final(self)@ == followed_by(old(self)@, other@),
    {
        if self.failure.is_none() {
            let mut other = other;
            let ghost added = other@.writes;
            self.writes.append(&mut other.writes);
            self.failure = other.failure;
            assert(self@.writes =~= old(self)@.writes + added);
        }
    }
}

/// An optional text as a bound value.
pub open spec fn opt_text(text: Option<Seq<char>>) -> SqlValueView {
    match text {
        Some(t) => SqlValueView::Text(t),
        None => SqlValueView::Null,
    }
}

/// An optional number as a bound value.
pub open spec fn opt_number(number: Option<u64>) -> SqlValueView {
    match number {
        Some(n) => SqlValueView::Integer(stored(n)),
        None => SqlValueView::Null,
    }
}

/// An optional date as a bound value.
pub open spec fn opt_date(date: Option<Date>) -> SqlValueView {
    match date {
        Some(d) => SqlValueView::Date(d),
        None => SqlValueView::Null,
    }
}

/// The text of the statement that reads the artists that `table` links to
/// an owner.
pub open spec fn resolve_text(table: Seq<char>) -> Seq<char> {
    select_text(Artist::table_spec(), Artist::fields_spec(), Seq::empty(), Seq::empty())
        + " WHERE mbid IN (SELECT artist FROM "@ + table + " WHERE ref = ?)"@
}

/// The statement that reads every artist that `table` links to the owner
/// with the identifier `owner`.
pub open spec fn resolve_statement(table: Seq<char>, owner: Option<Seq<char>>) -> StatementView {
    StatementView { sql: resolve_text(table), binds: seq![opt_text(owner)] }
}

/// The statement that reads every artist that the link table `table` holds
/// for the owner with the identifier `owner`.
pub fn resolve(table: &str, owner: Option<&String>) -> (q: Statement)
    ensures
        q@ == resolve_statement(table@, owner.deep_view()),
{
    let none: Vec<(&str, SqlValue)> = Vec::new();
    let extra: Vec<&str> = Vec::new();
    let head = Artist::query_builder(&none, &extra);
    assert(filter_names(none@) =~= Seq::<Seq<char>>::empty());
    assert(extra.deep_view() =~= Seq::<Seq<char>>::empty());
    let mut sql = head.sql;
    sql.append(" WHERE mbid IN (SELECT artist FROM ");
    sql.append(table);
    sql.append(" WHERE ref = ?)");
    let mut binds: Vec<SqlValue> = Vec::new();
    binds.push(owner.encode());
    let q = Statement { sql, binds };
    assert(q@.binds =~= seq![opt_text(owner.deep_view())]);
    q
}

/// The statement that links `artist` to the owner with the identifier
/// `owner` in `table`.
pub open spec fn link_statement(
    table: Seq<char>,
    owner: Option<Seq<char>>,
    artist: ArtistView,
) -> StatementView {
    StatementView {
        sql: "INSERT OR REPLACE INTO "@ + table + " (ref, artist) VALUES (?, ?)"@,
        binds: seq![opt_text(owner), opt_text(artist.mbid)],
    }
}

/// The statement that records in the link table `table` that `artist` is
/// credited to the owner with the identifier `owner`.
pub fn link(table: &str, owner: Option<&String>, artist: &Artist) -> (q: Statement)
    ensures
        q@ == link_statement(table@, owner.deep_view(), artist@),
{
    let mut sql = String::from_str("INSERT OR REPLACE INTO ");
    sql.append(table);
    sql.append(" (ref, artist) VALUES (?, ?)");
    let mut binds: Vec<SqlValue> = Vec::new();
    binds.push(owner.encode());
    binds.push(artist.mbid.encode());
    let q = Statement { sql, binds };
    assert(q@.binds =~= seq![opt_text(owner.deep_view()), opt_text(artist@.mbid)]);
    q
}

/// The plans of `plans` one after the other, up to the first that fails.
pub open spec fn in_order(plans: Seq<PlanView>) -> PlanView
    decreases plans.len(),
{
    if plans.len() == 0 {
        nothing()
    } else {
        followed_by(in_order(plans.drop_last()), plans.last())
    }
}

/// The statement that writes the row of an artist, with `instruments` as
/// the JSON text of its instruments.
pub open spec fn artist_upsert(artist: ArtistView, instruments: Seq<char>) -> StatementView {
    StatementView {
        sql: upsert_text(Artist::table_spec(), Artist::fields_spec()),
        binds: seq![
            opt_text(artist.mbid),
            SqlValueView::Text(artist.name),
            opt_text(artist.sort_name),
            SqlValueView::Text(instruments),
        ],
    }
}

/// What storing an artist writes: its own row.
pub open spec fn artist_plan(artist: ArtistView, database: bool) -> PlanView {
    if !database {
        failing(no_database())
    } else {
        match string_list_json(artist.instruments) {
            Some(json) => writing(artist_upsert(artist, json)),
            None => failing(ErrorView::Decode("instruments_json"@)),
        }
    }
}

/// What storing one credit writes: the artist's row, then the row that links
/// the artist to the owner.
pub open spec fn credit_plan(
    table: Seq<char>,
    owner: Option<Seq<char>>,
    artist: ArtistView,
    database: bool,
) -> PlanView {
    followed_by(artist_plan(artist, database), writing(link_statement(table, owner, artist)))
}

/// What storing a credit list writes: each credit in the order of the list.
pub open spec fn credits_plan(
    table: Seq<char>,
    owner: Option<Seq<char>>,
    artists: Seq<ArtistView>,
    database: bool,
) -> PlanView
    decreases artists.len(),
{
    if artists.len() == 0 {
        nothing()
    } else {
        followed_by(
            credits_plan(table, owner, artists.drop_last(), database),
            credit_plan(table, owner, artists.last(), database),
        )
    }
}

/// The statement that writes the row of a release.
pub open spec fn release_upsert(release: ReleaseView) -> StatementView {
    StatementView {
        sql: upsert_text(Release::table_spec(), Release::fields_spec()),
        binds: seq![
            opt_text(release.mbid),
            opt_text(release.release_group_mbid),
            opt_text(release.asin),
            SqlValueView::Text(release.title),
            opt_number(release.discs),
            opt_text(release.media),
            opt_number(release.tracks),
            opt_text(release.country),
            opt_text(release.label),
            opt_text(release.catalog_no),
            opt_text(release.status),
            opt_text(release.release_type),
            opt_date(release.date),
            opt_date(release.original_date),
            opt_text(release.script),
        ],
    }
}

/// What storing a release writes: its own row, then its artist credits.
pub open spec fn release_plan(release: ReleaseView, database: bool) -> PlanView {
    if !database {
        failing(no_database())
    } else {
        followed_by(
            writing(release_upsert(release)),
            credits_plan("release_artists"@, release.mbid, release.artists, database),
        )
    }
}

/// The whole seconds of an optional playing time as a bound value.
pub open spec fn opt_length(length: Option<Length>) -> SqlValueView {
    match length {
        Some(l) => SqlValueView::Integer(stored(l.secs)),
        None => SqlValueView::Null,
    }
}

/// The file extension of an optional format as a bound value.
pub open spec fn opt_format(format: Option<Format>) -> SqlValueView {
    match format {
        Some(f) => SqlValueView::Text(f.ext_spec()),
        None => SqlValueView::Null,
    }
}

/// The identifier of an optional release.
pub open spec fn release_mbid(release: Option<ReleaseView>) -> Option<Seq<char>> {
    match release {
        Some(r) => r.mbid,
        None => None,
    }
}

/// The statement that writes the row of a track, with `genres` as the JSON
/// text of its genres and `path` as its path.
pub open spec fn track_upsert(track: TrackView, genres: Seq<char>, path: Seq<char>) -> StatementView {
    StatementView {
        sql: upsert_text(Track::table_spec(), Track::fields_spec()),
        binds: seq![
            opt_text(track.mbid),
            SqlValueView::Text(track.title),
            opt_length(track.length),
            opt_number(track.disc),
            opt_text(track.disc_mbid),
            opt_number(track.number),
            SqlValueView::Text(genres),
            opt_text(release_mbid(track.release)),
            opt_format(track.format),
            SqlValueView::Text(path),
        ],
    }
}

/// The text of the error that is reported where a track to store has no
/// path.
pub open spec fn no_path() -> ErrorView {
    ErrorView::Precondition("The given track doesn't have an associated path"@)
}

/// What storing a track writes for the track itself: its own row. The track
/// must have a path.
pub open spec fn track_row_plan(track: TrackView, database: bool) -> PlanView {
    if !database {
        failing(no_database())
    } else {
        match string_list_json(track.genres) {
            None => failing(ErrorView::Decode("genres_json"@)),
            Some(genres) => match track.path {
                None => failing(no_path()),
                Some(path) => writing(track_upsert(track, genres, path)),
            },
        }
    }
}

/// What storing the release of a track writes: nothing where it has none.
pub open spec fn owner_plan(release: Option<ReleaseView>, database: bool) -> PlanView {
    match release {
        Some(r) => release_plan(r, database),
        None => nothing(),
    }
}

/// What storing a track writes: its release first, then its own row, then
/// its credits, role by role.
pub open spec fn track_plan(track: TrackView, database: bool) -> PlanView {
    in_order(
        seq![
            owner_plan(track.release, database),
            track_row_plan(track, database),
            credits_plan("track_artists"@, track.mbid, track.artists, database),
            credits_plan("track_performers"@, track.mbid, track.performers, database),
            credits_plan("track_engigneers"@, track.mbid, track.engigneers, database),
            credits_plan("track_mixers"@, track.mbid, track.mixers, database),
            credits_plan("track_producers"@, track.mbid, track.producers, database),
            credits_plan("track_lyricists"@, track.mbid, track.lyricists, database),
            credits_plan("track_writers"@, track.mbid, track.writers, database),
            credits_plan("track_composers"@, track.mbid, track.composers, database),
        ],
    )
}

/// An entity that can be stored.
pub trait Store: Builder {
    /// What storing `self` writes, given whether storage was initialised.
    spec fn plan(&self, database: bool) -> PlanView;

    /// Plans the storing of `self`: its own row and everything that belongs
    /// to it. Without storage nothing is planned but the failure.
    fn store(&self, context: &Context) -> (p: Plan)
        ensures
            p@ == self.plan(context.database),
    ;
}

impl Artist {
    /// The statement that writes the row of this artist, with
    /// `instruments_json` as the JSON text of its instruments.
    pub fn upsert(&self, instruments_json: String) -> (q: Statement)
        ensures
            q@ == artist_upsert(self@, instruments_json@),
    {
        let mut q = Artist::store_builder();
        q.binds.push(self.mbid.encode());
        q.binds.push(self.name.encode());
        q.binds.push(self.sort_name.encode());
        q.binds.push(SqlValue::Text(instruments_json));
        assert(q@.binds =~= artist_upsert(self@, instruments_json@).binds);
        q
    }
}

impl Store for Artist {
    open spec fn plan(&self, database: bool) -> PlanView {
        artist_plan(self@, database)
    }

    fn store(&self, context: &Context) -> (p: Plan) {
        let mut p = Plan::new();
        match context.require_database() {
            Err(e) => {
                p.fail(e);
            },
            Ok(_) => match render_string_list(&self.instruments) {
                Some(json) => {
                    p.write(self.upsert(json));
                },
                None => {
                    p.fail(Error::Decode(String::from_str("instruments_json")));
                },
            },
        }
        assert(p@.writes =~= self.plan(context.database).writes);
        p
    }
}

/// Plans the storing of a credit list: for each artist in turn its own row
/// and the row that links it to the owner in `table`.
pub fn credits(table: &str, owner: Option<&String>, artists: &Vec<Artist>, context: &Context) -> (p:
    Plan)
    ensures
        p@ == credits_plan(table@, owner.deep_view(), artists.deep_view(), context.database),
{
    let ghost all = artists.deep_view();
    let mut p = Plan::new();
    let mut i: usize = 0;
    while i < artists.len()
        invariant
            i <= artists.len(),
            all == artists.deep_view(),
            p@ == credits_plan(table@, owner.deep_view(), all.take(i as int), context.database),
        decreases artists.len() - i,
    {
        proof {
            assert(all.take(i + 1).drop_last() =~= all.take(i as int));
            assert(all.take(i + 1).last() == artists[i as int]@);
        }
        let mut step = artists[i].store(context);
        step.write(link(table, owner, &artists[i]));
        p.append(step);
        i += 1;
    }
    proof {
        assert(all.take(i as int) =~= all);
    }
    p
}

fn text_value(text: &Option<String>) -> (v: SqlValue)
    ensures
        v@ == opt_text(text.deep_view()),
{
    text.encode()
}

fn number_value(number: Option<u64>) -> (v: SqlValue)
    ensures
        v@ == opt_number(number),
{
    number.encode()
}

fn date_value(date: Option<Date>) -> (v: SqlValue)
    ensures
        v@ == opt_date(date),
{
    date.encode()
}

impl Release {
    /// The statement that writes the row of this release.
    pub fn upsert(&self) -> (q: Statement)
        ensures
            q@ == release_upsert(self@),
    {
        let mut binds: Vec<SqlValue> = Vec::new();
        binds.push(text_value(&self.mbid));
        binds.push(text_value(&self.release_group_mbid));
        binds.push(text_value(&self.asin));
        binds.push(SqlValue::Text(self.title.clone()));
        binds.push(number_value(self.discs));
        binds.push(text_value(&self.media));
        binds.push(number_value(self.tracks));
        binds.push(text_value(&self.country));
        binds.push(text_value(&self.label));
        binds.push(text_value(&self.catalog_no));
        binds.push(text_value(&self.status));
        binds.push(text_value(&self.release_type));
        binds.push(date_value(self.date));
        binds.push(date_value(self.original_date));
        binds.push(text_value(&self.script));
        let ghost expected = release_upsert(self@).binds;
        assert(binds.deep_view().len() == expected.len());
        assert forall|i: int| 0 <= i < 15 implies binds.deep_view()[i] == expected[i] by {
            assert(binds.deep_view()[i] == binds@[i]@);
        }
        assert(binds.deep_view() =~= expected);
        let head = Release::store_builder();
        Statement { sql: head.sql, binds }
    }
}

impl Store for Release {
    open spec fn plan(&self, database: bool) -> PlanView {
        release_plan(self@, database)
    }

    fn store(&self, context: &Context) -> (p: Plan) {
        let mut p = Plan::new();
        match context.require_database() {
            Err(e) => {
                p.fail(e);
                assert(p@.writes =~= Seq::empty());
            },
            Ok(_) => {
                p.write(self.upsert());
                p.append(credits("release_artists", self.mbid.as_ref(), &self.artists, context));
                assert(p@.writes =~= self.plan(context.database).writes);
            },
        }
        p
    }
}

impl Track {
    /// The statement that writes the row of this track, with `genres_json`
    /// as the JSON text of its genres and `path` as its path.
    pub fn upsert(&self, genres_json: String, path: String) -> (q: Statement)
        ensures
            q@ == track_upsert(self@, genres_json@, path@),
    {
        let mut q = Track::store_builder();
        q.binds.push(self.mbid.encode());
        q.binds.push(self.title.encode());
        q.binds.push(
            match self.length {
                Some(l) => SqlValue::Integer(crate::library::sql::to_stored(l.as_secs())),
                None => SqlValue::Null,
            },
        );
        q.binds.push(self.disc.encode());
        q.binds.push(self.disc_mbid.encode());
        q.binds.push(self.number.encode());
        q.binds.push(SqlValue::Text(genres_json));
        q.binds.push(
            match &self.release {
                Some(r) => r.mbid.encode(),
                None => SqlValue::Null,
            },
        );
        q.binds.push(
            match self.format {
                Some(f) => SqlValue::Text(String::from_str(f.ext())),
                None => SqlValue::Null,
            },
        );
        q.binds.push(SqlValue::Text(path));
        assert(q@.binds =~= track_upsert(self@, genres_json@, path@).binds);
        q
    }

    /// Plans the writing of this track's own row.
    pub fn store_row(&self, context: &Context) -> (p: Plan)
        ensures
            p@ == track_row_plan(self@, context.database),
    {
        let mut p = Plan::new();
        match context.require_database() {
            Err(e) => {
                p.fail(e);
            },
            Ok(_) => match render_string_list(&self.genres) {
                None => {
                    p.fail(Error::Decode(String::from_str("genres_json")));
                },
                Some(genres) => match &self.path {
                    None => {
                        p.fail(
                            Error::Precondition(
                                String::from_str("The given track doesn't have an associated path"),
                            ),
                        );
                    },
                    Some(path) => {
                        p.write(self.upsert(genres, path.clone()));
                    },
                },
            },
        }
        assert(p@.writes =~= track_row_plan(self@, context.database).writes);
        p
    }
}

impl Store for Track {
    open spec fn plan(&self, database: bool) -> PlanView {
        track_plan(self@, database)
    }

    fn store(&self, context: &Context) -> (p: Plan) {
        let mut p = Plan::new();
        match &self.release {
            Some(r) => {
                p.append((**r).store(context));
            },
            None => {
                p.append(Plan::new());
            },
        }
        p.append(self.store_row(context));
        let owner = self.mbid.as_ref();
        p.append(credits("track_artists", owner, &self.artists, context));
        p.append(credits("track_performers", owner, &self.performers, context));
        p.append(credits("track_engigneers", owner, &self.engigneers, context));
        p.append(credits("track_mixers", owner, &self.mixers, context));
        p.append(credits("track_producers", owner, &self.producers, context));
        p.append(credits("track_lyricists", owner, &self.lyricists, context));
        p.append(credits("track_writers", owner, &self.writers, context));
        p.append(credits("track_composers", owner, &self.composers, context));
        proof {
            reveal_with_fuel(in_order, 11);
            let parts = seq![
                owner_plan(self@.release, context.database),
                track_row_plan(self@, context.database),
                credits_plan("track_artists"@, self@.mbid, self@.artists, context.database),
                credits_plan("track_performers"@, self@.mbid, self@.performers, context.database),
                credits_plan("track_engigneers"@, self@.mbid, self@.engigneers, context.database),
                credits_plan("track_mixers"@, self@.mbid, self@.mixers, context.database),
                credits_plan("track_producers"@, self@.mbid, self@.producers, context.database),
                credits_plan("track_lyricists"@, self@.mbid, self@.lyricists, context.database),
                credits_plan("track_writers"@, self@.mbid, self@.writers, context.database),
                credits_plan("track_composers"@, self@.mbid, self@.composers, context.database),
            ];
            lemma_in_order_ten(parts);
        }
        p
    }
}

/// Ten plans in order are the first nine in order, followed by the tenth, and
/// so on down to the first.
proof fn lemma_in_order_ten(parts: Seq<PlanView>)
    requires
        parts.len() == 10,
    ensures
        in_order(parts) == followed_by(
            followed_by(
                followed_by(
                    followed_by(
                        followed_by(
                            followed_by(
                                followed_by(
                                    followed_by(
                                        followed_by(followed_by(nothing(), parts[0]), parts[1]),
                                        parts[2],
                                    ),
                                    parts[3],
                                ),
                                parts[4],
                            ),
                            parts[5],
                        ),
                        parts[6],
                    ),
                    parts[7],
                ),
                parts[8],
            ),
            parts[9],
        ),
{
    let p9 = parts.drop_last();
    let p8 = p9.drop_last();
    let p7 = p8.drop_last();
    let p6 = p7.drop_last();
    let p5 = p6.drop_last();
    let p4 = p5.drop_last();
    let p3 = p4.drop_last();
    let p2 = p3.drop_last();
    let p1 = p2.drop_last();
    let p0 = p1.drop_last();
    assert(in_order(p0) == nothing());
    assert(in_order(p1) == followed_by(in_order(p0), parts[0]));
    assert(in_order(p2) == followed_by(in_order(p1), parts[1]));
    assert(in_order(p3) == followed_by(in_order(p2), parts[2]));
    assert(in_order(p4) == followed_by(in_order(p3), parts[3]));
    assert(in_order(p5) == followed_by(in_order(p4), parts[4]));
    assert(in_order(p6) == followed_by(in_order(p5), parts[5]));
    assert(in_order(p7) == followed_by(in_order(p6), parts[6]));
    assert(in_order(p8) == followed_by(in_order(p7), parts[7]));
    assert(in_order(p9) == followed_by(in_order(p8), parts[8]));
    assert(in_order(parts) == followed_by(in_order(p9), parts[9]));
}

} // verus!
