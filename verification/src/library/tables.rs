//! The tables of the three entities and how their rows are decoded.

use crate::error::{Error, ErrorView};
use crate::library::row::{date_of, lookup, number_of, text_of, Row, RowView};
use crate::library::sql::SqlValueView;
use crate::library::sql::{Statement, StatementView};
use crate::library::store::{resolve, resolve_statement};
use crate::library::{agrees, wrong_relationships, InTable};
use crate::models::{Artist, ArtistView, Length, Release, ReleaseView, Track, TrackView};
use crate::track::format::Format;
use vstd::prelude::*;
use vstd::string::*;

verus! {

/// The list of strings that a JSON text denotes, where it denotes one: what
/// serde_json reads from it as a `Vec<String>`.
pub uninterp spec fn json_string_list(text: Seq<char>) -> Option<Seq<Seq<char>>>;

/// Calls `from_str` of the crate serde_json for a `Vec<String>`. The result
/// is the list that the text denotes, and nothing where the text is no JSON
/// array of strings.
#[verifier::external_body]
fn parse_string_list(text: &str) -> (r: Option<Vec<String>>)
    ensures
        r.deep_view() == json_string_list(text@),
{
    serde_json::from_str::<Vec<String>>(text).ok()
}

/// The list that a cell of JSON text holds; empty where the cell holds no
/// text or its text denotes no list of strings.
pub open spec fn list_of(value: SqlValueView) -> Seq<Seq<char>> {
    match value {
        SqlValueView::Text(t) => match json_string_list(t) {
            Some(list) => list,
            None => Seq::empty(),
        },
        _ => Seq::empty(),
    }
}

/// The list in the cell named `column` of `row`, as `list_of` defines it.
pub fn list_in(row: &Row, column: &str) -> (r: Vec<String>)
    ensures
        r.deep_view() == list_of(lookup(row@, column@)),
{
    match row.text(column) {
        Some(t) => match parse_string_list(t.as_str()) {
            Some(list) => list,
            None => {
                let empty: Vec<String> = Vec::new();
                assert(empty.deep_view() =~= Seq::<Seq<char>>::empty());
                empty
            },
        },
        None => {
            let empty: Vec<String> = Vec::new();
            assert(empty.deep_view() =~= Seq::<Seq<char>>::empty());
            empty
        },
    }
}

/// The artist that a row of `artists` holds, given the list of instruments
/// that its JSON cell denotes. The name cannot be missing.
pub open spec fn artist_with(row: RowView, instruments: Seq<Seq<char>>) -> Result<
    ArtistView,
    ErrorView,
> {
    match lookup(row, "name"@) {
        SqlValueView::Text(name) => Ok(
            ArtistView {
                mbid: text_of(lookup(row, "mbid"@)),
                name,
                join_phrase: None,
                sort_name: text_of(lookup(row, "sort_name"@)),
                instruments,
            },
        ),
        _ => Err(ErrorView::Decode("name"@)),
    }
}

/// The artist that a row of `artists` holds.
pub open spec fn artist_of(row: RowView) -> Result<ArtistView, ErrorView> {
    artist_with(row, list_of(lookup(row, "instruments_json"@)))
}

impl Artist {
    /// The artist that `row` holds, with `instruments` for its instruments.
    pub fn from_row(row: &Row, instruments: Vec<String>) -> (r: Result<Artist, Error>)
        ensures
            agrees(r, artist_with(row@, instruments.deep_view())),
    {
        match row.text("name") {
            Some(name) => Ok(
                Artist {
                    mbid: row.text("mbid"),
                    name,
                    join_phrase: None,
                    sort_name: row.text("sort_name"),
                    instruments,
                },
            ),
            None => Err(Error::Decode(String::from_str("name"))),
        }
    }
}

impl InTable for Artist {
    open spec fn table_spec() -> Seq<char> {
        "artists"@
    }

    open spec fn fields_spec() -> Seq<Seq<char>> {
        seq!["mbid"@, "name"@, "sort_name"@, "instruments_json"@]
    }

    open spec fn decoded(row: RowView) -> Result<ArtistView, ErrorView> {
        artist_of(row)
    }

    open spec fn relationships_spec(&self) -> Seq<StatementView> {
        Seq::empty()
    }

    open spec fn filled(&self, credits: Seq<Seq<ArtistView>>) -> ArtistView {
        self@
    }

    fn table() -> (t: &'static str) {
        "artists"
    }

    fn fields() -> (f: Vec<&'static str>) {
        let f = vec!["mbid", "name", "sort_name", "instruments_json"];
        assert(f.deep_view() =~= Self::fields_spec());
        f
    }

    fn decode(row: &Row) -> (r: Result<Self, Error>) {
        Artist::from_row(row, list_in(row, "instruments_json"))
    }

    fn relationships(&self) -> (q: Vec<Statement>) {
        let q: Vec<Statement> = Vec::new();
        assert(q.deep_view() =~= Seq::<StatementView>::empty());
        q
    }

    fn fill_relationships(&mut self, credits: Vec<Vec<Artist>>) -> (r: Result<(), Error>) {
        if credits.len() != 0 {
            return Err(wrong_number());
        }
        Ok(())
    }
}

/// The release that a row of `releases` holds, without its artists. The
/// title cannot be missing.
pub open spec fn release_of(row: RowView) -> Result<ReleaseView, ErrorView> {
    match lookup(row, "title"@) {
        SqlValueView::Text(title) => Ok(
            ReleaseView {
                mbid: text_of(lookup(row, "mbid"@)),
                release_group_mbid: text_of(lookup(row, "release_group_mbid"@)),
                asin: text_of(lookup(row, "asin"@)),
                title,
                artists: Seq::empty(),
                discs: number_of(lookup(row, "discs"@)),
                media: text_of(lookup(row, "media"@)),
                tracks: number_of(lookup(row, "tracks"@)),
                country: text_of(lookup(row, "country"@)),
                label: text_of(lookup(row, "label"@)),
                catalog_no: text_of(lookup(row, "catalog_no"@)),
                status: text_of(lookup(row, "status"@)),
                release_type: text_of(lookup(row, "release_type"@)),
                date: date_of(lookup(row, "date"@)),
                original_date: date_of(lookup(row, "original_date"@)),
                script: text_of(lookup(row, "script"@)),
            },
        ),
        _ => Err(ErrorView::Decode("title"@)),
    }
}

impl InTable for Release {
    open spec fn table_spec() -> Seq<char> {
        "releases"@
    }

    open spec fn fields_spec() -> Seq<Seq<char>> {
        seq![
            "mbid"@,
            "release_group_mbid"@,
            "asin"@,
            "title"@,
            "discs"@,
            "media"@,
            "tracks"@,
            "country"@,
            "label"@,
            "catalog_no"@,
            "status"@,
            "release_type"@,
            "date"@,
            "original_date"@,
            "script"@,
        ]
    }

    open spec fn decoded(row: RowView) -> Result<ReleaseView, ErrorView> {
        release_of(row)
    }

    open spec fn relationships_spec(&self) -> Seq<StatementView> {
        seq![resolve_statement("release_artists"@, self@.mbid)]
    }

    open spec fn filled(&self, credits: Seq<Seq<ArtistView>>) -> ReleaseView {
        ReleaseView { artists: credits[0], ..self@ }
    }

    fn table() -> (t: &'static str) {
        "releases"
    }

    fn fields() -> (f: Vec<&'static str>) {
        let f = vec![
            "mbid",
            "release_group_mbid",
            "asin",
            "title",
            "discs",
            "media",
            "tracks",
            "country",
            "label",
            "catalog_no",
            "status",
            "release_type",
            "date",
            "original_date",
            "script",
        ];
        assert(f.deep_view() =~= Self::fields_spec());
        f
    }

    fn decode(row: &Row) -> (r: Result<Self, Error>) {
        match row.text("title") {
            Some(title) => {
                let artists: Vec<Artist> = Vec::new();
                assert(artists.deep_view() =~= Seq::<ArtistView>::empty());
                Ok(
                    Release {
                        mbid: row.text("mbid"),
                        release_group_mbid: row.text("release_group_mbid"),
                        asin: row.text("asin"),
                        title,
                        artists,
                        discs: row.number("discs"),
                        media: row.text("media"),
                        tracks: row.number("tracks"),
                        country: row.text("country"),
                        label: row.text("label"),
                        catalog_no: row.text("catalog_no"),
                        status: row.text("status"),
                        release_type: row.text("release_type"),
                        date: row.date("date"),
                        original_date: row.date("original_date"),
                        script: row.text("script"),
                    },
                )
            },
            None => Err(Error::Decode(String::from_str("title"))),
        }
    }

    fn relationships(&self) -> (q: Vec<Statement>) {
        let mut q: Vec<Statement> = Vec::new();
        q.push(resolve("release_artists", self.mbid.as_ref()));
        assert(q.deep_view() =~= self.relationships_spec());
        q
    }

    fn fill_relationships(&mut self, credits: Vec<Vec<Artist>>) -> (r: Result<(), Error>) {
        if credits.len() != 1 {
            return Err(wrong_number());
        }
        let mut credits = credits;
        let ghost lists = credits.deep_view();
        match credits.pop() {
            Some(artists) => {
                assert(artists.deep_view() == lists[0]);
                self.artists = artists;
            },
            None => {},
        }
        Ok(())
    }
}

/// The playing time that a cell of whole seconds holds.
pub open spec fn length_of(value: SqlValueView) -> Option<Length> {
    match number_of(value) {
        Some(secs) => Some(Length::of_secs(secs)),
        None => None,
    }
}

/// The format that a cell holds: the one that its text names as a file
/// extension, and none where it holds no text or names none.
pub open spec fn format_of(value: SqlValueView) -> Option<Format> {
    match value {
        SqlValueView::Text(t) => Format::of_ext(t),
        _ => None,
    }
}

/// The track that a row of `tracks` holds, given the list of genres that its
/// JSON cell denotes, without its release and its artists. The title cannot
/// be missing.
pub open spec fn track_with(row: RowView, genres: Seq<Seq<char>>) -> Result<TrackView, ErrorView> {
    match lookup(row, "title"@) {
        SqlValueView::Text(title) => Ok(
            TrackView {
                mbid: text_of(lookup(row, "mbid"@)),
                title,
                artists: Seq::empty(),
                length: length_of(lookup(row, "length"@)),
                disc: number_of(lookup(row, "disc"@)),
                disc_mbid: text_of(lookup(row, "disc_mbid"@)),
                number: number_of(lookup(row, "number"@)),
                abs_number: None,
                genres,
                release: None,
                performers: Seq::empty(),
                engigneers: Seq::empty(),
                mixers: Seq::empty(),
                producers: Seq::empty(),
                lyricists: Seq::empty(),
                writers: Seq::empty(),
                composers: Seq::empty(),
                format: format_of(lookup(row, "format"@)),
                path: text_of(lookup(row, "path"@)),
            },
        ),
        _ => Err(ErrorView::Decode("title"@)),
    }
}

/// The track that a row of `tracks` holds.
pub open spec fn track_of(row: RowView) -> Result<TrackView, ErrorView> {
    track_with(row, list_of(lookup(row, "genres_json"@)))
}

fn wrong_number() -> (e: Error)
    ensures
        e@ == wrong_relationships(),
{
    Error::Precondition(String::from_str("Wrong number of relationships"))
}

fn take_last(credits: &mut Vec<Vec<Artist>>) -> (last: Vec<Artist>)
    requires
        old(credits).len() > 0,
    ensures
        final(credits).len() == old(credits).len() - 1,
        final(credits).deep_view() == old(credits).deep_view().drop_last(),
        last.deep_view() == old(credits).deep_view().last(),
{
    let ghost before = credits.deep_view();
    match credits.pop() {
        Some(last) => {
            assert(credits.deep_view() =~= before.drop_last());
            last
        },
        None => Vec::new(),
    }
}

fn no_artists() -> (r: Vec<Artist>)
    ensures
        r.deep_view() == Seq::<ArtistView>::empty(),
{
    let r: Vec<Artist> = Vec::new();
    assert(r.deep_view() =~= Seq::<ArtistView>::empty());
    r
}

impl Track {
    /// The track that `row` holds, with `genres` for its genres.
    pub fn from_row(row: &Row, genres: Vec<String>) -> (r: Result<Track, Error>)
        ensures
            agrees(r, track_with(row@, genres.deep_view())),
    {
        match row.text("title") {
            Some(title) => {
                let length = match row.number("length") {
                    Some(secs) => Some(Length::from_secs(secs)),
                    None => None,
                };
                let format = match row.text("format") {
                    Some(ext) => Format::from_ext(ext.as_str()),
                    None => None,
                };
                Ok(
                    Track {
                        mbid: row.text("mbid"),
                        title,
                        artists: no_artists(),
                        length,
                        disc: row.number("disc"),
                        disc_mbid: row.text("disc_mbid"),
                        number: row.number("number"),
                        abs_number: None,
                        genres,
                        release: None,
                        performers: no_artists(),
                        engigneers: no_artists(),
                        mixers: no_artists(),
                        producers: no_artists(),
                        lyricists: no_artists(),
                        writers: no_artists(),
                        composers: no_artists(),
                        format,
                        path: row.text("path"),
                    },
                )
            },
            None => Err(Error::Decode(String::from_str("title"))),
        }
    }
}

impl InTable for Track {
    open spec fn table_spec() -> Seq<char> {
        "tracks"@
    }

    open spec fn fields_spec() -> Seq<Seq<char>> {
        seq![
            "mbid"@,
            "title"@,
            "length"@,
            "disc"@,
            "disc_mbid"@,
            "number"@,
            "genres_json"@,
            "release"@,
            "format"@,
            "path"@,
        ]
    }

    open spec fn decoded(row: RowView) -> Result<TrackView, ErrorView> {
        track_of(row)
    }

    open spec fn relationships_spec(&self) -> Seq<StatementView> {
        seq![
            resolve_statement("track_artists"@, self@.mbid),
            resolve_statement("track_performers"@, self@.mbid),
            resolve_statement("track_engigneers"@, self@.mbid),
            resolve_statement("track_mixers"@, self@.mbid),
            resolve_statement("track_producers"@, self@.mbid),
            resolve_statement("track_lyricists"@, self@.mbid),
            resolve_statement("track_writers"@, self@.mbid),
            resolve_statement("track_composers"@, self@.mbid),
        ]
    }

    open spec fn filled(&self, credits: Seq<Seq<ArtistView>>) -> TrackView {
        TrackView {
            artists: credits[0],
            performers: credits[1],
            engigneers: credits[2],
            mixers: credits[3],
            producers: credits[4],
            lyricists: credits[5],
            writers: credits[6],
            composers: credits[7],
            ..self@
        }
    }

    fn table() -> (t: &'static str) {
        "tracks"
    }

    fn fields() -> (f: Vec<&'static str>) {
        let f = vec![
            "mbid",
            "title",
            "length",
            "disc",
            "disc_mbid",
            "number",
            "genres_json",
            "release",
            "format",
            "path",
        ];
        assert(f.deep_view() =~= Self::fields_spec());
        f
    }

    fn decode(row: &Row) -> (r: Result<Self, Error>) {
        Track::from_row(row, list_in(row, "genres_json"))
    }

    fn relationships(&self) -> (q: Vec<Statement>) {
        let owner = self.mbid.as_ref();
        let mut q: Vec<Statement> = Vec::new();
        q.push(resolve("track_artists", owner));
        q.push(resolve("track_performers", owner));
        q.push(resolve("track_engigneers", owner));
        q.push(resolve("track_mixers", owner));
        q.push(resolve("track_producers", owner));
        q.push(resolve("track_lyricists", owner));
        q.push(resolve("track_writers", owner));
        q.push(resolve("track_composers", owner));
        assert(q.deep_view() =~= self.relationships_spec());
        q
    }

    fn fill_relationships(&mut self, credits: Vec<Vec<Artist>>) -> (r: Result<(), Error>) {
        if credits.len() != 8 {
            return Err(wrong_number());
        }
        let mut credits = credits;
        let ghost lists = credits.deep_view();
        let composers = take_last(&mut credits);
        let writers = take_last(&mut credits);
        let lyricists = take_last(&mut credits);
        let producers = take_last(&mut credits);
        let mixers = take_last(&mut credits);
        let engigneers = take_last(&mut credits);
        let performers = take_last(&mut credits);
        let artists = take_last(&mut credits);
        self.artists = artists;
        self.performers = performers;
        self.engigneers = engigneers;
        self.mixers = mixers;
        self.producers = producers;
        self.lyricists = lyricists;
        self.writers = writers;
        self.composers = composers;
        Ok(())
    }
}

} // verus!
