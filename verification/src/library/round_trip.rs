//! What comes back of an entity's own row once it was written.
//!
//! A row that is read back holds, under each column's name, the value that
//! was bound to that column when the row was written. Decoding such a row
//! gives the entity back as far as its row holds it.

use crate::error::ErrorView;
use crate::library::row::{lookup, lookup_from, RowView};
use crate::library::sql::{lemma_loaded_stored, SqlValueView, StatementView};
use crate::library::store::{artist_upsert, release_upsert, track_upsert};
use crate::library::tables::{artist_of, list_of, release_of, track_of};
use crate::library::InTable;
use crate::models::{Artist, ArtistView, Length, Release, ReleaseView, Track, TrackView};
use vstd::prelude::*;

verus! {

/// The row that a statement writes: each column with the value bound to it.
pub open spec fn written_row(columns: Seq<Seq<char>>, statement: StatementView) -> RowView {
    Seq::new(columns.len(), |i: int| (columns[i], statement.binds[i]))
}

/// In a written row the value under a column's name is the value that was
/// bound to the column, provided that no two columns have the same name.
pub proof fn lemma_lookup_written(columns: Seq<Seq<char>>, statement: StatementView, i: int)
    requires
        columns.no_duplicates(),
        0 <= i < columns.len(),
    ensures
        lookup(written_row(columns, statement), columns[i]) == statement.binds[i],
{
    lemma_lookup_from_written(columns, statement, i, 0);
}

proof fn lemma_lookup_from_written(
    columns: Seq<Seq<char>>,
    statement: StatementView,
    i: int,
    from: int,
)
    requires
        columns.no_duplicates(),
        0 <= from <= i < columns.len(),
    ensures
        lookup_from(written_row(columns, statement), columns[i], from) == statement.binds[i],
    decreases i - from,
{
    if from < i {
        assert(columns[from] != columns[i]);
        lemma_lookup_from_written(columns, statement, i, from + 1);
    }
}

/// No two columns of the table of releases have the same name.
pub proof fn lemma_release_columns_differ()
    ensures
        Release::fields_spec().no_duplicates(),
{
    reveal_strlit("mbid");
    reveal_strlit("release_group_mbid");
    reveal_strlit("asin");
    reveal_strlit("title");
    reveal_strlit("discs");
    reveal_strlit("media");
    reveal_strlit("tracks");
    reveal_strlit("country");
    reveal_strlit("label");
    reveal_strlit("catalog_no");
    reveal_strlit("status");
    reveal_strlit("release_type");
    reveal_strlit("date");
    reveal_strlit("original_date");
    reveal_strlit("script");
    let names = Release::fields_spec();
    assert(names[0][0] == 'm' && names[0].len() == 4);
    assert(names[1].len() == 18);
    assert(names[2][0] == 'a' && names[2].len() == 4);
    assert(names[3][0] == 't' && names[3].len() == 5);
    assert(names[4][0] == 'd' && names[4].len() == 5);
    assert(names[5][0] == 'm' && names[5].len() == 5);
    assert(names[6][0] == 't' && names[6].len() == 6);
    assert(names[7].len() == 7);
    assert(names[8][0] == 'l' && names[8].len() == 5);
    assert(names[9].len() == 10);
    assert(names[10][1] == 't' && names[10].len() == 6);
    assert(names[11].len() == 12);
    assert(names[12][0] == 'd' && names[12].len() == 4);
    assert(names[13].len() == 13);
    assert(names[14][1] == 'c' && names[14][0] == 's' && names[14].len() == 6);
    assert(names[10][0] == 's');
}

/// Decoding the row that a release was written as gives the release back,
/// without its artists: those are kept in a link table.
pub proof fn lemma_release_row_round_trip(release: ReleaseView)
    ensures
        release_of(written_row(Release::fields_spec(), release_upsert(release))) == Ok::<
            ReleaseView,
            ErrorView,
        >(ReleaseView { artists: Seq::empty(), ..release }),
{
    let columns = Release::fields_spec();
    let statement = release_upsert(release);
    lemma_release_columns_differ();
    lemma_lookup_written(columns, statement, 0);
    lemma_lookup_written(columns, statement, 1);
    lemma_lookup_written(columns, statement, 2);
    lemma_lookup_written(columns, statement, 3);
    lemma_lookup_written(columns, statement, 4);
    lemma_lookup_written(columns, statement, 5);
    lemma_lookup_written(columns, statement, 6);
    lemma_lookup_written(columns, statement, 7);
    lemma_lookup_written(columns, statement, 8);
    lemma_lookup_written(columns, statement, 9);
    lemma_lookup_written(columns, statement, 10);
    lemma_lookup_written(columns, statement, 11);
    lemma_lookup_written(columns, statement, 12);
    lemma_lookup_written(columns, statement, 13);
    lemma_lookup_written(columns, statement, 14);
    if let Some(n) = release.discs {
        lemma_loaded_stored(n);
    }
    if let Some(n) = release.tracks {
        lemma_loaded_stored(n);
    }
}

/// No two columns of the table of artists have the same name.
pub proof fn lemma_artist_columns_differ()
    ensures
        Artist::fields_spec().no_duplicates(),
{
    reveal_strlit("mbid");
    reveal_strlit("name");
    reveal_strlit("sort_name");
    reveal_strlit("instruments_json");
    let names = Artist::fields_spec();
    assert(names[0][0] == 'm' && names[0].len() == 4);
    assert(names[1][0] == 'n' && names[1].len() == 4);
    assert(names[2].len() == 9);
    assert(names[3].len() == 16);
}

/// Decoding the row that an artist was written as gives the artist back
/// with the instruments that the written JSON text denotes, and without a
/// join phrase: that belongs to a credit, which no row of artists holds.
pub proof fn lemma_artist_row_round_trip(artist: ArtistView, instruments_json: Seq<char>)
    ensures
        artist_of(written_row(Artist::fields_spec(), artist_upsert(artist, instruments_json)))
            == Ok::<ArtistView, ErrorView>(
            ArtistView {
                join_phrase: None,
                instruments: list_of(SqlValueView::Text(instruments_json)),
                ..artist
            },
        ),
{
    let columns = Artist::fields_spec();
    let statement = artist_upsert(artist, instruments_json);
    lemma_artist_columns_differ();
    lemma_lookup_written(columns, statement, 0);
    lemma_lookup_written(columns, statement, 1);
    lemma_lookup_written(columns, statement, 2);
    lemma_lookup_written(columns, statement, 3);
}

/// No two columns of the table of tracks have the same name.
pub proof fn lemma_track_columns_differ()
    ensures
        Track::fields_spec().no_duplicates(),
{
    reveal_strlit("mbid");
    reveal_strlit("title");
    reveal_strlit("length");
    reveal_strlit("disc");
    reveal_strlit("disc_mbid");
    reveal_strlit("number");
    reveal_strlit("genres_json");
    reveal_strlit("release");
    reveal_strlit("format");
    reveal_strlit("path");
    let names = Track::fields_spec();
    assert(names[0][0] == 'm' && names[0].len() == 4);
    assert(names[1].len() == 5);
    assert(names[2][0] == 'l' && names[2].len() == 6);
    assert(names[3][0] == 'd' && names[3].len() == 4);
    assert(names[4].len() == 9);
    assert(names[5][0] == 'n' && names[5].len() == 6);
    assert(names[6].len() == 11);
    assert(names[7].len() == 7);
    assert(names[8][0] == 'f' && names[8].len() == 6);
    assert(names[9][0] == 'p' && names[9].len() == 4);
}

/// The playing time that comes back of a stored one: its whole seconds.
pub open spec fn whole_seconds(length: Option<Length>) -> Option<Length> {
    match length {
        Some(l) => Some(Length::of_secs(l.secs)),
        None => None,
    }
}

/// Decoding the row that a track was written as gives the track back with
/// the whole seconds of its length and with the genres that the written JSON
/// text denotes, and without what its row does not hold: its release, its
/// credits and its place among all tracks of the release.
pub proof fn lemma_track_row_round_trip(track: TrackView, genres_json: Seq<char>, path: Seq<char>)
    ensures
        track_of(written_row(Track::fields_spec(), track_upsert(track, genres_json, path))) == Ok::<
            TrackView,
            ErrorView,
        >(
            TrackView {
                artists: Seq::empty(),
                length: whole_seconds(track.length),
                abs_number: None,
                genres: list_of(SqlValueView::Text(genres_json)),
                release: None,
                performers: Seq::empty(),
                engigneers: Seq::empty(),
                mixers: Seq::empty(),
                producers: Seq::empty(),
                lyricists: Seq::empty(),
                writers: Seq::empty(),
                composers: Seq::empty(),
                path: Some(path),
                ..track
            },
        ),
{
    let columns = Track::fields_spec();
    let statement = track_upsert(track, genres_json, path);
    lemma_track_columns_differ();
    lemma_lookup_written(columns, statement, 0);
    lemma_lookup_written(columns, statement, 1);
    lemma_lookup_written(columns, statement, 2);
    lemma_lookup_written(columns, statement, 3);
    lemma_lookup_written(columns, statement, 4);
    lemma_lookup_written(columns, statement, 5);
    lemma_lookup_written(columns, statement, 6);
    lemma_lookup_written(columns, statement, 7);
    lemma_lookup_written(columns, statement, 8);
    lemma_lookup_written(columns, statement, 9);
    if let Some(l) = track.length {
        lemma_loaded_stored(l.secs);
    }
    if let Some(n) = track.disc {
        lemma_loaded_stored(n);
    }
    if let Some(n) = track.number {
        lemma_loaded_stored(n);
    }
    if let Some(f) = track.format {
        f.lemma_ext_names_format();
    }
}

} // verus!
