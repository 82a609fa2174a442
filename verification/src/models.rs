//! The domain entities: artists, tracks and releases.
//!
//! Entities are plain values. A track points at its release through a shared
//! reference; a release never points back at its tracks.

pub use crate::template::Format;

use crate::error::{Error, ErrorView};
use crate::text::{concat, flatten, present};
use crate::track::format::Format as TrackFormat;
use std::sync::Arc;
use vstd::prelude::*;
use vstd::string::*;

verus! {

/// The name used where an artist is not known.
pub const UNKNOWN_ARTIST: &'static str = "(unkown artist)";

/// The title used where a title is not known.
pub const UNKNOWN_TITLE: &'static str = "(unkown title)";

/// A playing time, kept to the millisecond.
#[derive(Clone, Copy, Debug, PartialEq, Eq)]
pub struct Length {
    /// The whole seconds.
    pub secs: u64,
    /// The milliseconds beyond the whole seconds.
    pub subsec_millis: u16,
}

impl Length {
    /// The milliseconds beyond the whole seconds stay below a second.
    pub open spec fn is_valid(self) -> bool {
        self.subsec_millis < 1000
    }

    /// The playing time of `millis` milliseconds.
    pub open spec fn of_millis(millis: u64) -> Length {
        Length { secs: millis / 1000, subsec_millis: (millis % 1000) as u16 }
    }

    /// The playing time of `secs` whole seconds.
    pub open spec fn of_secs(secs: u64) -> Length {
        Length { secs, subsec_millis: 0 }
    }

    /// The playing time of `millis` milliseconds.
    pub fn from_millis(millis: u64) -> (r: Length)
        ensures
            r == Length::of_millis(millis),
            r.is_valid(),
    {
        Length { secs: millis / 1000, subsec_millis: (millis % 1000) as u16 }
    }

    /// The playing time of `secs` whole seconds.
    pub fn from_secs(secs: u64) -> (r: Length)
        ensures
            r == Length::of_secs(secs),
            r.is_valid(),
    {
        Length { secs, subsec_millis: 0 }
    }

    /// The whole seconds, with the rest cut off.
    pub fn as_secs(&self) -> (r: u64)
        ensures
            r == self.secs,
    {
        self.secs
    }
}

/// A calendar day, counted in days from the first day of the year 1 of the
/// proleptic Gregorian calendar, which is day 1.
#[derive(Clone, Copy, Debug, PartialEq, Eq)]
pub struct Date {
    pub days_from_ce: i32,
}

impl Date {
    /// The days from `earlier` to `self`: negative where `self` comes first.
    pub open spec fn days_since_spec(self, earlier: Date) -> int {
        self.days_from_ce - earlier.days_from_ce
    }

    /// The day with the given number.
    pub fn from_days_from_ce(days: i32) -> (r: Date)
        ensures
            r.days_from_ce == days,
    {
        Date { days_from_ce: days }
    }

    /// The signed number of whole days from `earlier` to `self`.
    pub fn days_since(&self, earlier: &Date) -> (r: i64)
        ensures
            r == self.days_since_spec(*earlier),
    {
        self.days_from_ce as i64 - earlier.days_from_ce as i64
    }
}

/// Flattens a nested aggregate into a release and its tracks.
pub trait GroupTracks {
    /// The release and the tracks that `self` stands for.
    spec fn grouped(&self) -> (ReleaseView, Seq<TrackView>);

    /// Takes the aggregate apart. This needs the last reference to it: while
    /// another holder remains, the call fails and says so.
    fn group_tracks(self) -> (r: Result<(Release, Vec<Track>), Error>)
        ensures
            match r {
                Ok((release, tracks)) => (release@, tracks.deep_view()) == self.grouped(),
                Err(e) => e@ == ErrorView::Ownership,
            },
    ;
}

/// A credited artist. Artists are values: each credit list holds its own.
#[derive(Clone, Debug, PartialEq, Eq)]
pub struct Artist {
    pub mbid: Option<String>,
    pub name: String,
    pub join_phrase: Option<String>,
    pub sort_name: Option<String>,
    pub instruments: Vec<String>,
}

/// An artist with its texts as character sequences.
pub struct ArtistView {
    pub mbid: Option<Seq<char>>,
    pub name: Seq<char>,
    pub join_phrase: Option<Seq<char>>,
    pub sort_name: Option<Seq<char>>,
    pub instruments: Seq<Seq<char>>,
}

impl View for Artist {
    type V = ArtistView;

    open spec fn view(&self) -> ArtistView {
        ArtistView {
            mbid: self.mbid.deep_view(),
            name: self.name@,
            join_phrase: self.join_phrase.deep_view(),
            sort_name: self.sort_name.deep_view(),
            instruments: self.instruments.deep_view(),
        }
    }
}

impl DeepView for Artist {
    type V = ArtistView;

    open spec fn deep_view(&self) -> ArtistView {
        self@
    }
}

/// A release: an album or single as the catalog describes it.
#[derive(Clone, Debug, PartialEq, Eq)]
pub struct Release {
    pub mbid: Option<String>,
    pub release_group_mbid: Option<String>,
    pub asin: Option<String>,
    pub title: String,
    pub artists: Vec<Artist>,
    pub discs: Option<u64>,
    pub media: Option<String>,
    pub tracks: Option<u64>,
    pub country: Option<String>,
    pub label: Option<String>,
    pub catalog_no: Option<String>,
    pub status: Option<String>,
    pub release_type: Option<String>,
    pub date: Option<Date>,
    pub original_date: Option<Date>,
    pub script: Option<String>,
}

/// A release with its texts as character sequences.
pub struct ReleaseView {
    pub mbid: Option<Seq<char>>,
    pub release_group_mbid: Option<Seq<char>>,
    pub asin: Option<Seq<char>>,
    pub title: Seq<char>,
    pub artists: Seq<ArtistView>,
    pub discs: Option<u64>,
    pub media: Option<Seq<char>>,
    pub tracks: Option<u64>,
    pub country: Option<Seq<char>>,
    pub label: Option<Seq<char>>,
    pub catalog_no: Option<Seq<char>>,
    pub status: Option<Seq<char>>,
    pub release_type: Option<Seq<char>>,
    pub date: Option<Date>,
    pub original_date: Option<Date>,
    pub script: Option<Seq<char>>,
}

impl View for Release {
    type V = ReleaseView;

    open spec fn view(&self) -> ReleaseView {
        ReleaseView {
            mbid: self.mbid.deep_view(),
            release_group_mbid: self.release_group_mbid.deep_view(),
            asin: self.asin.deep_view(),
            title: self.title@,
            artists: self.artists.deep_view(),
            discs: self.discs,
            media: self.media.deep_view(),
            tracks: self.tracks,
            country: self.country.deep_view(),
            label: self.label.deep_view(),
            catalog_no: self.catalog_no.deep_view(),
            status: self.status.deep_view(),
            release_type: self.release_type.deep_view(),
            date: self.date,
            original_date: self.original_date,
            script: self.script.deep_view(),
        }
    }
}

impl DeepView for Release {
    type V = ReleaseView;

    open spec fn deep_view(&self) -> ReleaseView {
        self@
    }
}

/// A track. Several tracks may share one release.
#[derive(Clone, Debug, PartialEq, Eq)]
pub struct Track {
    pub mbid: Option<String>,
    pub title: String,
    pub artists: Vec<Artist>,
    pub length: Option<Length>,
    pub disc: Option<u64>,
    pub disc_mbid: Option<String>,
    pub number: Option<u64>,
    pub abs_number: Option<u64>,
    pub genres: Vec<String>,
    pub release: Option<Arc<Release>>,
    pub performers: Vec<Artist>,
    pub engigneers: Vec<Artist>,
    pub mixers: Vec<Artist>,
    pub producers: Vec<Artist>,
    pub lyricists: Vec<Artist>,
    pub writers: Vec<Artist>,
    pub composers: Vec<Artist>,
    pub format: Option<TrackFormat>,
    pub path: Option<String>,
}

/// A track with its texts as character sequences and its release by value.
pub struct TrackView {
    pub mbid: Option<Seq<char>>,
    pub title: Seq<char>,
    pub artists: Seq<ArtistView>,
    pub length: Option<Length>,
    pub disc: Option<u64>,
    pub disc_mbid: Option<Seq<char>>,
    pub number: Option<u64>,
    pub abs_number: Option<u64>,
    pub genres: Seq<Seq<char>>,
    pub release: Option<ReleaseView>,
    pub performers: Seq<ArtistView>,
    pub engigneers: Seq<ArtistView>,
    pub mixers: Seq<ArtistView>,
    pub producers: Seq<ArtistView>,
    pub lyricists: Seq<ArtistView>,
    pub writers: Seq<ArtistView>,
    pub composers: Seq<ArtistView>,
    pub format: Option<TrackFormat>,
    pub path: Option<Seq<char>>,
}

impl View for Track {
    type V = TrackView;

    open spec fn view(&self) -> TrackView {
        TrackView {
            mbid: self.mbid.deep_view(),
            title: self.title@,
            artists: self.artists.deep_view(),
            length: self.length,
            disc: self.disc,
            disc_mbid: self.disc_mbid.deep_view(),
            number: self.number,
            abs_number: self.abs_number,
            genres: self.genres.deep_view(),
            release: self.release.deep_view(),
            performers: self.performers.deep_view(),
            engigneers: self.engigneers.deep_view(),
            mixers: self.mixers.deep_view(),
            producers: self.producers.deep_view(),
            lyricists: self.lyricists.deep_view(),
            writers: self.writers.deep_view(),
            composers: self.composers.deep_view(),
            format: self.format,
            path: self.path.deep_view(),
        }
    }
}

impl DeepView for Track {
    type V = TrackView;

    open spec fn deep_view(&self) -> TrackView {
        self@
    }
}

/// What follows an artist's name in a joined credit list, unless the artist
/// is the last: the artist's join phrase, or a comma and a space.
pub open spec fn separator_after(artist: ArtistView) -> Seq<char> {
    match artist.join_phrase {
        Some(phrase) => phrase,
        None => ", "@,
    }
}

/// What the artist at `i` adds to the joined names of `artists`: the name
/// and, unless the artist is the last, what follows it.
pub open spec fn name_piece(artists: Seq<ArtistView>, i: int) -> Seq<char> {
    if i < artists.len() - 1 {
        artists[i].name + separator_after(artists[i])
    } else {
        artists[i].name
    }
}

/// What the artist at `i` adds to the joined sort names of `artists`:
/// nothing without a sort name, else the sort name and, unless the artist is
/// the last, what follows it.
pub open spec fn sort_piece(artists: Seq<ArtistView>, i: int) -> Seq<char> {
    match artists[i].sort_name {
        Some(sort) => if i < artists.len() - 1 {
            sort + separator_after(artists[i])
        } else {
            sort
        },
        None => Seq::empty(),
    }
}

/// How an artist appears in a list of players: once for each instrument, as
/// the name and the instrument in brackets, or by name alone without
/// instruments.
pub open spec fn player_entries(artist: ArtistView) -> Seq<Seq<char>> {
    if artist.instruments.len() > 0 {
        Seq::new(
            artist.instruments.len(),
            |i: int| artist.name + " ("@ + artist.instruments[i] + ")"@,
        )
    } else {
        seq![artist.name]
    }
}

/// What a credit list says as a whole.
pub trait Artists {
    /// The credits of the list.
    spec fn credits(&self) -> Seq<ArtistView>;

    /// The names, in order.
    fn names(&self) -> (r: Vec<String>)
        ensures
            r.deep_view() == Seq::new(self.credits().len(), |i: int| self.credits()[i].name),
    ;

    /// The identifiers of the artists that have one, in order.
    fn ids(&self) -> (r: Vec<String>)
        ensures
            r.deep_view() == present(
                Seq::new(self.credits().len(), |i: int| self.credits()[i].mbid),
            ),
    ;

    /// The sort names of the artists that have one, in order.
    fn sort_order(&self) -> (r: Vec<String>)
        ensures
            r.deep_view() == present(
                Seq::new(self.credits().len(), |i: int| self.credits()[i].sort_name),
            ),
    ;

    /// The names as one text, joined by the artists' join phrases.
    fn joined(&self) -> (r: String)
        ensures
            r@ == concat(Seq::new(self.credits().len(), |i: int| name_piece(self.credits(), i))),
    ;

    /// The sort names as one text, joined by the artists' join phrases.
    fn sort_order_joined(&self) -> (r: String)
        ensures
            r@ == concat(Seq::new(self.credits().len(), |i: int| sort_piece(self.credits(), i))),
    ;

    /// The artists with their instruments, one entry for each instrument.
    fn instruments(&self) -> (r: Vec<String>)
        ensures
            r.deep_view() == flatten(
                Seq::new(self.credits().len(), |i: int| player_entries(self.credits()[i])),
            ),
    ;
}

impl Artists for Vec<Artist> {
    open spec fn credits(&self) -> Seq<ArtistView> {
        self.deep_view()
    }

    fn names(&self) -> (r: Vec<String>) {
        let mut r: Vec<String> = Vec::new();
        let mut i: usize = 0;
        while i < self.len()
            invariant
                i <= self.len(),
                r@.len() == i,
                forall|k: int| 0 <= k < i ==> (#[trigger] r@[k])@ == self@[k]@.name,
            decreases self.len() - i,
        {
            r.push(self[i].name.clone());
            i += 1;
        }
        assert(r.deep_view() =~= Seq::new(self.credits().len(), |i: int| self.credits()[i].name));
        r
    }

    fn ids(&self) -> (r: Vec<String>) {
        let ghost all = Seq::new(self.credits().len(), |i: int| self.credits()[i].mbid);
        let mut r: Vec<String> = Vec::new();
        assert(r.deep_view() =~= present(all.take(0)));
        let mut i: usize = 0;
        while i < self.len()
            invariant
                i <= self.len(),
                all == Seq::new(self.credits().len(), |i: int| self.credits()[i].mbid),
                r.deep_view() == present(all.take(i as int)),
            decreases self.len() - i,
        {
            proof {
                assert(all.take(i + 1).drop_last() =~= all.take(i as int));
                assert(all.take(i + 1).last() == self@[i as int]@.mbid);
            }
            if let Some(id) = &self[i].mbid {
                let ghost before = r.deep_view();
                r.push(id.clone());
                assert(r.deep_view() =~= before.push(id@));
            }
            i += 1;
        }
        proof {
            assert(all.take(i as int) =~= all);
        }
        r
    }

    fn sort_order(&self) -> (r: Vec<String>) {
        let ghost all = Seq::new(self.credits().len(), |i: int| self.credits()[i].sort_name);
        let mut r: Vec<String> = Vec::new();
        assert(r.deep_view() =~= present(all.take(0)));
        let mut i: usize = 0;
        while i < self.len()
            invariant
                i <= self.len(),
                all == Seq::new(self.credits().len(), |i: int| self.credits()[i].sort_name),
                r.deep_view() == present(all.take(i as int)),
            decreases self.len() - i,
        {
            proof {
                assert(all.take(i + 1).drop_last() =~= all.take(i as int));
                assert(all.take(i + 1).last() == self@[i as int]@.sort_name);
            }
            if let Some(sort) = &self[i].sort_name {
                let ghost before = r.deep_view();
                r.push(sort.clone());
                assert(r.deep_view() =~= before.push(sort@));
            }
            i += 1;
        }
        proof {
            assert(all.take(i as int) =~= all);
        }
        r
    }

    fn joined(&self) -> (r: String) {
        let ghost pieces = Seq::new(self.credits().len(), |i: int| name_piece(self.credits(), i));
        let mut r = String::new();
        let mut i: usize = 0;
        while i < self.len()
            invariant
                i <= self.len(),
                pieces == Seq::new(self.credits().len(), |i: int| name_piece(self.credits(), i)),
                r@ == concat(pieces.take(i as int)),
            decreases self.len() - i,
        {
            proof {
                assert(pieces.take(i + 1).drop_last() =~= pieces.take(i as int));
                assert(pieces.take(i + 1).last() == name_piece(self.credits(), i as int));
                assert(self.credits()[i as int] == self@[i as int]@);
            }
            r.append(self[i].name.as_str());
            if i < self.len() - 1 {
                match &self[i].join_phrase {
                    Some(phrase) => {
                        r.append(phrase.as_str());
                    },
                    None => {
                        r.append(", ");
                    },
                }
            }
            assert(r@ =~= concat(pieces.take(i as int)) + name_piece(self.credits(), i as int));
            i += 1;
        }
        proof {
            assert(pieces.take(i as int) =~= pieces);
        }
        r
    }

    fn sort_order_joined(&self) -> (r: String) {
        let ghost pieces = Seq::new(self.credits().len(), |i: int| sort_piece(self.credits(), i));
        let mut r = String::new();
        let mut i: usize = 0;
        while i < self.len()
            invariant
                i <= self.len(),
                pieces == Seq::new(self.credits().len(), |i: int| sort_piece(self.credits(), i)),
                r@ == concat(pieces.take(i as int)),
            decreases self.len() - i,
        {
            proof {
                assert(pieces.take(i + 1).drop_last() =~= pieces.take(i as int));
                assert(pieces.take(i + 1).last() == sort_piece(self.credits(), i as int));
                assert(self.credits()[i as int] == self@[i as int]@);
            }
            if let Some(sort) = &self[i].sort_name {
                r.append(sort.as_str());
                if i < self.len() - 1 {
                    match &self[i].join_phrase {
                        Some(phrase) => {
                            r.append(phrase.as_str());
                        },
                        None => {
                            r.append(", ");
                        },
                    }
                }
            }
            assert(r@ =~= concat(pieces.take(i as int)) + sort_piece(self.credits(), i as int));
            i += 1;
        }
        proof {
            assert(pieces.take(i as int) =~= pieces);
        }
        r
    }

    fn instruments(&self) -> (r: Vec<String>) {
        let ghost lists = Seq::new(self.credits().len(), |i: int| player_entries(self.credits()[i]));
        let mut r: Vec<String> = Vec::new();
        assert(r.deep_view() =~= flatten(lists.take(0)));
        let mut i: usize = 0;
        while i < self.len()
            invariant
                i <= self.len(),
                lists == Seq::new(self.credits().len(), |i: int| player_entries(self.credits()[i])),
                r.deep_view() == flatten(lists.take(i as int)),
            decreases self.len() - i,
        {
            let artist = &self[i];
            let ghost before = r.deep_view();
            let ghost wanted = player_entries(artist@);
            proof {
                assert(lists.take(i + 1).drop_last() =~= lists.take(i as int));
                assert(lists.take(i + 1).last() == wanted);
                assert(self.credits()[i as int] == artist@);
            }
            if artist.instruments.len() > 0 {
                let mut j: usize = 0;
                while j < artist.instruments.len()
                    invariant
                        j <= artist.instruments.len(),
                        artist.instruments.len() > 0,
                        wanted == player_entries(artist@),
                        r.deep_view() == before + wanted.take(j as int),
                    decreases artist.instruments.len() - j,
                {
                    let ghost sofar = r.deep_view();
                    let mut entry = artist.name.clone();
                    entry.append(" (");
                    entry.append(artist.instruments[j].as_str());
                    entry.append(")");
                    proof {
                        assert(artist@.instruments[j as int] == artist.instruments[j as int]@);
                        assert(entry@ =~= wanted[j as int]);
                        assert(wanted.take(j + 1) =~= wanted.take(j as int).push(wanted[j as int]));
                    }
                    r.push(entry);
                    assert(r.deep_view() =~= sofar.push(entry@));
                    j += 1;
                }
                assert(wanted.take(j as int) =~= wanted);
            } else {
                r.push(artist.name.clone());
                assert(r.deep_view() =~= before + wanted);
            }
            i += 1;
        }
        proof {
            assert(lists.take(i as int) =~= lists);
        }
        r
    }
}

} // verus!
