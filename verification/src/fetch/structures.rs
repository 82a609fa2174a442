//! The catalog's wire structures, and their conversion into the flat domain
//! model.
//!
//! On the wire a release nests its media, a medium its tracks and a track its
//! recording. The domain model is flat: a release, and tracks that point at
//! it.

use crate::error::Error;
use crate::error::ErrorView;
use crate::models::{ArtistView, GroupTracks, Length, ReleaseView, TrackView};
use crate::text::copy_opt_string;
use vstd::std_specs::convert::FromSpecImpl;
use std::sync::Arc;
use vstd::prelude::*;

verus! {

/// A release as the catalog sends it, with its media nested in it.
#[derive(Default, Debug, Clone, PartialEq)]
pub struct Release {
    pub disambiguation: Option<String>,
    pub label_info: Vec<LabelInfo>,
    pub status: Option<String>,
    pub release_group: Option<ReleaseGroup>,
    pub cover_art_archive: Option<CoverArtArchive>,
    pub status_id: Option<String>,
    pub packaging: Option<String>,
    pub artist_credit: Vec<ArtistCredit>,
    pub asin: Option<String>,
    pub date: Option<String>,
    pub release_events: Vec<Event>,
    pub id: String,
    pub barcode: Option<String>,
    pub quality: Option<String>,
    pub media: Vec<Medium>,
    pub country: Option<String>,
    pub packaging_id: Option<String>,
    pub text_representation: Option<TextRepresentation>,
    pub title: String,
    pub tags: Vec<Tag>,
    pub track_count: Option<usize>,
}

/// A label as the catalog sends it.
#[derive(Default, Debug, Clone, PartialEq)]
pub struct Label {
    pub sort_name: Option<String>,
    pub name: String,
    pub id: String,
    pub disambiguation: Option<String>,
    pub type_field: Option<String>,
    pub type_id: Option<String>,
}

/// The group of releases that a release belongs to.
#[derive(Default, Debug, Clone, PartialEq)]
pub struct ReleaseGroup {
    pub first_release_date: Option<String>,
    pub title: String,
    pub primary_type_id: String,
    pub id: String,
    pub disambiguation: Option<String>,
    pub primary_type: String,
}

/// What cover art the catalog knows of for a release.
#[derive(Default, Debug, Clone, PartialEq)]
pub struct CoverArtArchive {
    pub count: i64,
    pub front: bool,
    pub back: bool,
    pub artwork: bool,
    pub darkened: bool,
}

/// One credit of a release: the name as credited, the artist, and the phrase
/// that joins this credit to the next.
#[derive(Default, Debug, Clone, PartialEq)]
pub struct ArtistCredit {
    pub name: String,
    pub joinphrase: Option<String>,
    pub artist: Artist,
}

/// An artist as the catalog sends it.
#[derive(Default, Debug, Clone, PartialEq)]
pub struct Artist {
    pub type_id: Option<String>,
    pub type_field: Option<String>,
    pub disambiguation: Option<String>,
    pub id: String,
    pub name: String,
    pub sort_name: String,
}

/// A release event: where and when a release came out.
#[derive(Default, Debug, Clone, PartialEq)]
pub struct Event {
    pub area: Area,
    pub date: String,
}

/// An area in which a release came out.
#[derive(Default, Debug, Clone, PartialEq)]
pub struct Area {
    pub iso_3166_1_codes: Vec<String>,
    pub id: String,
    pub disambiguation: Option<String>,
    pub sort_name: String,
    pub name: String,
}

/// One medium of a release, with its tracks nested in it.
#[derive(Default, Debug, Clone, PartialEq)]
pub struct Medium {
    pub position: Option<u64>,
    pub track_offset: Option<u64>,
    pub tracks: Option<Vec<Track>>,
}

/// A track as the catalog sends it, with its recording nested in it. The
/// medium and the release are not sent: they are attached when the track is
/// taken out of them.
#[derive(Default, Debug, Clone, PartialEq)]
pub struct Track {
    pub id: String,
    pub recording: Recording,
    pub number: String,
    pub position: u64,
    pub length: Option<u64>,
    pub title: String,
    pub medium: Option<Arc<Medium>>,
    pub release: Option<Arc<Release>>,
}

/// The recording that a track plays.
#[derive(Default, Debug, Clone, PartialEq)]
pub struct Recording {
    pub disambiguation: String,
    pub id: String,
    pub length: u64,
    pub video: bool,
    pub first_release_date: String,
    pub title: Option<String>,
}

/// The answer to a search: the candidates, in the catalog's order of
/// relevance.
#[derive(Default, Debug, Clone, PartialEq)]
pub struct ReleaseSearch {
    pub created: String,
    pub count: i64,
    pub offset: i64,
    pub releases: Vec<Release>,
}

/// The language and script in which a release is written.
#[derive(Default, Debug, Clone, PartialEq)]
pub struct TextRepresentation {
    pub language: Option<String>,
    pub script: Option<String>,
}

/// A label of a release with the catalog number it gave the release.
#[derive(Default, Debug, Clone, PartialEq)]
pub struct LabelInfo {
    pub catalog_number: Option<String>,
    pub label: Option<Label>,
}

/// A tag that users of the catalog gave a release, with its count.
#[derive(Default, Debug, Clone, PartialEq)]
pub struct Tag {
    pub count: i64,
    pub name: String,
}

/// The domain artist that a wire credit stands for: the credited name, the
/// artist's identifier and sort name, and the phrase that joins this credit
/// to the next.
pub open spec fn credited(credit: ArtistCredit) -> ArtistView {
    ArtistView {
        mbid: Some(credit.artist.id@),
        name: credit.name@,
        join_phrase: credit.joinphrase.deep_view(),
        sort_name: Some(credit.artist.sort_name@),
        instruments: Seq::empty(),
    }
}

/// The domain release that a wire release stands for: its identifier, its
/// title and its artist credits.
pub open spec fn flat_release(release: Release) -> ReleaseView {
    ReleaseView {
        mbid: Some(release.id@),
        release_group_mbid: None,
        asin: None,
        title: release.title@,
        artists: Seq::new(release.artist_credit@.len(), |i: int| credited(release.artist_credit@[i])),
        discs: None,
        media: None,
        tracks: None,
        country: None,
        label: None,
        catalog_no: None,
        status: None,
        release_type: None,
        date: None,
        original_date: None,
        script: None,
    }
}

/// The track offset of a medium: nothing counts as zero.
pub open spec fn offset_of(medium: Option<Medium>) -> u64 {
    match medium {
        Some(m) => match m.track_offset {
            Some(offset) => offset,
            None => 0,
        },
        None => 0,
    }
}

/// The position of a medium among the media of its release.
pub open spec fn position_of(medium: Option<Medium>) -> Option<u64> {
    match medium {
        Some(m) => m.position,
        None => None,
    }
}

/// The position of a track among all tracks of its release: the offset of
/// its medium plus its position on the medium; nothing where that number is
/// beyond the largest that a track number can hold.
pub open spec fn absolute_number(offset: u64, position: u64) -> Option<u64> {
    if offset + position <= u64::MAX {
        Some((offset + position) as u64)
    } else {
        None
    }
}

/// The domain track that a wire track stands for, given the medium it is on
/// and the release it belongs to. Its length is the track's own where it has
/// one, else that of its recording, in milliseconds.
pub open spec fn flat_track_with(
    track: Track,
    medium: Option<Medium>,
    release: Option<ReleaseView>,
) -> TrackView {
    TrackView {
        mbid: Some(track.id@),
        title: track.title@,
        artists: Seq::empty(),
        length: Some(
            Length::of_millis(
                match track.length {
                    Some(millis) => millis,
                    None => track.recording.length,
                },
            ),
        ),
        disc: position_of(medium),
        disc_mbid: None,
        number: Some(track.position),
        abs_number: absolute_number(offset_of(medium), track.position),
        genres: Seq::empty(),
        release,
        performers: Seq::empty(),
        engigneers: Seq::empty(),
        mixers: Seq::empty(),
        producers: Seq::empty(),
        lyricists: Seq::empty(),
        writers: Seq::empty(),
        composers: Seq::empty(),
        format: None,
        path: None,
    }
}

/// The medium that a wire track carries, by value.
pub open spec fn medium_of(track: Track) -> Option<Medium> {
    match track.medium {
        Some(m) => Some(*m),
        None => None,
    }
}

/// The domain release of the wire release that a wire track carries.
pub open spec fn release_of(track: Track) -> Option<ReleaseView> {
    match track.release {
        Some(r) => Some(flat_release(*r)),
        None => None,
    }
}

/// The domain track that a wire track stands for, with the medium and the
/// release that it carries.
pub open spec fn flat_track(track: Track) -> TrackView {
    flat_track_with(track, medium_of(track), release_of(track))
}

/// The domain tracks of one medium of `release`, in order.
pub open spec fn medium_tracks(release: Release, medium: Medium) -> Seq<TrackView> {
    match medium.tracks {
        Some(tracks) => Seq::new(
            tracks@.len(),
            |i: int| flat_track_with(tracks@[i], Some(medium), Some(flat_release(release))),
        ),
        None => Seq::empty(),
    }
}

/// The domain tracks of the given media of `release`, medium after medium.
pub open spec fn media_tracks(release: Release, media: Seq<Medium>) -> Seq<TrackView>
    decreases media.len(),
{
    if media.len() == 0 {
        Seq::empty()
    } else {
        media_tracks(release, media.drop_last()) + medium_tracks(release, media.last())
    }
}

fn no_artists() -> (r: Vec<crate::models::Artist>)
    ensures
        r.deep_view() == Seq::<ArtistView>::empty(),
{
    let r: Vec<crate::models::Artist> = Vec::new();
    assert(r.deep_view() =~= Seq::<ArtistView>::empty());
    r
}

fn no_strings() -> (r: Vec<String>)
    ensures
        r.deep_view() == Seq::<Seq<char>>::empty(),
{
    let r: Vec<String> = Vec::new();
    assert(r.deep_view() =~= Seq::<Seq<char>>::empty());
    r
}

/// The domain artist that a wire credit stands for.
pub fn convert_credit(credit: &ArtistCredit) -> (r: crate::models::Artist)
    ensures
        r@ == credited(*credit),
{
    crate::models::Artist {
        mbid: Some(credit.artist.id.clone()),
        name: credit.name.clone(),
        join_phrase: copy_opt_string(&credit.joinphrase),
        sort_name: Some(credit.artist.sort_name.clone()),
        instruments: no_strings(),
    }
}

/// The domain release that a wire release stands for.
pub fn convert_release(release: &Release) -> (r: crate::models::Release)
    ensures
        r@ == flat_release(*release),
{
    let mut artists: Vec<crate::models::Artist> = Vec::new();
    let mut i: usize = 0;
    while i < release.artist_credit.len()
        invariant
            i <= release.artist_credit.len(),
            artists@.len() == i,
            forall|k: int| 0 <= k < i ==> (#[trigger] artists@[k])@ == credited(release.artist_credit@[k]),
        decreases release.artist_credit.len() - i,
    {
        artists.push(convert_credit(&release.artist_credit[i]));
        i += 1;
    }
    assert(artists.deep_view() =~= flat_release(*release).artists);
    crate::models::Release {
        mbid: Some(release.id.clone()),
        release_group_mbid: None,
        asin: None,
        title: release.title.clone(),
        artists,
        discs: None,
        media: None,
        tracks: None,
        country: None,
        label: None,
        catalog_no: None,
        status: None,
        release_type: None,
        date: None,
        original_date: None,
        script: None,
    }
}

/// The domain track that a wire track stands for, on `medium` and with
/// `release` for its release.
pub fn convert_track(
    track: &Track,
    medium: Option<&Medium>,
    release: Option<Arc<crate::models::Release>>,
) -> (r: crate::models::Track)
    ensures
        r@ == flat_track_with(*track, match medium {
            Some(m) => Some(*m),
            None => None,
        }, release.deep_view()),
{
    let offset: u64 = match medium {
        Some(m) => match m.track_offset {
            Some(offset) => offset,
            None => 0,
        },
        None => 0,
    };
    let disc: Option<u64> = match medium {
        Some(m) => m.position,
        None => None,
    };
    let millis: u64 = match track.length {
        Some(millis) => millis,
        None => track.recording.length,
    };
    crate::models::Track {
        mbid: Some(track.id.clone()),
        title: track.title.clone(),
        artists: no_artists(),
        length: Some(Length::from_millis(millis)),
        disc,
        disc_mbid: None,
        number: Some(track.position),
        abs_number: offset.checked_add(track.position),
        genres: no_strings(),
        release,
        performers: no_artists(),
        engigneers: no_artists(),
        mixers: no_artists(),
        producers: no_artists(),
        lyricists: no_artists(),
        writers: no_artists(),
        composers: no_artists(),
        format: None,
        path: None,
    }
}

impl From<Release> for crate::models::Release {
    /// The domain release that a wire release stands for.
    fn from(release: Release) -> (r: Self)
        ensures
            r@ == flat_release(release),
    {
        convert_release(&release)
    }
}

impl FromSpecImpl<Release> for crate::models::Release {
    open spec fn obeys_from_spec() -> bool {
        false
    }

    open spec fn from_spec(v: Release) -> Self {
        arbitrary()
    }
}

impl From<Track> for crate::models::Track {
    /// The domain track that a wire track stands for, on the medium and with
    /// the release that it carries.
    fn from(track: Track) -> (r: Self)
        ensures
            r@ == flat_track(track),
    {
        let release = match &track.release {
            Some(r) => Some(Arc::new(convert_release(&**r))),
            None => None,
        };
        match &track.medium {
            Some(m) => convert_track(&track, Some(&**m), release),
            None => convert_track(&track, None, release),
        }
    }
}

impl FromSpecImpl<Track> for crate::models::Track {
    open spec fn obeys_from_spec() -> bool {
        false
    }

    open spec fn from_spec(v: Track) -> Self {
        arbitrary()
    }
}

/// Calls `Arc::clone` of std, which gives another reference to the same
/// value.
#[verifier::external_body]
fn share<T>(shared: &Arc<T>) -> (r: Arc<T>)
    ensures
        r == *shared,
{
    Arc::clone(shared)
}

/// Calls `Arc::try_unwrap` of std, which gives the value back where
/// `shared` is the only strong reference to it, and else `shared` itself.
/// Which of the two happens depends on who else holds a reference.
#[verifier::external_body]
fn reclaim<T>(shared: Arc<T>) -> (r: Result<T, Arc<T>>)
    ensures
        match r {
            Ok(value) => value == *shared,
            Err(still_shared) => still_shared == shared,
        },
{
    Arc::try_unwrap(shared)
}

/// The domain tracks of every medium of `release`, medium after medium, each
/// pointing at one shared domain release.
pub fn convert_tracks(release: &Release) -> (r: Vec<crate::models::Track>)
    ensures
        r.deep_view() == media_tracks(*release, release.media@),
{
    let shared = Arc::new(convert_release(release));
    let ghost media = release.media@;
    let mut all: Vec<crate::models::Track> = Vec::new();
    assert(all.deep_view() =~= media_tracks(*release, media.take(0)));
    let mut i: usize = 0;
    while i < release.media.len()
        invariant
            i <= release.media.len(),
            media == release.media@,
            shared@ == flat_release(*release),
            all.deep_view() == media_tracks(*release, media.take(i as int)),
        decreases release.media.len() - i,
    {
        let medium = &release.media[i];
        proof {
            assert(media.take(i + 1).drop_last() =~= media.take(i as int));
            assert(media.take(i + 1).last() == *medium);
        }
        let ghost before = all.deep_view();
        match &medium.tracks {
            Some(tracks) => {
                let mut j: usize = 0;
                while j < tracks.len()
                    invariant
                        j <= tracks.len(),
                        medium.tracks == Some(*tracks),
                        shared@ == flat_release(*release),
                        all.deep_view() == before + medium_tracks(*release, *medium).take(j as int),
                    decreases tracks.len() - j,
                {
                    let ghost sofar = all.deep_view();
                    let track = convert_track(&tracks[j], Some(medium), Some(share(&shared)));
                    all.push(track);
                    proof {
                        let wanted = medium_tracks(*release, *medium);
                        assert(wanted.take(j + 1) =~= wanted.take(j as int).push(wanted[j as int]));
                        assert(all.deep_view() =~= sofar.push(track@));
                    }
                    j += 1;
                }
                proof {
                    let wanted = medium_tracks(*release, *medium);
                    assert(wanted.take(j as int) =~= wanted);
                }
            },
            None => {
                assert(all.deep_view() =~= before + medium_tracks(*release, *medium));
            },
        }
        i += 1;
    }
    proof {
        assert(media.take(i as int) =~= media);
    }
    all
}

impl GroupTracks for Arc<Release> {
    open spec fn grouped(&self) -> (ReleaseView, Seq<TrackView>) {
        (flat_release(**self), media_tracks(**self, (**self).media@))
    }

    fn group_tracks(self) -> (r: Result<(crate::models::Release, Vec<crate::models::Track>), Error>) {
        let tracks = convert_tracks(&*self);
        match reclaim(self) {
            Ok(owned) => Ok((crate::models::Release::from(owned), tracks)),
            Err(_) => Err(Error::Ownership),
        }
    }
}

} // verus!
