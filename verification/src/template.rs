//! Renders entities into texts by templates with named fields in braces.

use crate::error::{Error, ErrorView};
use crate::models::{
    name_piece, sort_piece, Artist, ArtistView, Artists, Date, Release, ReleaseView, Track,
    TrackView,
};
use crate::text::{
    concat, decimal, decimal_text, join_strings, joined, owned, present, signed_decimal,
    signed_text,
};
use crate::track::key::TagKey;
use vstd::prelude::*;
use vstd::string::*;

verus! {

/// The names and values that a template may refer to, in order. Of two
/// entries with the same name the later counts.
pub type Vars = Seq<(Seq<char>, Seq<char>)>;

/// The text that a template gives with the given variables, where it gives
/// one: what the crate strfmt makes of them.
pub uninterp spec fn rendered(template: Seq<char>, vars: Seq<(Seq<char>, Seq<char>)>) -> Option<
    Seq<char>,
>;

/// Collects the variables into a map and calls `strfmt` of the crate of
/// that name. The result is the text, and nothing where strfmt reports an
/// error: a malformed template or a field that no variable names.
#[verifier::external_body]
fn render(template: &str, vars: &Vec<(String, String)>) -> (r: Option<String>)
    ensures
        r.deep_view() == rendered(template@, vars.deep_view()),
{
    let map: std::collections::HashMap<String, String> = vars.iter().cloned().collect();
    strfmt::strfmt(template, &map).ok()
}

/// The day of a date as year, month and day with hyphens between, where the
/// calendar of the crate chrono reaches that far.
pub uninterp spec fn iso_date(days_from_ce: i32) -> Option<Seq<char>>;

/// The year of a date, where the calendar of the crate chrono reaches that
/// far.
pub uninterp spec fn year_of(days_from_ce: i32) -> Option<i32>;

/// Calls `NaiveDate::from_num_days_from_ce_opt` of the crate chrono and
/// renders the date as chrono does. Nothing where the day is out of chrono's
/// range.
#[verifier::external_body]
fn date_text(date: Date) -> (r: Option<String>)
    ensures
        r.deep_view() == iso_date(date.days_from_ce),
{
    chrono::NaiveDate::from_num_days_from_ce_opt(date.days_from_ce).map(|d| d.to_string())
}

/// Calls `NaiveDate::from_num_days_from_ce_opt` of the crate chrono and
/// takes the year of the date. Nothing where the day is out of chrono's
/// range.
#[verifier::external_body]
fn date_year(date: Date) -> (r: Option<i32>)
    ensures
        r == year_of(date.days_from_ce),
{
    chrono::NaiveDate::from_num_days_from_ce_opt(date.days_from_ce).map(
        |d| chrono::Datelike::year(&d),
    )
}

/// The error that is reported where a template cannot be rendered.
pub open spec fn bad_template() -> ErrorView {
    ErrorView::Configuration("Could not render template"@)
}

/// What rendering owes, given what the template gave.
pub open spec fn formatted_spec(text: Option<Seq<char>>) -> Result<Seq<char>, ErrorView> {
    match text {
        Some(t) => Ok(t),
        None => Err(bad_template()),
    }
}

/// `r` is what `expected` says, the text by its characters and the error by
/// its view.
pub open spec fn renders(r: Result<String, Error>, expected: Result<Seq<char>, ErrorView>) -> bool {
    match r {
        Ok(text) => expected == Ok::<Seq<char>, ErrorView>(text@),
        Err(e) => expected == Err::<Seq<char>, ErrorView>(e@),
    }
}

/// The rendered text, or the failure to render.
pub fn formatted(text: Option<String>) -> (r: Result<String, Error>)
    ensures
        renders(r, formatted_spec(text.deep_view())),
{
    match text {
        Some(t) => Ok(t),
        None => Err(Error::Configuration(String::from_str("Could not render template"))),
    }
}

/// An entity that can be rendered by a template.
pub trait Format {
    /// The variables that a template for the entity may refer to.
    spec fn vars_spec(&self) -> Vars;

    /// The variables that a template for the entity may refer to.
    fn vars(&self) -> (v: Vec<(String, String)>)
        ensures
            v.deep_view() == self.vars_spec(),
    ;

    /// Renders the entity by `template`.
    fn fmt(&self, template: &str) -> (r: Result<String, Error>)
        ensures
            renders(r, formatted_spec(rendered(template@, self.vars_spec()))),
    ;
}

/// An optional text, empty where it is missing.
pub open spec fn or_empty(text: Option<Seq<char>>) -> Seq<char> {
    match text {
        Some(t) => t,
        None => Seq::empty(),
    }
}

fn text_or_empty(text: &Option<String>) -> (r: String)
    ensures
        r@ == or_empty(text.deep_view()),
{
    match text {
        Some(t) => t.clone(),
        None => String::new(),
    }
}

fn var(name: &str, value: String) -> (r: (String, String))
    ensures
        r.deep_view() == (name@, value@),
{
    (owned(name), value)
}

/// The variables of an artist.
pub open spec fn artist_vars(artist: ArtistView) -> Vars {
    seq![
        ("mbid"@, or_empty(artist.mbid)),
        ("name"@, artist.name),
        ("join_phrase"@, or_empty(artist.join_phrase)),
        ("sort_name"@, or_empty(artist.sort_name)),
        ("instruments"@, joined(artist.instruments, ", "@)),
    ]
}

impl Format for Artist {
    open spec fn vars_spec(&self) -> Vars {
        artist_vars(self@)
    }

    fn vars(&self) -> (v: Vec<(String, String)>) {
        let mut v: Vec<(String, String)> = Vec::new();
        v.push(var("mbid", text_or_empty(&self.mbid)));
        v.push(var("name", self.name.clone()));
        v.push(var("join_phrase", text_or_empty(&self.join_phrase)));
        v.push(var("sort_name", text_or_empty(&self.sort_name)));
        v.push(var("instruments", join_strings(&self.instruments, ", ")));
        assert(v.deep_view() =~= artist_vars(self@));
        v
    }

    fn fmt(&self, template: &str) -> (r: Result<String, Error>) {
        formatted(render(template, &self.vars()))
    }
}

/// A number in decimal digits, `0` where it is missing.
pub open spec fn count_text(count: Option<u64>) -> Seq<char> {
    match count {
        Some(n) => decimal_text(n as nat),
        None => seq!['0'],
    }
}

fn count_or_zero(count: Option<u64>) -> (r: String)
    ensures
        r@ == count_text(count),
{
    match count {
        Some(n) => decimal(n),
        None => {
            proof {
                reveal_strlit("0");
                assert("0"@ =~= seq!['0']);
            }
            String::from_str("0")
        },
    }
}

/// A date as text, empty where it is missing or beyond the calendar.
pub open spec fn day_text(date: Option<Date>) -> Seq<char> {
    match date {
        Some(d) => or_empty(iso_date(d.days_from_ce)),
        None => Seq::empty(),
    }
}

/// The year of a date as text, empty where the date is missing or beyond the
/// calendar.
pub open spec fn year_text(date: Option<Date>) -> Seq<char> {
    match date {
        Some(d) => match year_of(d.days_from_ce) {
            Some(y) => signed_text(y as int),
            None => Seq::empty(),
        },
        None => Seq::empty(),
    }
}

/// The names of a credit list as one text.
pub open spec fn joined_names(artists: Seq<ArtistView>) -> Seq<char> {
    concat(Seq::new(artists.len(), |i: int| name_piece(artists, i)))
}

/// The sort names of a credit list as one text.
pub open spec fn joined_sort_names(artists: Seq<ArtistView>) -> Seq<char> {
    concat(Seq::new(artists.len(), |i: int| sort_piece(artists, i)))
}

/// The variables of a release, given the texts of its dates and years. The
/// variable `release_group_mbid` holds the identifier of the release, and
/// the variable `asin` that of its release group.
pub open spec fn release_vars(
    release: ReleaseView,
    date: Seq<char>,
    year: Seq<char>,
    original_date: Seq<char>,
    original_year: Seq<char>,
) -> Vars {
    seq![
        ("mbid"@, or_empty(release.mbid)),
        ("release_group_mbid"@, or_empty(release.mbid)),
        ("asin"@, or_empty(release.release_group_mbid)),
        ("title"@, release.title),
        ("artists"@, joined_names(release.artists)),
        (
            "artists_sort"@,
            joined(
                present(Seq::new(release.artists.len(), |i: int| release.artists[i].sort_name)),
                ", "@,
            ),
        ),
        ("discs"@, count_text(release.discs)),
        ("media"@, or_empty(release.media)),
        ("tracks"@, count_text(release.tracks)),
        ("country"@, or_empty(release.country)),
        ("label"@, or_empty(release.label)),
        ("catalog_no"@, or_empty(release.catalog_no)),
        ("status"@, or_empty(release.status)),
        ("release_type"@, or_empty(release.release_type)),
        ("date"@, date),
        ("year"@, year),
        ("original_date"@, original_date),
        ("original_year"@, original_year),
        ("script"@, or_empty(release.script)),
    ]
}

fn day_of(date: Option<Date>) -> (r: String)
    ensures
        r@ == day_text(date),
{
    match date {
        Some(d) => text_or_empty(&date_text(d)),
        None => String::new(),
    }
}

fn year_of_date(date: Option<Date>) -> (r: String)
    ensures
        r@ == year_text(date),
{
    match date {
        Some(d) => match date_year(d) {
            Some(y) => signed_decimal(y as i64),
            None => String::new(),
        },
        None => String::new(),
    }
}

impl Release {
    /// The variables of this release, with the given texts for its dates
    /// and years.
    pub fn vars_with(
        &self,
        date: String,
        year: String,
        original_date: String,
        original_year: String,
    ) -> (v: Vec<(String, String)>)
        ensures
            v.deep_view() == release_vars(self@, date@, year@, original_date@, original_year@),
    {
        let mut v: Vec<(String, String)> = Vec::new();
        v.push(var("mbid", text_or_empty(&self.mbid)));
        v.push(var("release_group_mbid", text_or_empty(&self.mbid)));
        v.push(var("asin", text_or_empty(&self.release_group_mbid)));
        v.push(var("title", self.title.clone()));
        v.push(var("artists", self.artists.joined()));
        v.push(var("artists_sort", join_strings(&self.artists.sort_order(), ", ")));
        v.push(var("discs", count_or_zero(self.discs)));
        v.push(var("media", text_or_empty(&self.media)));
        v.push(var("tracks", count_or_zero(self.tracks)));
        v.push(var("country", text_or_empty(&self.country)));
        v.push(var("label", text_or_empty(&self.label)));
        v.push(var("catalog_no", text_or_empty(&self.catalog_no)));
        v.push(var("status", text_or_empty(&self.status)));
        v.push(var("release_type", text_or_empty(&self.release_type)));
        v.push(var("date", date));
        v.push(var("year", year));
        v.push(var("original_date", original_date));
        v.push(var("original_year", original_year));
        v.push(var("script", text_or_empty(&self.script)));
        let ghost expected = release_vars(self@, date@, year@, original_date@, original_year@);
        assert(v.deep_view().len() == expected.len());
        assert forall|i: int| 0 <= i < 19 implies v.deep_view()[i] == expected[i] by {
            assert(v.deep_view()[i] == v@[i].deep_view());
        }
        assert(v.deep_view() =~= expected);
        v
    }
}

impl Format for Release {
    open spec fn vars_spec(&self) -> Vars {
        release_vars(
            self@,
            day_text(self@.date),
            year_text(self@.date),
            day_text(self@.original_date),
            year_text(self@.original_date),
        )
    }

    fn vars(&self) -> (v: Vec<(String, String)>) {
        self.vars_with(
            day_of(self.date),
            year_of_date(self.date),
            day_of(self.original_date),
            year_of_date(self.original_date),
        )
    }

    fn fmt(&self, template: &str) -> (r: Result<String, Error>) {
        formatted(render(template, &self.vars()))
    }
}

/// The variables that a track has from its release: its title and its
/// artists.
pub open spec fn album_vars(release: Option<ReleaseView>) -> Vars {
    match release {
        Some(r) => seq![
            (TagKey::Album.name_spec(), r.title),
            (TagKey::AlbumArtist.name_spec(), joined_names(r.artists)),
            (TagKey::AlbumArtistSortOrder.name_spec(), joined_sort_names(r.artists)),
        ],
        None => Seq::empty(),
    }
}

/// The variables of a track, under the names of the tag keys.
pub open spec fn track_vars(track: TrackView) -> Vars {
    seq![
        (TagKey::TrackTitle.name_spec(), track.title),
        (TagKey::Artist.name_spec(), joined_names(track.artists)),
        (TagKey::Artists.name_spec(), joined_names(track.artists)),
        (TagKey::OriginalArtist.name_spec(), joined_names(track.artists)),
        (TagKey::ArtistSortOrder.name_spec(), joined_sort_names(track.artists)),
    ] + album_vars(track.release)
}

impl Format for Track {
    open spec fn vars_spec(&self) -> Vars {
        track_vars(self@)
    }

    fn vars(&self) -> (v: Vec<(String, String)>) {
        let mut v: Vec<(String, String)> = Vec::new();
        v.push((TagKey::TrackTitle.to_string(), self.title.clone()));
        v.push((TagKey::Artist.to_string(), self.artists.joined()));
        v.push((TagKey::Artists.to_string(), self.artists.joined()));
        v.push((TagKey::OriginalArtist.to_string(), self.artists.joined()));
        v.push((TagKey::ArtistSortOrder.to_string(), self.artists.sort_order_joined()));
        if let Some(release) = &self.release {
            v.push((TagKey::Album.to_string(), release.title.clone()));
            v.push((TagKey::AlbumArtist.to_string(), release.artists.joined()));
            v.push((TagKey::AlbumArtistSortOrder.to_string(), release.artists.sort_order_joined()));
        }
        assert(v.deep_view() =~= track_vars(self@));
        v
    }

    fn fmt(&self, template: &str) -> (r: Result<String, Error>) {
        formatted(render(template, &self.vars()))
    }
}

} // verus!
