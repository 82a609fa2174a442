use std::sync::Arc;
use tracklib::error::Error;
use tracklib::library::paths::{LibraryRelease, LibraryTrack};
use tracklib::library::{Context, Settings};
use tracklib::models::{Artist, Artists, Date, Length, Release, Track, UNKNOWN_ARTIST, UNKNOWN_TITLE};
use tracklib::template::{formatted, Format};
use tracklib::text::{decimal, join_strings, signed_decimal};
use tracklib::track::format::Format as TrackFormat;

fn strings(list: &[&str]) -> Vec<String> {
    list.iter().map(|s| s.to_string()).collect()
}

fn artist(name: &str, join: Option<&str>, sort: Option<&str>, instruments: &[&str]) -> Artist {
    Artist {
        mbid: Some(format!("id-{}", name)),
        name: name.to_string(),
        join_phrase: join.map(|j| j.to_string()),
        sort_name: sort.map(|s| s.to_string()),
        instruments: strings(instruments),
    }
}

fn release(title: &str, artists: Vec<Artist>) -> Release {
    Release {
        mbid: Some("rel".to_string()),
        release_group_mbid: Some("group".to_string()),
        asin: Some("B000".to_string()),
        title: title.to_string(),
        artists,
        discs: Some(2),
        media: Some("CD".to_string()),
        tracks: None,
        country: Some("DE".to_string()),
        label: None,
        catalog_no: None,
        status: None,
        release_type: None,
        date: Some(Date::from_days_from_ce(730_000)),
        original_date: None,
        script: None,
    }
}

fn track(title: &str, release: Option<Release>) -> Track {
    Track {
        mbid: None,
        title: title.to_string(),
        artists: vec![artist("One", Some(" feat. "), Some("One, The"), &[]), artist("Two", None, None, &[])],
        length: None,
        disc: Some(1),
        disc_mbid: None,
        number: Some(7),
        abs_number: None,
        genres: vec![],
        release: release.map(Arc::new),
        performers: vec![],
        engigneers: vec![],
        mixers: vec![],
        producers: vec![],
        lyricists: vec![],
        writers: vec![],
        composers: vec![],
        format: Some(TrackFormat::FLAC),
        path: None,
    }
}

fn context() -> Context {
    Context {
        database: false,
        settings: Some(Settings {
            library: "/library".to_string(),
            release_name: "{release.artist} - {release.title}".to_string(),
            track_name: "{track.disc}-{track.number} {track.title}".to_string(),
        }),
    }
}

#[test]
fn unknown_names_are_spelled_as_ever() {
    assert_eq!(UNKNOWN_ARTIST, "(unkown artist)");
    assert_eq!(UNKNOWN_TITLE, "(unkown title)");
}

#[test]
fn length_keeps_milliseconds_and_cuts_to_seconds() {
    let l = Length::from_millis(61_999);
    assert_eq!(l.secs, 61);
    assert_eq!(l.subsec_millis, 999);
    assert_eq!(l.as_secs(), 61);
    assert_eq!(Length::from_secs(u64::MAX).as_secs(), u64::MAX);
    assert_eq!(Length::from_secs(5), Length::from_millis(5000));
}

#[test]
fn days_between_dates_are_signed() {
    let a = Date::from_days_from_ce(10);
    let b = Date::from_days_from_ce(25);
    assert_eq!(b.days_since(&a), 15);
    assert_eq!(a.days_since(&b), -15);
    assert_eq!(
        Date::from_days_from_ce(i32::MAX).days_since(&Date::from_days_from_ce(i32::MIN)),
        4_294_967_295
    );
}

#[test]
fn names_ids_and_sort_order() {
    let mut list = vec![
        artist("One", Some(" & "), Some("One, The"), &[]),
        artist("Two", None, None, &[]),
        artist("Three", None, Some("Three"), &[]),
    ];
    list[1].mbid = None;
    assert_eq!(list.names(), strings(&["One", "Two", "Three"]));
    assert_eq!(list.ids(), strings(&["id-One", "id-Three"]));
    assert_eq!(list.sort_order(), strings(&["One, The", "Three"]));
    let empty: Vec<Artist> = vec![];
    assert!(empty.names().is_empty() && empty.ids().is_empty() && empty.sort_order().is_empty());
}

#[test]
fn joined_uses_join_phrases_between_names() {
    let list = vec![
        artist("One", Some(" & "), None, &[]),
        artist("Two", None, None, &[]),
        artist("Three", Some(" never shown "), None, &[]),
    ];
    assert_eq!(list.joined(), "One & Two, Three");
    assert_eq!(vec![artist("Solo", Some(" & "), None, &[])].joined(), "Solo");
    let empty: Vec<Artist> = vec![];
    assert_eq!(empty.joined(), "");
}

#[test]
fn sort_order_joined_skips_artists_without_sort_name() {
    let list = vec![
        artist("One", Some(" & "), Some("One, The"), &[]),
        artist("Two", None, None, &[]),
        artist("Three", None, Some("Three"), &[]),
    ];
    assert_eq!(list.sort_order_joined(), "One, The & Three");
    let list = vec![
        artist("One", None, Some("A"), &[]),
        artist("Two", Some(" x "), Some("B"), &[]),
        artist("Three", None, None, &[]),
    ];
    assert_eq!(list.sort_order_joined(), "A, B x ");
}

#[test]
fn instruments_list_each_player_per_instrument() {
    let list = vec![
        artist("One", None, None, &["guitar", "vocals"]),
        artist("Two", None, None, &[]),
        artist("Three", None, None, &["drums"]),
    ];
    assert_eq!(
        list.instruments(),
        strings(&["One (guitar)", "One (vocals)", "Two", "Three (drums)"])
    );
}

#[test]
fn numbers_render_in_decimal() {
    assert_eq!(decimal(0), "0");
    assert_eq!(decimal(7), "7");
    assert_eq!(decimal(10), "10");
    assert_eq!(decimal(1203), "1203");
    assert_eq!(decimal(u64::MAX), "18446744073709551615");
    assert_eq!(signed_decimal(-45), "-45");
    assert_eq!(signed_decimal(45), "45");
    assert_eq!(signed_decimal(i64::MIN), "-9223372036854775808");
    assert_eq!(join_strings(&strings(&["a", "b"]), ", "), "a, b");
}

#[test]
fn release_has_a_place_for_each_artist() {
    let r = release(
        "Album",
        vec![artist("One", None, None, &[]), artist("Two", None, None, &[]), artist("One", None, None, &[])],
    );
    assert_eq!(
        r.paths(&context()),
        Ok(vec![strings(&["One - Album"]), strings(&["Two - Album"]), strings(&["One - Album"])])
    );
    assert_eq!(r.path(&context()), Ok(strings(&["One - Album"])));
    assert_eq!(r.other_paths(&context()), Ok(vec![strings(&["Two - Album"])]));
}

#[test]
fn every_occurrence_in_a_template_is_replaced() {
    let mut c = context();
    c.settings.as_mut().unwrap().release_name =
        "{release.title}/{release.artist}/{release.title}{release.titl}".to_string();
    let r = release("{release.artist}", vec![artist("A", None, None, &[])]);
    assert_eq!(
        r.path(&c),
        Ok(strings(&["{release.artist}/A/{release.artist}{release.titl}"]))
    );
}

#[test]
fn release_without_artists_has_no_place() {
    let r = release("Album", vec![]);
    assert_eq!(r.paths(&context()), Ok(vec![]));
    let e = Err(Error::Precondition(
        "Release does not have a path in the library, most definitely because the release has no artists"
            .to_string(),
    ));
    assert_eq!(r.path(&context()), e);
    assert_eq!(r.other_paths(&context()).map(|_| ()), e.map(|_: Vec<String>| ()));
}

#[test]
fn places_need_settings() {
    let c = Context { database: true, settings: None };
    let r = release("Album", vec![artist("One", None, None, &[])]);
    let e = Error::Configuration("Could not read settings".to_string());
    assert_eq!(r.paths(&c), Err(e.clone()));
    assert_eq!(r.path(&c), Err(e.clone()));
    assert_eq!(r.other_paths(&c), Err(e.clone()));
    assert_eq!(track("T", Some(r)).path(&c), Err(e));
}

#[test]
fn track_belongs_below_its_release() {
    let r = release("Album", vec![artist("One", None, None, &[])]);
    let t = track("Song {track.disc}", Some(r));
    assert_eq!(t.path(&context()), Ok(strings(&["One - Album", "1-7 Song {track.disc}.flac"])));
}

#[test]
fn track_place_needs_release_format_disc_and_number() {
    let r = release("Album", vec![artist("One", None, None, &[])]);
    let missing = |message: &str| Err(Error::Precondition(message.to_string()));
    assert_eq!(track("T", None).path(&context()), missing("This track doesn't belong to any release"));
    let mut t = track("T", Some(r));
    t.format = None;
    t.disc = None;
    t.number = None;
    assert_eq!(t.path(&context()), missing("The given Track doesn't have an associated format"));
    t.format = Some(TrackFormat::ID3);
    assert_eq!(t.path(&context()), missing("The track has no disc"));
    t.disc = Some(2);
    assert_eq!(t.path(&context()), missing("The track has no number"));
    t.number = Some(11);
    assert_eq!(t.path(&context()), Ok(strings(&["One - Album", "2-11 T.mp3"])));
}

#[test]
fn artist_renders_by_template() {
    let a = artist("One", Some(" & "), Some("One, The"), &["guitar", "vocals"]);
    assert_eq!(
        a.fmt("{name} [{sort_name}] ({instruments}) {mbid}{join_phrase}"),
        Ok("One [One, The] (guitar, vocals) id-One & ".to_string())
    );
    assert_eq!(a.vars().len(), 5);
}

#[test]
fn bad_templates_fail_to_render() {
    let a = artist("One", None, None, &[]);
    let e = Err(Error::Configuration("Could not render template".to_string()));
    assert_eq!(a.fmt("{unknown}"), e);
    assert_eq!(a.fmt("{name"), e);
    assert_eq!(a.fmt("name}"), e);
    assert_eq!(formatted(None), e);
    assert_eq!(formatted(Some("x".to_string())), Ok("x".to_string()));
}

#[test]
fn release_renders_by_template() {
    let r = release(
        "Album",
        vec![artist("One", Some(" & "), Some("One, The"), &[]), artist("Two", None, Some("Two"), &[])],
    );
    assert_eq!(
        r.fmt("{artists} - {title} ({year}) [{date}] {discs}/{tracks} {media} {country}|{original_date}|{original_year}|{label}"),
        Ok("One & Two - Album (1999) [1999-09-03] 2/0 CD DE|||".to_string())
    );
    assert_eq!(r.fmt("{artists_sort}"), Ok("One, The, Two".to_string()));
    assert_eq!(r.fmt("{mbid} {release_group_mbid} {asin}"), Ok("rel rel group".to_string()));
}

#[test]
fn dates_beyond_the_calendar_render_empty() {
    let mut r = release("Album", vec![]);
    r.date = Some(Date::from_days_from_ce(i32::MAX));
    r.original_date = Some(Date::from_days_from_ce(-400));
    assert_eq!(r.fmt("[{date}][{year}]"), Ok("[][]".to_string()));
    assert_eq!(r.fmt("{original_date} {original_year}"), Ok("-0001-11-27 -1".to_string()));
}

#[test]
fn vars_with_takes_the_date_texts_as_given() {
    let r = release("Album", vec![]);
    let v = r.vars_with("d".to_string(), "y".to_string(), "od".to_string(), "oy".to_string());
    assert_eq!(v.len(), 19);
    assert_eq!(v[14], ("date".to_string(), "d".to_string()));
    assert_eq!(v[15], ("year".to_string(), "y".to_string()));
    assert_eq!(v[16], ("original_date".to_string(), "od".to_string()));
    assert_eq!(v[17], ("original_year".to_string(), "oy".to_string()));
}

#[test]
fn track_renders_by_template() {
    let r = release("Album", vec![artist("Band", None, Some("Band, The"), &[])]);
    let t = track("Song", Some(r));
    assert_eq!(
        t.fmt("{albumartist}/{album}/{artist} - {title} ({artistsort}; {albumartistsort})"),
        Ok("Band/Album/One feat. Two - Song (One, The feat. ; Band, The)".to_string())
    );
    assert_eq!(t.fmt("{artists}|{originalartist}"), Ok("One feat. Two|One feat. Two".to_string()));
    let alone = track("Song", None);
    assert_eq!(alone.vars().len(), 5);
    assert!(alone.fmt("{album}").is_err());
}
