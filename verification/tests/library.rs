use std::sync::Arc;
use tracklib::error::Error;
use tracklib::library::row::Row;
use tracklib::library::sql::{select_sql, to_loaded, to_stored, upsert_sql, SqlValue, Statement, Value};
use tracklib::text::join;
use tracklib::library::store::{credits, link, resolve, Plan, Store};
use tracklib::library::{Builder, Context, Fetch, Filter, InTable};
use tracklib::models::{Artist, Date, Length, Release, Track};
use tracklib::track::format::Format;

fn connected() -> Context {
    Context { database: true, settings: None }
}

fn disconnected() -> Context {
    Context { database: false, settings: None }
}

fn text(s: &str) -> SqlValue {
    SqlValue::Text(s.to_string())
}

fn artist(mbid: &str, name: &str) -> Artist {
    Artist {
        mbid: Some(mbid.to_string()),
        name: name.to_string(),
        join_phrase: None,
        sort_name: None,
        instruments: vec![],
    }
}

fn release(mbid: &str, title: &str) -> Release {
    Release {
        mbid: Some(mbid.to_string()),
        release_group_mbid: None,
        asin: None,
        title: title.to_string(),
        artists: vec![],
        discs: None,
        media: None,
        tracks: None,
        country: None,
        label: None,
        catalog_no: None,
        status: None,
        release_type: None,
        date: None,
        original_date: None,
        script: None,
    }
}

fn track(mbid: &str, title: &str) -> Track {
    Track {
        mbid: Some(mbid.to_string()),
        title: title.to_string(),
        artists: vec![],
        length: None,
        disc: None,
        disc_mbid: None,
        number: None,
        abs_number: None,
        genres: vec![],
        release: None,
        performers: vec![],
        engigneers: vec![],
        mixers: vec![],
        producers: vec![],
        lyricists: vec![],
        writers: vec![],
        composers: vec![],
        format: None,
        path: Some("/music/a.flac".to_string()),
    }
}

fn row(cells: Vec<(&str, SqlValue)>) -> Row {
    Row { cells: cells.into_iter().map(|(k, v)| (k.to_string(), v)).collect() }
}

fn written(fields: Vec<&'static str>, statement: &Statement) -> Row {
    Row {
        cells: fields
            .into_iter()
            .map(|f| f.to_string())
            .zip(statement.binds.iter().cloned())
            .collect(),
    }
}

const ARTIST_UPSERT: &str =
    "INSERT OR REPLACE INTO artists (mbid,name,sort_name,instruments_json) VALUES (?,?,?,?)";
const RELEASE_UPSERT: &str = "INSERT OR REPLACE INTO releases (mbid,release_group_mbid,asin,title,discs,media,tracks,country,label,catalog_no,status,release_type,date,original_date,script) VALUES (?,?,?,?,?,?,?,?,?,?,?,?,?,?,?)";
const TRACK_UPSERT: &str = "INSERT OR REPLACE INTO tracks (mbid,title,length,disc,disc_mbid,number,genres_json,release,format,path) VALUES (?,?,?,?,?,?,?,?,?,?)";

#[test]
fn join_puts_the_separator_between() {
    assert_eq!(join(&vec!["a", "b", "c"], ","), "a,b,c");
    assert_eq!(join(&vec!["a"], ","), "a");
    assert_eq!(join(&vec![], ","), "");
}

#[test]
fn tables_and_fields_follow_the_schema() {
    assert_eq!(Artist::table(), "artists");
    assert_eq!(Artist::fields(), vec!["mbid", "name", "sort_name", "instruments_json"]);
    assert_eq!(Track::table(), "tracks");
    assert_eq!(
        Track::fields(),
        vec![
            "mbid",
            "title",
            "length",
            "disc",
            "disc_mbid",
            "number",
            "genres_json",
            "release",
            "format",
            "path"
        ]
    );
    assert_eq!(Release::table(), "releases");
    assert_eq!(
        Release::fields(),
        vec![
            "mbid",
            "release_group_mbid",
            "asin",
            "title",
            "discs",
            "media",
            "tracks",
            "country",
            "label",
            "catalog_no",
            "status",
            "release_type",
            "date",
            "original_date",
            "script"
        ]
    );
}

#[test]
fn select_without_filters_has_no_where() {
    let none: Vec<(&str, String)> = vec![];
    let q = Artist::query_builder(&none, &vec![]);
    assert_eq!(q.sql, "SELECT mbid,name,sort_name,instruments_json FROM artists");
    assert!(q.binds.is_empty());
}

#[test]
fn select_with_filters_binds_each_value() {
    let fields = vec![("mbid", "abc".to_string()), ("name", "x".to_string())];
    let q = Artist::query_builder(&fields, &vec!["ORDER BY name", "LIMIT 5"]);
    assert_eq!(
        q.sql,
        "SELECT mbid,name,sort_name,instruments_json FROM artists WHERE mbid = ? AND name = ? ORDER BY name LIMIT 5"
    );
    assert_eq!(q.binds, vec![text("abc"), text("x")]);
}

#[test]
fn select_sql_with_one_filter() {
    assert_eq!(
        select_sql("t", &vec!["a", "b"], &vec!["a"], &vec![]),
        "SELECT a,b FROM t WHERE a = ?"
    );
}

#[test]
fn table_names_never_come_from_values() {
    let fields = vec![("mbid", "x'; DROP TABLE artists; --".to_string())];
    let q = Artist::query_builder(&fields, &vec![]);
    assert_eq!(q.sql, "SELECT mbid,name,sort_name,instruments_json FROM artists WHERE mbid = ?");
    assert_eq!(q.binds, vec![text("x'; DROP TABLE artists; --")]);
}

#[test]
fn store_builder_has_a_placeholder_for_each_column() {
    assert_eq!(Artist::store_builder().sql, ARTIST_UPSERT);
    assert_eq!(Release::store_builder().sql, RELEASE_UPSERT);
    assert_eq!(Track::store_builder().sql, TRACK_UPSERT);
    assert!(Track::store_builder().binds.is_empty());
    assert_eq!(upsert_sql("t", &vec!["a"]), "INSERT OR REPLACE INTO t (a) VALUES (?)");
}

#[test]
fn values_encode_by_kind() {
    assert_eq!("x".to_string().encode(), text("x"));
    assert_eq!(5i64.encode(), SqlValue::Integer(5));
    assert_eq!(5u64.encode(), SqlValue::Integer(5));
    assert_eq!(u64::MAX.encode(), SqlValue::Integer(-1));
    assert_eq!(Some(7u64).encode(), SqlValue::Integer(7));
    let none: Option<String> = None;
    assert_eq!(none.encode(), SqlValue::Null);
    assert_eq!(Date::from_days_from_ce(3).encode(), SqlValue::Date(Date::from_days_from_ce(3)));
}

#[test]
fn stored_numbers_load_back() {
    for n in [0u64, 1, 42, i64::MAX as u64, i64::MAX as u64 + 1, u64::MAX] {
        assert_eq!(to_loaded(to_stored(n)), n);
    }
    assert_eq!(to_stored(i64::MAX as u64 + 1), i64::MIN);
    assert_eq!(to_loaded(-1), u64::MAX);
}

#[test]
fn fetch_asks_for_one_row_by_identifier() {
    let q = Track::fetch(&connected(), "abc".to_string()).unwrap();
    assert_eq!(
        q.sql,
        "SELECT mbid,title,length,disc,disc_mbid,number,genres_json,release,format,path FROM tracks WHERE mbid = ? LIMIT 1"
    );
    assert_eq!(q.binds, vec![text("abc")]);
}

#[test]
fn fetch_without_storage_is_a_configuration_error() {
    assert_eq!(
        Track::fetch(&disconnected(), "abc".to_string()),
        Err(Error::Configuration("Could not get database".to_string()))
    );
    let none: Vec<(&str, String)> = vec![];
    assert_eq!(
        Artist::filter(&disconnected(), &none, &vec![]),
        Err(Error::Configuration("Could not get database".to_string()))
    );
}

#[test]
fn filter_builds_the_query() {
    let fields = vec![("title", "Boom".to_string())];
    let q = Release::filter(&connected(), &fields, &vec!["LIMIT 3"]).unwrap();
    assert!(q.sql.ends_with("FROM releases WHERE title = ? LIMIT 3"));
    assert_eq!(q.binds, vec![text("Boom")]);
}

#[test]
fn fetched_wants_exactly_one_row() {
    let one = row(vec![("name", text("A"))]);
    assert_eq!(Artist::fetched(&vec![]), Err(Error::NotFound));
    assert_eq!(Artist::fetched(&vec![one.clone(), one.clone()]), Err(Error::Ambiguous));
    let a = Artist::fetched(&vec![one]).unwrap();
    assert_eq!(a.name, "A");
}

#[test]
fn artist_decodes_leniently() {
    let r = row(vec![
        ("mbid", text("m")),
        ("name", text("Name")),
        ("sort_name", SqlValue::Null),
        ("instruments_json", text("[\"guitar\",\"lead vocals\"]")),
    ]);
    let a = Artist::decode(&r).unwrap();
    assert_eq!(
        a,
        Artist {
            mbid: Some("m".to_string()),
            name: "Name".to_string(),
            join_phrase: None,
            sort_name: None,
            instruments: vec!["guitar".to_string(), "lead vocals".to_string()],
        }
    );
}

#[test]
fn artist_without_name_fails_to_decode() {
    let r = row(vec![("mbid", text("m"))]);
    assert_eq!(Artist::decode(&r), Err(Error::Decode("name".to_string())));
    let r = row(vec![("name", SqlValue::Integer(3))]);
    assert_eq!(Artist::decode(&r), Err(Error::Decode("name".to_string())));
}

#[test]
fn unparsable_list_becomes_empty() {
    let r = row(vec![("name", text("N")), ("instruments_json", text("not json"))]);
    assert_eq!(Artist::decode(&r).unwrap().instruments, Vec::<String>::new());
    let r = row(vec![("name", text("N")), ("instruments_json", text("[1,2]"))]);
    assert_eq!(Artist::decode(&r).unwrap().instruments, Vec::<String>::new());
    let r = row(vec![("name", text("N"))]);
    assert_eq!(Artist::decode(&r).unwrap().instruments, Vec::<String>::new());
}

#[test]
fn from_row_takes_the_list_as_given() {
    let r = row(vec![("name", text("N")), ("instruments_json", text("[\"a\"]"))]);
    let a = Artist::from_row(&r, vec!["x".to_string()]).unwrap();
    assert_eq!(a.instruments, vec!["x".to_string()]);
}

#[test]
fn the_first_cell_of_a_name_counts() {
    let r = row(vec![("name", text("first")), ("name", text("second"))]);
    assert_eq!(r.text("name"), Some("first".to_string()));
    assert_eq!(r.text("other"), None);
    assert_eq!(r.number("name"), None);
}

#[test]
fn release_decodes_every_column() {
    let r = row(vec![
        ("mbid", text("r")),
        ("release_group_mbid", text("g")),
        ("asin", text("B0")),
        ("title", text("Title")),
        ("discs", SqlValue::Integer(2)),
        ("media", text("CD")),
        ("tracks", SqlValue::Integer(12)),
        ("country", text("DE")),
        ("label", text("L")),
        ("catalog_no", text("C1")),
        ("status", text("Official")),
        ("release_type", text("Album")),
        ("date", SqlValue::Date(Date::from_days_from_ce(737000))),
        ("original_date", SqlValue::Null),
        ("script", text("Latn")),
    ]);
    let d = Release::decode(&r).unwrap();
    assert_eq!(d.mbid, Some("r".to_string()));
    assert_eq!(d.release_group_mbid, Some("g".to_string()));
    assert_eq!(d.asin, Some("B0".to_string()));
    assert_eq!(d.title, "Title");
    assert_eq!(d.discs, Some(2));
    assert_eq!(d.media, Some("CD".to_string()));
    assert_eq!(d.tracks, Some(12));
    assert_eq!(d.country, Some("DE".to_string()));
    assert_eq!(d.label, Some("L".to_string()));
    assert_eq!(d.catalog_no, Some("C1".to_string()));
    assert_eq!(d.status, Some("Official".to_string()));
    assert_eq!(d.release_type, Some("Album".to_string()));
    assert_eq!(d.date, Some(Date::from_days_from_ce(737000)));
    assert_eq!(d.original_date, None);
    assert_eq!(d.script, Some("Latn".to_string()));
    assert!(d.artists.is_empty());
}

#[test]
fn release_without_title_fails_to_decode() {
    let r = row(vec![("mbid", text("r"))]);
    assert_eq!(Release::decode(&r), Err(Error::Decode("title".to_string())));
}

#[test]
fn track_decodes_every_column() {
    let r = row(vec![
        ("mbid", text("t")),
        ("title", text("Title")),
        ("length", SqlValue::Integer(215)),
        ("disc", SqlValue::Integer(1)),
        ("disc_mbid", text("d")),
        ("number", SqlValue::Integer(7)),
        ("genres_json", text("[\"rock\"]")),
        ("release", text("r")),
        ("format", text("flac")),
        ("path", text("/music/t.flac")),
    ]);
    let d = Track::decode(&r).unwrap();
    assert_eq!(d.mbid, Some("t".to_string()));
    assert_eq!(d.title, "Title");
    assert_eq!(d.length, Some(Length::from_secs(215)));
    assert_eq!(d.disc, Some(1));
    assert_eq!(d.disc_mbid, Some("d".to_string()));
    assert_eq!(d.number, Some(7));
    assert_eq!(d.abs_number, None);
    assert_eq!(d.genres, vec!["rock".to_string()]);
    assert_eq!(d.release, None);
    assert_eq!(d.format, Some(Format::FLAC));
    assert_eq!(d.path, Some("/music/t.flac".to_string()));
    assert!(d.artists.is_empty() && d.composers.is_empty());
}

#[test]
fn track_with_unknown_format_has_none() {
    let r = row(vec![("title", text("T")), ("format", text("wav"))]);
    assert_eq!(Track::decode(&r).unwrap().format, None);
}

#[test]
fn track_without_title_fails_to_decode() {
    let r = row(vec![("mbid", text("t"))]);
    assert_eq!(Track::decode(&r), Err(Error::Decode("title".to_string())));
}

#[test]
fn filtered_decodes_all_or_fails_on_the_first_bad_row() {
    let good = row(vec![("name", text("A"))]);
    let bad = row(vec![("mbid", text("m"))]);
    let all = Artist::filtered(&vec![good.clone(), good.clone()]).unwrap();
    assert_eq!(all.len(), 2);
    assert_eq!(
        Artist::filtered(&vec![good, bad]),
        Err(Error::Decode("name".to_string()))
    );
    assert_eq!(Artist::filtered(&vec![]), Ok(vec![]));
}

#[test]
fn resolve_reads_through_the_link_table() {
    let owner = "t1".to_string();
    let q = resolve("track_artists", Some(&owner));
    assert_eq!(
        q.sql,
        "SELECT mbid,name,sort_name,instruments_json FROM artists WHERE mbid IN (SELECT artist FROM track_artists WHERE ref = ?)"
    );
    assert_eq!(q.binds, vec![text("t1")]);
    assert_eq!(resolve("release_artists", None).binds, vec![SqlValue::Null]);
}

#[test]
fn link_upserts_the_pair() {
    let owner = "t1".to_string();
    let q = link("track_performers", Some(&owner), &artist("a1", "A"));
    assert_eq!(q.sql, "INSERT OR REPLACE INTO track_performers (ref, artist) VALUES (?, ?)");
    assert_eq!(q.binds, vec![text("t1"), text("a1")]);
}

#[test]
fn artist_store_writes_its_row() {
    let mut a = artist("a1", "A");
    a.sort_name = Some("A, The".to_string());
    a.instruments = vec!["guitar".to_string(), "dr\"ums".to_string()];
    let plan = a.store(&connected());
    assert_eq!(plan.failure, None);
    assert_eq!(
        plan.writes,
        vec![Statement {
            sql: ARTIST_UPSERT.to_string(),
            binds: vec![text("a1"), text("A"), text("A, The"), text("[\"guitar\",\"dr\\\"ums\"]")],
        }]
    );
}

#[test]
fn store_without_storage_writes_nothing() {
    let expected = Plan {
        writes: vec![],
        failure: Some(Error::Configuration("Could not get database".to_string())),
    };
    assert_eq!(artist("a1", "A").store(&disconnected()), expected);
    let mut r = release("r1", "R");
    r.artists = vec![artist("a1", "A")];
    assert_eq!(r.store(&disconnected()), expected);
    let mut t = track("t1", "T");
    t.release = Some(Arc::new(r));
    assert_eq!(t.store(&disconnected()), expected);
}

#[test]
fn release_store_writes_row_then_credits() {
    let mut r = release("r1", "R");
    r.discs = Some(2);
    r.date = Some(Date::from_days_from_ce(737000));
    r.artists = vec![artist("a1", "A"), artist("a2", "B")];
    let plan = r.store(&connected());
    assert_eq!(plan.failure, None);
    assert_eq!(plan.writes.len(), 5);
    assert_eq!(plan.writes[0].sql, RELEASE_UPSERT);
    assert_eq!(
        plan.writes[0].binds,
        vec![
            text("r1"),
            SqlValue::Null,
            SqlValue::Null,
            text("R"),
            SqlValue::Integer(2),
            SqlValue::Null,
            SqlValue::Null,
            SqlValue::Null,
            SqlValue::Null,
            SqlValue::Null,
            SqlValue::Null,
            SqlValue::Null,
            SqlValue::Date(Date::from_days_from_ce(737000)),
            SqlValue::Null,
            SqlValue::Null,
        ]
    );
    assert_eq!(plan.writes[1].sql, ARTIST_UPSERT);
    assert_eq!(plan.writes[1].binds[0], text("a1"));
    assert_eq!(
        plan.writes[2],
        Statement {
            sql: "INSERT OR REPLACE INTO release_artists (ref, artist) VALUES (?, ?)".to_string(),
            binds: vec![text("r1"), text("a1")],
        }
    );
    assert_eq!(plan.writes[3].binds[0], text("a2"));
    assert_eq!(plan.writes[4].binds, vec![text("r1"), text("a2")]);
}

#[test]
fn track_store_writes_release_row_and_every_role() {
    let mut r = release("r1", "R");
    r.artists = vec![artist("ra", "RA")];
    let mut t = track("t1", "T");
    t.release = Some(Arc::new(r));
    t.length = Some(Length::from_millis(215_900));
    t.disc = Some(1);
    t.number = Some(3);
    t.genres = vec!["rock".to_string()];
    t.format = Some(Format::FLAC);
    t.artists = vec![artist("a", "A")];
    t.performers = vec![artist("p", "P")];
    t.engigneers = vec![artist("e", "E")];
    t.mixers = vec![artist("m", "M")];
    t.producers = vec![artist("pr", "PR")];
    t.lyricists = vec![artist("l", "L")];
    t.writers = vec![artist("w", "W")];
    t.composers = vec![artist("c", "C")];
    let plan = t.store(&connected());
    assert_eq!(plan.failure, None);
    let sqls: Vec<&str> = plan.writes.iter().map(|w| w.sql.as_str()).collect();
    let link_of = |table: &str| format!("INSERT OR REPLACE INTO {} (ref, artist) VALUES (?, ?)", table);
    let mut expected: Vec<String> = vec![
        RELEASE_UPSERT.to_string(),
        ARTIST_UPSERT.to_string(),
        link_of("release_artists"),
        TRACK_UPSERT.to_string(),
    ];
    for table in [
        "track_artists",
        "track_performers",
        "track_engigneers",
        "track_mixers",
        "track_producers",
        "track_lyricists",
        "track_writers",
        "track_composers",
    ] {
        expected.push(ARTIST_UPSERT.to_string());
        expected.push(link_of(table));
    }
    assert_eq!(sqls, expected.iter().map(|s| s.as_str()).collect::<Vec<_>>());
    assert_eq!(
        plan.writes[3].binds,
        vec![
            text("t1"),
            text("T"),
            SqlValue::Integer(215),
            SqlValue::Integer(1),
            SqlValue::Null,
            SqlValue::Integer(3),
            text("[\"rock\"]"),
            text("r1"),
            text("flac"),
            text("/music/a.flac"),
        ]
    );
    assert_eq!(plan.writes[5].binds, vec![text("t1"), text("a")]);
    assert_eq!(plan.writes[19].binds, vec![text("t1"), text("c")]);
}

#[test]
fn track_without_path_fails_after_its_release_is_planned() {
    let mut t = track("t1", "T");
    t.path = None;
    t.release = Some(Arc::new(release("r1", "R")));
    t.artists = vec![artist("a", "A")];
    let plan = t.store(&connected());
    assert_eq!(plan.writes.len(), 1);
    assert_eq!(plan.writes[0].sql, RELEASE_UPSERT);
    assert_eq!(
        plan.failure,
        Some(Error::Precondition("The given track doesn't have an associated path".to_string()))
    );
}

#[test]
fn credits_keep_the_order_of_the_list() {
    let owner = "o".to_string();
    let list = vec![artist("1", "one"), artist("2", "two"), artist("3", "three")];
    let plan = credits("track_writers", Some(&owner), &list, &connected());
    let linked: Vec<&SqlValue> =
        plan.writes.iter().filter(|w| w.sql.contains("track_writers")).map(|w| &w.binds[1]).collect();
    assert_eq!(linked, vec![&text("1"), &text("2"), &text("3")]);
}

#[test]
fn plans_stop_at_the_first_failure() {
    let mut p = Plan::new();
    p.write(Statement { sql: "a".to_string(), binds: vec![] });
    p.fail(Error::NotFound);
    p.write(Statement { sql: "b".to_string(), binds: vec![] });
    p.fail(Error::Ambiguous);
    let mut q = Plan::new();
    q.write(Statement { sql: "c".to_string(), binds: vec![] });
    p.append(q);
    assert_eq!(p.writes.len(), 1);
    assert_eq!(p.failure, Some(Error::NotFound));
}

#[test]
fn relationships_name_every_link_table() {
    let t = track("t1", "T");
    let names: Vec<String> = t
        .relationships()
        .iter()
        .map(|q| q.sql.split("FROM ").nth(2).unwrap().split(' ').next().unwrap().to_string())
        .collect();
    assert_eq!(
        names,
        vec![
            "track_artists",
            "track_performers",
            "track_engigneers",
            "track_mixers",
            "track_producers",
            "track_lyricists",
            "track_writers",
            "track_composers"
        ]
    );
    assert_eq!(release("r", "R").relationships().len(), 1);
    assert!(artist("a", "A").relationships().is_empty());
}

#[test]
fn fill_relationships_sets_every_role() {
    let mut t = track("t1", "T");
    let lists: Vec<Vec<Artist>> = (0..8).map(|i| vec![artist(&i.to_string(), "x")]).collect();
    assert_eq!(t.fill_relationships(lists), Ok(()));
    assert_eq!(t.artists[0].mbid, Some("0".to_string()));
    assert_eq!(t.performers[0].mbid, Some("1".to_string()));
    assert_eq!(t.engigneers[0].mbid, Some("2".to_string()));
    assert_eq!(t.mixers[0].mbid, Some("3".to_string()));
    assert_eq!(t.producers[0].mbid, Some("4".to_string()));
    assert_eq!(t.lyricists[0].mbid, Some("5".to_string()));
    assert_eq!(t.writers[0].mbid, Some("6".to_string()));
    assert_eq!(t.composers[0].mbid, Some("7".to_string()));
    let mut r = release("r", "R");
    assert_eq!(r.fill_relationships(vec![vec![artist("a", "A"), artist("b", "B")]]), Ok(()));
    assert_eq!(r.artists.len(), 2);
}

#[test]
fn fill_relationships_refuses_a_wrong_number_of_lists() {
    let mut t = track("t1", "T");
    let before = t.clone();
    assert_eq!(
        t.fill_relationships(vec![vec![]]),
        Err(Error::Precondition("Wrong number of relationships".to_string()))
    );
    assert_eq!(t, before);
    let mut a = artist("a", "A");
    assert!(a.fill_relationships(vec![vec![]]).is_err());
    assert_eq!(a.fill_relationships(vec![]), Ok(()));
}

#[test]
fn a_written_release_row_decodes_to_the_release() {
    let mut r = release("r1", "R");
    r.release_group_mbid = Some("g".to_string());
    r.asin = Some("B0".to_string());
    r.discs = Some(u64::MAX);
    r.media = Some("CD".to_string());
    r.tracks = Some(12);
    r.country = Some("DE".to_string());
    r.label = Some("L".to_string());
    r.catalog_no = Some("C".to_string());
    r.status = Some("Official".to_string());
    r.release_type = Some("Album".to_string());
    r.date = Some(Date::from_days_from_ce(737000));
    r.original_date = Some(Date::from_days_from_ce(-5));
    r.script = Some("Latn".to_string());
    let row = written(Release::fields(), &r.upsert());
    assert_eq!(Release::decode(&row), Ok(r));
}

#[test]
fn a_written_artist_row_decodes_to_the_artist() {
    let mut a = artist("a1", "A");
    a.sort_name = Some("S".to_string());
    a.instruments = vec!["gui\\tar".to_string(), "é".to_string()];
    let plan = a.store(&connected());
    let row = written(Artist::fields(), &plan.writes[0]);
    assert_eq!(Artist::decode(&row), Ok(a));
}

#[test]
fn a_written_track_row_decodes_to_the_track_without_its_release() {
    let mut t = track("t1", "T");
    t.length = Some(Length::from_secs(100));
    t.disc = Some(2);
    t.disc_mbid = Some("d".to_string());
    t.number = Some(4);
    t.genres = vec!["a".to_string(), "b".to_string()];
    t.format = Some(Format::ID3);
    let plan = t.store(&connected());
    let row = written(Track::fields(), &plan.writes[0]);
    assert_eq!(Track::decode(&row), Ok(t));
}
