use std::sync::Arc;
use tracklib::models::{Date, Length, Release, Track};
use tracklib::rank::{distance, match_tracks, release_cost, track_cost, try_match_tracks};

fn track(title: &str) -> Track {
    Track {
        mbid: None,
        title: title.to_string(),
        artists: vec![],
        length: None,
        disc: None,
        disc_mbid: None,
        number: None,
        abs_number: None,
        genres: vec![],
        release: None,
        performers: vec![],
        engigneers: vec![],
        mixers: vec![],
        producers: vec![],
        lyricists: vec![],
        writers: vec![],
        composers: vec![],
        format: None,
        path: None,
    }
}

fn release(title: &str) -> Release {
    Release {
        mbid: None,
        release_group_mbid: None,
        asin: None,
        title: title.to_string(),
        artists: vec![],
        discs: None,
        media: None,
        tracks: None,
        country: None,
        label: None,
        catalog_no: None,
        status: None,
        release_type: None,
        date: None,
        original_date: None,
        script: None,
    }
}

#[test]
fn distance_counts_single_character_edits() {
    assert_eq!(distance("kitten", "sitting"), 3);
    assert_eq!(distance("Boom", "Bloom"), 1);
    assert_eq!(distance("", "abc"), 3);
    assert_eq!(distance("abc", ""), 3);
}

#[test]
fn distance_counts_characters_not_bytes() {
    assert_eq!(distance("é", "e"), 1);
    assert_eq!(distance("日本語", "日本"), 1);
}

#[test]
fn distance_of_identical_texts_is_zero() {
    assert_eq!(distance("Boom", "Boom"), 0);
    assert_eq!(distance("", ""), 0);
}

#[test]
fn distance_is_symmetric() {
    assert_eq!(distance("flaw", "lawn"), distance("lawn", "flaw"));
    assert_eq!(distance("flaw", "lawn"), 2);
}

#[test]
fn identical_track_with_identifier_costs_nothing() {
    let mut a = track("Boom");
    a.mbid = Some("A".to_string());
    let original = vec![a.clone()];
    let candidate = vec![a];
    assert_eq!(match_tracks(&original, &candidate), (0, vec![0]));
}

#[test]
fn one_title_edit_costs_a_thousand() {
    let original = vec![track("Boom")];
    let candidate = vec![track("Bloom")];
    assert_eq!(match_tracks(&original, &candidate), (1000, vec![0]));
}

#[test]
fn two_originals_one_candidate_pads_the_matrix() {
    let original = vec![track("Alpha"), track("Boom")];
    let candidate = vec![track("Boom")];
    let (total, assignment) = match_tracks(&original, &candidate);
    // costs: Alpha/Boom = 5 edits = 5000, Boom/Boom = 0; the added column costs 5001
    assert_eq!(assignment.len(), 2);
    assert_eq!(assignment[1], 0);
    assert!(assignment[0] >= 1);
    assert_eq!(total, 5001);
}

#[test]
fn padding_is_per_row() {
    let original = vec![track("aaaa"), track("b"), track("cc")];
    let candidate = vec![track("cc"), track("b")];
    let (total, assignment) = match_tracks(&original, &candidate);
    assert_eq!(assignment, vec![2, 1, 0]);
    // the largest real cost is aaaa/cc or aaaa/b = 4000, so the added column costs 4001
    assert_eq!(total, 4001);
}

#[test]
fn more_candidates_than_originals() {
    let original = vec![track("two")];
    let candidate = vec![track("one"), track("two"), track("three")];
    assert_eq!(match_tracks(&original, &candidate), (0, vec![1]));
}

#[test]
fn empty_candidates_give_empty_answer() {
    let original = vec![track("Boom")];
    let candidate: Vec<Track> = vec![];
    assert_eq!(match_tracks(&original, &candidate), (0, vec![]));
}

#[test]
fn empty_originals_give_empty_answer() {
    let original: Vec<Track> = vec![];
    let candidate = vec![track("Boom")];
    assert_eq!(match_tracks(&original, &candidate), (0, vec![]));
}

#[test]
fn equal_lists_match_in_place() {
    let list = vec![track("one"), track("two"), track("three")];
    assert_eq!(match_tracks(&list, &list), (0, vec![0, 1, 2]));
}

#[test]
fn shuffled_candidates_are_found() {
    let original = vec![track("one"), track("two"), track("three")];
    let candidate = vec![track("three"), track("one"), track("two")];
    assert_eq!(match_tracks(&original, &candidate), (0, vec![1, 2, 0]));
}

#[test]
fn missing_attribute_is_no_disagreement() {
    let mut a = track("Boom");
    a.mbid = Some("abcdef".to_string());
    a.disc = Some(3);
    a.number = Some(7);
    a.disc_mbid = Some("disc".to_string());
    a.length = Some(Length::from_secs(200));
    let b = track("Boom");
    assert_eq!(track_cost(&a, &b), 0);
    assert_eq!(track_cost(&b, &a), 0);
}

#[test]
fn track_cost_sums_weighted_terms() {
    let mut a = track("Boom");
    a.mbid = Some("abc".to_string());
    a.disc = Some(1);
    a.number = Some(2);
    a.disc_mbid = Some("x".to_string());
    a.length = Some(Length::from_millis(200_999));
    let mut b = track("Bloom");
    b.mbid = Some("abd".to_string());
    b.disc = Some(3);
    b.number = Some(7);
    b.disc_mbid = Some("xyz".to_string());
    b.length = Some(Length::from_secs(190));
    // 1000 (title) + 10 (seconds) + 1 (mbid) + 2 (disc) + 2 (disc mbid) + 5 (number)
    assert_eq!(track_cost(&a, &b), 1020);
}

#[test]
fn release_cost_sums_weighted_terms() {
    let mut a = release("Album");
    a.mbid = Some("r1".to_string());
    a.asin = Some("B000".to_string());
    a.discs = Some(1);
    a.media = Some("CD".to_string());
    a.tracks = Some(10);
    a.country = Some("DE".to_string());
    a.status = Some("Official".to_string());
    a.date = Some(Date::from_days_from_ce(737000));
    a.original_date = Some(Date::from_days_from_ce(730000));
    a.script = Some("Latn".to_string());
    let mut b = release("Albums");
    b.mbid = Some("r2".to_string());
    b.asin = Some("B001".to_string());
    b.discs = Some(3);
    b.media = Some("LP".to_string());
    b.tracks = Some(12);
    b.country = Some("US".to_string());
    b.status = Some("Official".to_string());
    b.date = Some(Date::from_days_from_ce(737010));
    b.original_date = Some(Date::from_days_from_ce(729999));
    b.script = Some("Latn".to_string());
    // 10000 title + 1 mbid + 1 asin + 2 discs + 2 media + 200 tracks + 2 country
    // + 0 status - 10 date + 1 original date + 0 script
    assert_eq!(release_cost(&a, &b), 10199);
    assert_eq!(release_cost(&b, &a), 10000 + 1 + 1 + 2 + 2 + 200 + 2 + 10 - 1);
}

#[test]
fn release_counts_only_where_both_tracks_have_one() {
    let mut a = track("Boom");
    a.release = Some(Arc::new(release("Album")));
    let mut b = track("Boom");
    assert_eq!(track_cost(&a, &b), 0);
    b.release = Some(Arc::new(release("Albums")));
    assert_eq!(track_cost(&a, &b), 10000);
}

#[test]
fn try_match_tracks_agrees_with_match_tracks() {
    let original = vec![track("one"), track("two")];
    let candidate = vec![track("two"), track("one")];
    assert_eq!(try_match_tracks(&original, &candidate), Some((0, vec![1, 0])));
}

#[test]
fn try_match_tracks_refuses_costs_beyond_the_limit() {
    let mut a = track("Boom");
    a.number = Some(0);
    let mut b = track("Boom");
    b.number = Some(u64::MAX);
    assert_eq!(try_match_tracks(&vec![a], &vec![b]), None);
}

#[test]
fn equal_tracks_in_one_list_cost_nothing_either_way() {
    let list = vec![track("same"), track("same")];
    let (total, assignment) = match_tracks(&list, &list);
    assert_eq!(total, 0);
    let mut sorted = assignment.clone();
    sorted.sort();
    assert_eq!(sorted, vec![0, 1]);
}

#[test]
fn earlier_dates_can_make_a_cost_negative() {
    let dated = |days: Option<i32>| {
        let mut r = release("Album");
        r.date = days.map(Date::from_days_from_ce);
        let mut t = track("Song");
        t.release = Some(Arc::new(r));
        t
    };
    let list = vec![dated(Some(10)), dated(Some(0)), dated(None)];
    assert_eq!(track_cost(&list[0], &list[1]), 10);
    assert_eq!(track_cost(&list[1], &list[0]), -10);
    assert_eq!(track_cost(&list[0], &list[2]), 0);
    let (total, assignment) = match_tracks(&list, &list);
    assert_eq!(total, -10);
    assert_eq!(assignment, vec![2, 0, 1]);
}

#[test]
fn the_cheapest_assignment_is_found_among_all() {
    // titles differ by 1, 2 and 3 edits from the candidates in a way that the
    // row-wise cheapest choice is not the cheapest overall
    let original = vec![track("aaaa"), track("aaab")];
    let candidate = vec![track("aaab"), track("abbb")];
    // pairs: aaaa/aaab 1, aaaa/abbb 3, aaab/aaab 0, aaab/abbb 2
    let (total, assignment) = match_tracks(&original, &candidate);
    assert_eq!(total, 3000);
    assert_eq!(assignment.len(), 2);
    assert!(assignment == vec![0, 1] || assignment == vec![1, 0]);
}
