//! Scores pairs of tracks and aligns an original track list with a candidate
//! list so that the summed score is as small as it can be.

use crate::assignment::{
    assignment_cost, cells, cheapest_assignment, is_assignment, is_cheapest,
    lemma_assignment_cost_lower, lemma_assignment_cost_positive, lemma_assignment_cost_upper,
    lemma_square_assignment_uses_every_column, uses_column, MAX_SIDE, WEIGHT_LIMIT,
};
use crate::models::{Date, Length, Release, ReleaseView, Track, TrackView};
use std::sync::Arc;
use vstd::prelude::*;

verus! {

/// The weight of one edit between two track titles.
pub const TRACK_TITLE_FACTOR: i128 = 1000;

/// The weight of one edit between two release titles.
pub const RELEASE_TITLE_FACTOR: i128 = 10000;

/// The weight of one track of difference between two releases' track counts.
pub const TRACK_COUNT_FACTOR: i128 = 100;

/// The most tracks that one list may hold for `match_tracks`.
pub const MAX_TRACKS: usize = MAX_SIDE;

/// The bound that a pair's cost must stay under, in either direction, for
/// `match_tracks`: one more than the largest cost must still be a weight the
/// solver takes.
pub const COST_LIMIT: i64 = WEIGHT_LIMIT;

/// The least of three numbers.
pub open spec fn min3(a: nat, b: nat, c: nat) -> nat {
    if a <= b && a <= c {
        a
    } else if b <= c {
        b
    } else {
        c
    }
}

/// The edit distance between two texts: the least number of single character
/// insertions, deletions and substitutions that turn one into the other.
pub open spec fn edit_distance(a: Seq<char>, b: Seq<char>) -> nat
    decreases a.len() + b.len(),
{
    if a.len() == 0 {
        b.len()
    } else if b.len() == 0 {
        a.len()
    } else {
        let substituted = edit_distance(a.drop_last(), b.drop_last()) + if a.last() == b.last() {
            0nat
        } else {
            1nat
        };
        let deleted = edit_distance(a.drop_last(), b) + 1;
        let inserted = edit_distance(a, b.drop_last()) + 1;
        min3(substituted, deleted, inserted)
    }
}

/// The edit distance of a text to itself is zero.
pub proof fn lemma_edit_distance_identical(a: Seq<char>)
    ensures
        edit_distance(a, a) == 0,
    decreases a.len(),
{
    if a.len() > 0 {
        lemma_edit_distance_identical(a.drop_last());
    }
}

/// The edit distance does not depend on the order of the two texts.
pub proof fn lemma_edit_distance_symmetric(a: Seq<char>, b: Seq<char>)
    ensures
        edit_distance(a, b) == edit_distance(b, a),
    decreases a.len() + b.len(),
{
    if a.len() > 0 && b.len() > 0 {
        lemma_edit_distance_symmetric(a.drop_last(), b.drop_last());
        lemma_edit_distance_symmetric(a.drop_last(), b);
        lemma_edit_distance_symmetric(a, b.drop_last());
    }
}

/// Calls `levenshtein` of the crate of that name, which counts characters, not
/// bytes, and returns the Levenshtein distance of the two texts: the edit
/// distance as defined here.
#[verifier::external_body]
fn string_distance(a: &str, b: &str) -> (d: usize)
    ensures
        d == edit_distance(a@, b@),
{
    levenshtein::levenshtein(a, b)
}

/// The edit distance between two texts.
pub fn distance(a: &str, b: &str) -> (d: usize)
    ensures
        d == edit_distance(a@, b@),
{
    string_distance(a, b)
}

/// Applies `combine` where both values are present.
pub fn if_both<T, R, F: Fn(T, T) -> R>(a: Option<T>, b: Option<T>, combine: F) -> (r: Option<R>)
    requires
        a is Some && b is Some ==> call_requires(combine, (a->0, b->0)),
    ensures
        a is Some && b is Some ==> r is Some && call_ensures(combine, (a->0, b->0), r->0),
        !(a is Some && b is Some) ==> r is None,
{
    if let Some(a_val) = a {
        if let Some(b_val) = b {
            return Some(combine(a_val, b_val));
        }
    }
    None
}

/// Applies `combine` where both values are present, and gives the default of
/// the result type where one is missing: a missing value is no disagreement.
pub fn if_both_or_default<T, R: Default, F: Fn(T, T) -> R>(
    a: Option<T>,
    b: Option<T>,
    combine: F,
) -> (r: R)
    requires
        a is Some && b is Some ==> call_requires(combine, (a->0, b->0)),
    ensures
        a is Some && b is Some ==> call_ensures(combine, (a->0, b->0), r),
        !(a is Some && b is Some) ==> call_ensures(R::default, (), r),
{
    match if_both(a, b, combine) {
        Some(r) => r,
        None => R::default(),
    }
}

/// The edit distance between two optional texts, zero where one is missing.
pub open spec fn text_gap(a: Option<Seq<char>>, b: Option<Seq<char>>) -> int {
    match (a, b) {
        (Some(x), Some(y)) => edit_distance(x, y) as int,
        _ => 0,
    }
}

/// The absolute difference of two optional numbers, zero where one is missing.
pub open spec fn number_gap(a: Option<u64>, b: Option<u64>) -> int {
    match (a, b) {
        (Some(x), Some(y)) => if x >= y {
            x - y
        } else {
            y - x
        },
        _ => 0,
    }
}

/// The signed number of days from the second date to the first, zero where
/// one is missing.
pub open spec fn date_gap(a: Option<Date>, b: Option<Date>) -> int {
    match (a, b) {
        (Some(x), Some(y)) => x.days_since_spec(y),
        _ => 0,
    }
}

/// The absolute difference of two playing times in whole seconds, zero where
/// one is missing.
pub open spec fn length_gap(a: Option<Length>, b: Option<Length>) -> int {
    match (a, b) {
        (Some(x), Some(y)) => if x.secs >= y.secs {
            x.secs - y.secs
        } else {
            y.secs - x.secs
        },
        _ => 0,
    }
}

/// What two releases add to the cost of a pair of tracks that belong to them.
pub open spec fn release_distance(a: ReleaseView, b: ReleaseView) -> int {
    edit_distance(a.title, b.title) * RELEASE_TITLE_FACTOR + text_gap(a.mbid, b.mbid) + text_gap(
        a.asin,
        b.asin,
    ) + number_gap(a.discs, b.discs) + text_gap(a.media, b.media) + number_gap(a.tracks, b.tracks)
        * TRACK_COUNT_FACTOR + text_gap(a.country, b.country) + text_gap(a.status, b.status)
        + date_gap(a.date, b.date) + date_gap(a.original_date, b.original_date) + text_gap(
        a.script,
        b.script,
    )
}

/// What the releases of two tracks add to their cost: nothing where a track
/// has none.
pub open spec fn release_gap(a: Option<ReleaseView>, b: Option<ReleaseView>) -> int {
    match (a, b) {
        (Some(x), Some(y)) => release_distance(x, y),
        _ => 0,
    }
}

/// The cost of pairing an original track with a candidate: the weighted sum of
/// their disagreements. An attribute that one side lacks adds nothing.
pub open spec fn track_distance(a: TrackView, b: TrackView) -> int {
    edit_distance(a.title, b.title) * TRACK_TITLE_FACTOR + length_gap(a.length, b.length)
        + text_gap(a.mbid, b.mbid) + number_gap(a.disc, b.disc) + text_gap(
        a.disc_mbid,
        b.disc_mbid,
    ) + number_gap(a.number, b.number) + release_gap(a.release, b.release)
}

fn text_cost(a: &String, b: &String) -> (d: i128)
    ensures
        d == edit_distance(a@, b@),
        0 <= d <= u64::MAX,
{
    string_distance(a.as_str(), b.as_str()) as i128
}

fn number_cost(a: u64, b: u64) -> (d: i128)
    ensures
        d == number_gap(Some(a), Some(b)),
        0 <= d <= u64::MAX,
{
    if a >= b {
        (a - b) as i128
    } else {
        (b - a) as i128
    }
}

fn date_cost(a: Date, b: Date) -> (d: i128)
    ensures
        d == a.days_since_spec(b),
        -(u64::MAX as int) <= d <= u64::MAX,
{
    a.days_since(&b) as i128
}

fn length_cost(a: Length, b: Length) -> (d: i128)
    ensures
        d == length_gap(Some(a), Some(b)),
        0 <= d <= u64::MAX,
{
    number_cost(a.as_secs(), b.as_secs())
}

/// The cost that two releases add to a pair of tracks.
pub fn release_cost(a: &Release, b: &Release) -> (d: i128)
    ensures
        d == release_distance(a@, b@),
        -(u64::MAX as int) * 20000 <= d <= u64::MAX * 20000,
{
    let title: i128 = text_cost(&a.title, &b.title) * RELEASE_TITLE_FACTOR;
    let mbid: i128 = if_both_or_default(a.mbid.as_ref(), b.mbid.as_ref(), text_cost);
    let asin: i128 = if_both_or_default(a.asin.as_ref(), b.asin.as_ref(), text_cost);
    let discs: i128 = if_both_or_default(a.discs, b.discs, number_cost);
    let media: i128 = if_both_or_default(a.media.as_ref(), b.media.as_ref(), text_cost);
    let tracks: i128 = if_both_or_default(a.tracks, b.tracks, number_cost) * TRACK_COUNT_FACTOR;
    let country: i128 = if_both_or_default(a.country.as_ref(), b.country.as_ref(), text_cost);
    let status: i128 = if_both_or_default(a.status.as_ref(), b.status.as_ref(), text_cost);
    let date: i128 = if_both_or_default(a.date, b.date, date_cost);
    let original_date: i128 = if_both_or_default(a.original_date, b.original_date, date_cost);
    let script: i128 = if_both_or_default(a.script.as_ref(), b.script.as_ref(), text_cost);
    title + mbid + asin + discs + media + tracks + country + status + date + original_date + script
}

fn shared_release_cost(a: &Arc<Release>, b: &Arc<Release>) -> (d: i128)
    ensures
        d == release_distance(a@, b@),
        -(u64::MAX as int) * 20000 <= d <= u64::MAX * 20000,
{
    release_cost(&**a, &**b)
}

/// The cost of pairing track `a` of the original list with candidate `b`.
pub fn track_cost(a: &Track, b: &Track) -> (d: i128)
    ensures
        d == track_distance(a@, b@),
{
    let title: i128 = text_cost(&a.title, &b.title) * TRACK_TITLE_FACTOR;
    let length: i128 = if_both_or_default(a.length, b.length, length_cost);
    let mbid: i128 = if_both_or_default(a.mbid.as_ref(), b.mbid.as_ref(), text_cost);
    let disc: i128 = if_both_or_default(a.disc, b.disc, number_cost);
    let disc_mbid: i128 = if_both_or_default(a.disc_mbid.as_ref(), b.disc_mbid.as_ref(), text_cost);
    let number: i128 = if_both_or_default(a.number, b.number, number_cost);
    let release: i128 = if_both_or_default(a.release.as_ref(), b.release.as_ref(), shared_release_cost);
    title + length + mbid + disc + disc_mbid + number + release
}

/// The largest member of a sequence of numbers; zero for the empty sequence.
pub open spec fn largest(s: Seq<int>) -> int
    decreases s.len(),
{
    if s.len() == 0 {
        0
    } else if s.len() == 1 {
        s[0]
    } else {
        let before = largest(s.drop_last());
        if s.last() > before {
            s.last()
        } else {
            before
        }
    }
}

/// The costs of pairing one original track with each candidate in turn.
pub open spec fn cost_row(original: TrackView, candidates: Seq<TrackView>) -> Seq<int> {
    Seq::new(candidates.len(), |j: int| track_distance(original, candidates[j]))
}

/// The largest cost of any pair of an original track and a candidate.
pub open spec fn highest_cost(originals: Seq<TrackView>, candidates: Seq<TrackView>) -> int {
    largest(Seq::new(originals.len(), |i: int| largest(cost_row(originals[i], candidates))))
}

/// The number of columns of the cost matrix: that of the longer list.
pub open spec fn side(originals: Seq<TrackView>, candidates: Seq<TrackView>) -> nat {
    if originals.len() > candidates.len() {
        originals.len()
    } else {
        candidates.len()
    }
}

/// One row of the cost matrix: the costs of the real candidates, then
/// `filler` in every column that stands for no candidate.
pub open spec fn padded_row(
    original: TrackView,
    candidates: Seq<TrackView>,
    width: nat,
    filler: int,
) -> Seq<int> {
    Seq::new(
        width,
        |j: int|
            if j < candidates.len() {
                track_distance(original, candidates[j])
            } else {
                filler
            },
    )
}

/// The cost matrix of two track lists: a row for each original track, a
/// column for each candidate and, where the originals are more, further
/// columns that cost one more than the dearest real pair.
pub open spec fn cost_matrix(originals: Seq<TrackView>, candidates: Seq<TrackView>) -> Seq<
    Seq<int>,
> {
    Seq::new(
        originals.len(),
        |i: int|
            padded_row(
                originals[i],
                candidates,
                side(originals, candidates),
                highest_cost(originals, candidates) + 1,
            ),
    )
}

/// Every pair of an original track and a candidate costs less than
/// `COST_LIMIT` and no less than its negative.
pub open spec fn costs_within_limit(originals: Seq<TrackView>, candidates: Seq<TrackView>) -> bool {
    forall|i: int, j: int|
        0 <= i < originals.len() && 0 <= j < candidates.len() ==> -COST_LIMIT
            <= #[trigger] track_distance(originals[i], candidates[j]) < COST_LIMIT
}

/// `(total, columns_of)` is a right answer of `match_tracks` for the two
/// lists: nothing where a list is empty, else a cheapest assignment for their
/// cost matrix.
pub open spec fn is_match(
    originals: Seq<TrackView>,
    candidates: Seq<TrackView>,
    total: int,
    columns_of: Seq<usize>,
) -> bool {
    if originals.len() == 0 || candidates.len() == 0 {
        total == 0 && columns_of.len() == 0
    } else {
        is_cheapest(
            cost_matrix(originals, candidates),
            side(originals, candidates),
            total,
            columns_of,
        )
    }
}

/// The two lists are such that `match_tracks` can align them: one is empty,
/// or neither is longer than `MAX_TRACKS` and every pair's cost is within
/// `COST_LIMIT`.
pub open spec fn can_match(originals: Seq<TrackView>, candidates: Seq<TrackView>) -> bool {
    originals.len() == 0 || candidates.len() == 0 || (originals.len() <= MAX_TRACKS
        && candidates.len() <= MAX_TRACKS && costs_within_limit(originals, candidates))
}

/// The costs of one original track against every candidate with the largest
/// of them, or nothing where a cost is not within `COST_LIMIT`.
fn cost_row_of(original: &Track, candidates: &Vec<Track>) -> (r: Option<(Vec<i64>, i64)>)
    requires
        candidates.len() > 0,
    ensures
        r is Some <==> forall|j: int|
            0 <= j < candidates.len() ==> -COST_LIMIT <= #[trigger] track_distance(
                original@,
                candidates.deep_view()[j],
            ) < COST_LIMIT,
        r matches Some(found) ==> {
            &&& found.0@.len() == candidates.len()
            &&& forall|j: int|
                0 <= j < candidates.len() ==> (#[trigger] found.0@[j]) as int == track_distance(
                    original@,
                    candidates.deep_view()[j],
                )
            &&& found.1 == largest(cost_row(original@, candidates.deep_view()))
            &&& -COST_LIMIT <= found.1 < COST_LIMIT
        },
{
    let ghost all = cost_row(original@, candidates.deep_view());
    let mut row: Vec<i64> = Vec::new();
    let mut highest: i64 = 0;
    let mut j: usize = 0;
    while j < candidates.len()
        invariant
            j <= candidates.len(),
            all == cost_row(original@, candidates.deep_view()),
            forall|t: int|
                0 <= t < j ==> -COST_LIMIT <= #[trigger] track_distance(
                    original@,
                    candidates.deep_view()[t],
                ) < COST_LIMIT,
            row@.len() == j,
            forall|t: int| 0 <= t < j ==> (#[trigger] row@[t]) as int == all[t],
            highest == largest(all.take(j as int)),
            -COST_LIMIT <= highest < COST_LIMIT,
        decreases candidates.len() - j,
    {
        let wide: i128 = track_cost(original, &candidates[j]);
        assert(wide == track_distance(original@, candidates.deep_view()[j as int]));
        if wide < -(COST_LIMIT as i128) || wide >= COST_LIMIT as i128 {
            return None;
        }
        let cost: i64 = wide as i64;
        proof {
            assert(all.take(j + 1).drop_last() =~= all.take(j as int));
            assert(all.take(j + 1).last() == cost);
        }
        if j == 0 || cost > highest {
            highest = cost;
        }
        row.push(cost);
        j += 1;
    }
    proof {
        assert(all.take(j as int) =~= all);
    }
    Some((row, highest))
}

/// The costs of every original track against every candidate, row by row,
/// with the largest of them, or nothing where a cost is not within
/// `COST_LIMIT`.
fn cost_rows_of(originals: &Vec<Track>, candidates: &Vec<Track>) -> (r: Option<
    (Vec<Vec<i64>>, i64),
>)
    requires
        originals.len() > 0,
        candidates.len() > 0,
    ensures
        r is Some <==> costs_within_limit(originals.deep_view(), candidates.deep_view()),
        r matches Some(found) ==> {
            &&& found.0@.len() == originals.len()
            &&& forall|k: int|
                0 <= k < originals.len() ==> (#[trigger] found.0@[k])@.len() == candidates.len()
            &&& forall|k: int, j: int|
                0 <= k < originals.len() && 0 <= j < candidates.len() ==> (
                #[trigger] found.0@[k]@[j]) as int == track_distance(
                    originals.deep_view()[k],
                    candidates.deep_view()[j],
                )
            &&& found.1 == highest_cost(originals.deep_view(), candidates.deep_view())
            &&& -COST_LIMIT <= found.1 < COST_LIMIT
        },
{
    let rows = originals.len();
    let ghost o = originals.deep_view();
    let ghost c = candidates.deep_view();
    let ghost tops = Seq::new(o.len(), |i: int| largest(cost_row(o[i], c)));
    let mut costs: Vec<Vec<i64>> = Vec::new();
    let mut highest: i64 = 0;
    let mut i: usize = 0;
    while i < rows
        invariant
            rows == originals.len(),
            candidates.len() > 0,
            o == originals.deep_view(),
            c == candidates.deep_view(),
            tops == Seq::new(o.len(), |i: int| largest(cost_row(o[i], c))),
            i <= rows,
            forall|k: int, j: int|
                0 <= k < i && 0 <= j < c.len() ==> -COST_LIMIT <= #[trigger] track_distance(
                    o[k],
                    c[j],
                ) < COST_LIMIT,
            costs@.len() == i,
            forall|k: int| 0 <= k < i ==> (#[trigger] costs@[k])@.len() == c.len(),
            forall|k: int, j: int|
                0 <= k < i && 0 <= j < c.len() ==> (#[trigger] costs@[k]@[j]) as int
                    == track_distance(o[k], c[j]),
            highest == largest(tops.take(i as int)),
            -COST_LIMIT <= highest < COST_LIMIT,
        decreases rows - i,
    {
        assert(originals[i as int]@ == o[i as int]);
        match cost_row_of(&originals[i], candidates) {
            None => {
                proof {
                    if costs_within_limit(o, c) {
                        assert forall|j: int| 0 <= j < c.len() implies -COST_LIMIT
                            <= #[trigger] track_distance(originals[i as int]@, c[j])
                            < COST_LIMIT by {
                            assert(-COST_LIMIT <= track_distance(o[i as int], c[j]) < COST_LIMIT);
                        }
                    }
                }
                return None;
            },
            Some((row, top)) => {
                proof {
                    assert(tops.take(i + 1).drop_last() =~= tops.take(i as int));
                    assert(tops.take(i + 1).last() == top);
                    assert forall|k: int, j: int|
                        0 <= k < i + 1 && 0 <= j < c.len() implies -COST_LIMIT
                        <= #[trigger] track_distance(o[k], c[j]) < COST_LIMIT by {
                        if k == i {
                            assert(-COST_LIMIT <= track_distance(originals[i as int]@, c[j])
                                < COST_LIMIT);
                        }
                    }
                }
                if i == 0 || top > highest {
                    highest = top;
                }
                costs.push(row);
                i += 1;
            },
        }
    }
    proof {
        assert(tops.take(i as int) =~= tops);
    }
    Some((costs, highest))
}

/// `wide` is `narrow` with every row filled up to `width` cells with `filler`.
pub open spec fn is_padded(
    narrow: Seq<Seq<int>>,
    wide: Seq<Seq<int>>,
    width: nat,
    filler: int,
) -> bool {
    &&& wide.len() == narrow.len()
    &&& forall|i: int| 0 <= i < wide.len() ==> (#[trigger] wide[i]).len() == width
    &&& forall|i: int, j: int|
        0 <= i < wide.len() && 0 <= j < width ==> #[trigger] wide[i][j] == if j
            < narrow[i].len() {
            narrow[i][j]
        } else {
            filler
        }
}

/// Fills every row of `costs` up to as many cells as there are rows, with
/// `filler` in each added cell, so that the matrix is square.
pub fn pad_square(costs: &Vec<Vec<i64>>, filler: i64) -> (matrix: Vec<Vec<i64>>)
    requires
        forall|i: int| 0 <= i < costs.len() ==> (#[trigger] costs@[i])@.len() <= costs.len(),
    ensures
        is_padded(cells(*costs), cells(matrix), costs.len() as nat, filler as int),
{
    let rows = costs.len();
    let mut matrix: Vec<Vec<i64>> = Vec::new();
    let mut i: usize = 0;
    while i < rows
        invariant
            rows == costs.len(),
            forall|k: int| 0 <= k < costs.len() ==> (#[trigger] costs@[k])@.len() <= costs.len(),
            i <= rows,
            matrix@.len() == i,
            forall|k: int| 0 <= k < i ==> (#[trigger] matrix@[k])@.len() == rows,
            forall|k: int, j: int|
                0 <= k < i && 0 <= j < rows ==> #[trigger] matrix@[k]@[j] == if j
                    < costs@[k]@.len() {
                    costs@[k]@[j]
                } else {
                    filler
                },
        decreases rows - i,
    {
        let columns = costs[i].len();
        let mut row: Vec<i64> = Vec::new();
        let mut j: usize = 0;
        while j < rows
            invariant
                rows == costs.len(),
                i < rows,
                columns == costs@[i as int]@.len(),
                j <= rows,
                row@.len() == j,
                forall|t: int|
                    0 <= t < j ==> #[trigger] row@[t] == if t < columns {
                        costs@[i as int]@[t]
                    } else {
                        filler
                    },
            decreases rows - j,
        {
            if j < columns {
                row.push(costs[i][j]);
            } else {
                row.push(filler);
            }
            j += 1;
        }
        matrix.push(row);
        i += 1;
    }
    matrix
}

/// Aligns `original_tracks` with `candidate_tracks` where `match_tracks` can,
/// and says so where it cannot: where both lists hold tracks and one is
/// longer than `MAX_TRACKS` or a pair's cost is not within `COST_LIMIT`.
pub fn try_match_tracks(original_tracks: &Vec<Track>, candidate_tracks: &Vec<Track>) -> (r: Option<
    (i64, Vec<usize>),
>)
    ensures
        r is Some <==> can_match(original_tracks.deep_view(), candidate_tracks.deep_view()),
        r matches Some(found) ==> is_match(
            original_tracks.deep_view(),
            candidate_tracks.deep_view(),
            found.0 as int,
            found.1@,
        ),
{
    let rows = original_tracks.len();
    let columns = candidate_tracks.len();
    if rows == 0 || columns == 0 {
        return Some((0, Vec::new()));
    }
    if rows > MAX_TRACKS || columns > MAX_TRACKS {
        return None;
    }
    let ghost o = original_tracks.deep_view();
    let ghost c = candidate_tracks.deep_view();
    match cost_rows_of(original_tracks, candidate_tracks) {
        None => None,
        Some((costs, highest)) => {
            if rows <= columns {
                proof {
                    assert(cells(costs) =~~= cost_matrix(o, c));
                }
                Some(cheapest_assignment(costs))
            } else {
                let matrix = pad_square(&costs, highest + 1);
                proof {
                    let wide = cells(matrix);
                    let narrow = cells(costs);
                    let full = cost_matrix(o, c);
                    assert(wide.len() == full.len());
                    assert forall|i: int| 0 <= i < wide.len() implies #[trigger] wide[i]
                        =~= full[i] by {
                        assert(wide[i].len() == rows);
                        assert(narrow[i].len() == columns);
                        assert forall|j: int| 0 <= j < rows implies wide[i][j] == full[i][j] by {
                            if j < columns {
                                assert(narrow[i][j] == costs@[i]@[j]);
                            }
                        }
                    }
                    assert(wide =~= full);
                    assert(wide[0].len() == rows);
                    assert(matrix@[0]@.len() == rows);
                }
                Some(cheapest_assignment(matrix))
            }
        },
    }
}

/// Aligns `original_tracks` with `candidate_tracks`: returns the summed cost
/// and, for each original track in turn, the index of the candidate it is
/// paired with. An index that is no index into `candidate_tracks` says that
/// the track found no partner. Where a list is empty the answer is empty.
pub fn match_tracks(original_tracks: &Vec<Track>, candidate_tracks: &Vec<Track>) -> (r: (
    i64,
    Vec<usize>,
))
    requires
        can_match(original_tracks.deep_view(), candidate_tracks.deep_view()),
    ensures
        is_match(original_tracks.deep_view(), candidate_tracks.deep_view(), r.0 as int, r.1@),
{
    try_match_tracks(original_tracks, candidate_tracks).unwrap()
}

/// The assignment that pairs each of `n` rows with the column of its own
/// index.
pub open spec fn identity(n: nat) -> Seq<usize> {
    Seq::new(n, |i: int| i as usize)
}

/// A release costs nothing against itself.
pub proof fn lemma_release_distance_identical(a: ReleaseView)
    ensures
        release_distance(a, a) == 0,
{
    lemma_edit_distance_identical(a.title);
    lemma_text_gap_identical(a.mbid);
    lemma_text_gap_identical(a.asin);
    lemma_text_gap_identical(a.media);
    lemma_text_gap_identical(a.country);
    lemma_text_gap_identical(a.status);
    lemma_text_gap_identical(a.script);
}

/// An optional text is at no distance from itself.
pub proof fn lemma_text_gap_identical(a: Option<Seq<char>>)
    ensures
        text_gap(a, a) == 0,
{
    if let Some(x) = a {
        lemma_edit_distance_identical(x);
    }
}

/// A track costs nothing against itself.
pub proof fn lemma_track_distance_identical(a: TrackView)
    ensures
        track_distance(a, a) == 0,
{
    lemma_edit_distance_identical(a.title);
    lemma_text_gap_identical(a.mbid);
    lemma_text_gap_identical(a.disc_mbid);
    if let Some(r) = a.release {
        lemma_release_distance_identical(r);
    }
}

/// No pair of an original track and a candidate costs more than
/// `highest_cost` says.
pub proof fn lemma_highest_cost_bounds(
    originals: Seq<TrackView>,
    candidates: Seq<TrackView>,
    i: int,
    j: int,
)
    requires
        0 <= i < originals.len(),
        0 <= j < candidates.len(),
    ensures
        track_distance(originals[i], candidates[j]) <= highest_cost(originals, candidates),
{
    let row = cost_row(originals[i], candidates);
    let tops = Seq::new(originals.len(), |k: int| largest(cost_row(originals[k], candidates)));
    lemma_largest_is_upper_bound(row, j);
    lemma_largest_is_upper_bound(tops, i);
}

/// No member of a sequence is larger than its largest.
pub proof fn lemma_largest_is_upper_bound(s: Seq<int>, k: int)
    requires
        0 <= k < s.len(),
    ensures
        s[k] <= largest(s),
    decreases s.len(),
{
    if s.len() > 1 && k < s.len() - 1 {
        lemma_largest_is_upper_bound(s.drop_last(), k);
    }
}

/// The identity is an assignment for the cost matrix of a list against
/// itself, and costs nothing.
pub proof fn lemma_identity_costs_nothing(tracks: Seq<TrackView>)
    requires
        tracks.len() <= usize::MAX,
    ensures
        is_assignment(identity(tracks.len()), tracks.len(), tracks.len()),
        assignment_cost(cost_matrix(tracks, tracks), identity(tracks.len())) == 0,
{
    let n = tracks.len();
    let weights = cost_matrix(tracks, tracks);
    assert forall|i: int| 0 <= i < n implies #[trigger] weights[i][identity(n)[i] as int] == 0 by {
        lemma_track_distance_identical(tracks[i]);
    }
    lemma_assignment_cost_lower(weights, identity(n), 0);
    lemma_assignment_cost_upper(weights, identity(n), 0);
    assert(n * 0 == 0) by (nonlinear_arith);
}

/// A list of tracks matched against itself never costs more than nothing.
/// Where no two of its tracks cost less than nothing against each other, it
/// costs nothing, and every track is paired with one that it costs nothing
/// against.
pub proof fn lemma_match_with_itself_costs_nothing(
    tracks: Seq<TrackView>,
    total: int,
    columns_of: Seq<usize>,
)
    requires
        0 < tracks.len() <= usize::MAX,
        is_match(tracks, tracks, total, columns_of),
    ensures
        total <= 0,
        (forall|i: int, j: int|
            0 <= i < tracks.len() && 0 <= j < tracks.len() ==> 0 <= #[trigger] track_distance(
                tracks[i],
                tracks[j],
            )) ==> total == 0 && forall|i: int|
            0 <= i < tracks.len() ==> track_distance(
                tracks[i],
                tracks[(#[trigger] columns_of[i]) as int],
            ) == 0,
{
    lemma_identity_costs_nothing(tracks);
    let weights = cost_matrix(tracks, tracks);
    if forall|i: int, j: int|
        0 <= i < tracks.len() && 0 <= j < tracks.len() ==> 0 <= #[trigger] track_distance(
            tracks[i],
            tracks[j],
        ) {
        assert forall|i: int| 0 <= i < columns_of.len() implies 0 <= #[trigger] weights[i][columns_of[i] as int] by {
            assert(0 <= track_distance(tracks[i], tracks[columns_of[i] as int]));
        }
        lemma_assignment_cost_lower(weights, columns_of, 0);
        assert(columns_of.len() * 0 == 0) by (nonlinear_arith);
        assert forall|i: int| 0 <= i < tracks.len() implies track_distance(
            tracks[i],
            tracks[(#[trigger] columns_of[i]) as int],
        ) == 0 by {
            if 0 < weights[i][columns_of[i] as int] {
                lemma_assignment_cost_positive(weights, columns_of, i);
            }
        }
    }
}

/// A list of tracks matched against itself pairs every track with itself at
/// no cost, provided that it holds a track, that it has no more than
/// `usize::MAX` of them and that every other assignment costs more than
/// nothing. Where another assignment costs nothing too, both are right
/// answers and either may come back.
pub proof fn lemma_match_with_itself(tracks: Seq<TrackView>, total: int, columns_of: Seq<usize>)
    requires
        0 < tracks.len() <= usize::MAX,
        is_match(tracks, tracks, total, columns_of),
        forall|other: Seq<usize>|
            #[trigger] is_assignment(other, tracks.len(), tracks.len()) && other != identity(
                tracks.len(),
            ) ==> 0 < assignment_cost(cost_matrix(tracks, tracks), other),
    ensures
        total == 0,
        columns_of == identity(tracks.len()),
{
    lemma_identity_costs_nothing(tracks);
}

/// A list of tracks matched against itself pairs every track with itself at
/// no cost, provided that it holds a track and that any two of its tracks at
/// different places cost more than nothing against each other.
pub proof fn lemma_match_distinct_with_itself(
    tracks: Seq<TrackView>,
    total: int,
    columns_of: Seq<usize>,
)
    requires
        0 < tracks.len() <= usize::MAX,
        is_match(tracks, tracks, total, columns_of),
        forall|i: int, j: int|
            0 <= i < tracks.len() && 0 <= j < tracks.len() && i != j ==> 0
                < #[trigger] track_distance(tracks[i], tracks[j]),
    ensures
        total == 0,
        columns_of == identity(tracks.len()),
{
    let n = tracks.len();
    let weights = cost_matrix(tracks, tracks);
    assert forall|other: Seq<usize>| #[trigger]
        is_assignment(other, n, n) && other != identity(n) implies 0 < assignment_cost(
        weights,
        other,
    ) by {
        assert(!(other =~= identity(n)));
        let row = choose|i: int| 0 <= i < n && other[i] != identity(n)[i];
        assert forall|i: int| 0 <= i < other.len() implies 0 <= #[trigger] weights[i][other[i] as int] by {
            if other[i] == i {
                lemma_track_distance_identical(tracks[i]);
            } else {
                assert(0 < track_distance(tracks[i], tracks[other[i] as int]));
            }
        }
        assert(0 < track_distance(tracks[row], tracks[other[row] as int]));
        lemma_assignment_cost_positive(weights, other, row);
    }
    lemma_match_with_itself(tracks, total, columns_of);
}

/// Matched against no candidates, a list of tracks gets no cost and no
/// assignment.
pub proof fn lemma_match_without_candidates(
    originals: Seq<TrackView>,
    total: int,
    columns_of: Seq<usize>,
)
    requires
        originals.len() > 0,
        is_match(originals, Seq::empty(), total, columns_of),
    ensures
        total == 0,
        columns_of == Seq::<usize>::empty(),
{
    assert(columns_of =~= Seq::<usize>::empty());
}

/// Where the original tracks are more than the candidates, and there is a
/// candidate, the assignment has a place for every original track, gives no
/// two of them the same index, and keeps every index below the number of
/// original tracks. An index that is no index into the candidates stands for
/// a column that was added; every candidate is paired with an original
/// track. The cost is at most what it would be if every track were paired
/// with an added column: as many times one more than the dearest real pair
/// as there are original tracks.
pub proof fn lemma_match_with_fewer_candidates(
    originals: Seq<TrackView>,
    candidates: Seq<TrackView>,
    total: int,
    columns_of: Seq<usize>,
)
    requires
        0 < candidates.len() < originals.len(),
        is_match(originals, candidates, total, columns_of),
    ensures
        columns_of.len() == originals.len(),
        is_assignment(columns_of, originals.len(), originals.len()),
        forall|candidate: int|
            0 <= candidate < candidates.len() ==> #[trigger] uses_column(columns_of, candidate),
        total <= originals.len() * (highest_cost(originals, candidates) + 1),
{
    assert forall|candidate: int| 0 <= candidate < candidates.len() implies #[trigger] uses_column(
        columns_of,
        candidate,
    ) by {
        lemma_square_assignment_uses_every_column(columns_of, originals.len(), candidate);
    }
    let weights = cost_matrix(originals, candidates);
    let filler = highest_cost(originals, candidates) + 1;
    assert forall|i: int| 0 <= i < columns_of.len() implies #[trigger] weights[i][columns_of[i] as int]
        <= filler by {
        if columns_of[i] < candidates.len() {
            lemma_highest_cost_bounds(originals, candidates, i, columns_of[i] as int);
        }
    }
    lemma_assignment_cost_upper(weights, columns_of, filler);
}

} // verus!
