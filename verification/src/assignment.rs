//! Minimum-cost assignment of rows to columns of a cost matrix.
//!
//! The matrix is a sequence of rows of equal length. An assignment gives each
//! row a column of its own; the solver returns one whose total cost no other
//! assignment undercuts.

use vstd::prelude::*;
use vstd::seq_lib::seq_to_set_is_finite;
use vstd::set_lib::{lemma_int_range, lemma_subset_equality, set_int_range};

verus! {

/// The largest number of columns that the solver is asked to handle.
pub const MAX_SIDE: usize = 1_048_576;

/// The largest magnitude of a single cost that the solver is asked to handle.
/// With at most `MAX_SIDE` columns the solver's sums of such costs stay within
/// `i64`.
pub const WEIGHT_LIMIT: i64 = 1_099_511_627_776;

/// The cells of a matrix of machine integers, as mathematical integers.
pub open spec fn cells(weights: Vec<Vec<i64>>) -> Seq<Seq<int>> {
    Seq::new(weights@.len(), |i: int| Seq::new(weights@[i]@.len(), |j: int| weights@[i]@[j] as int))
}

/// Every row of `weights` has `columns` cells.
pub open spec fn is_matrix(weights: Seq<Seq<int>>, columns: nat) -> bool {
    forall|i: int| 0 <= i < weights.len() ==> (#[trigger] weights[i]).len() == columns
}

/// Every cell of `weights` lies within `WEIGHT_LIMIT` of zero.
pub open spec fn within_limit(weights: Seq<Seq<int>>) -> bool {
    forall|i: int, j: int|
        0 <= i < weights.len() && 0 <= j < weights[i].len() ==> -WEIGHT_LIMIT
            <= #[trigger] weights[i][j] <= WEIGHT_LIMIT
}

/// `columns_of` gives each of `rows` rows a column below `columns`, and no
/// column to two rows.
pub open spec fn is_assignment(columns_of: Seq<usize>, rows: nat, columns: nat) -> bool {
    &&& columns_of.len() == rows
    &&& forall|i: int| 0 <= i < columns_of.len() ==> (#[trigger] columns_of[i]) < columns
    &&& forall|i: int, j: int|
        0 <= i < j < columns_of.len() ==> #[trigger] columns_of[i] != #[trigger] columns_of[j]
}

/// The sum of the cells that `columns_of` picks, one in each of its rows.
pub open spec fn assignment_cost(weights: Seq<Seq<int>>, columns_of: Seq<usize>) -> int
    decreases columns_of.len(),
{
    if columns_of.len() == 0 {
        0
    } else {
        assignment_cost(weights, columns_of.drop_last()) + weights[columns_of.len()
            - 1][columns_of.last() as int]
    }
}

/// `columns_of` is an assignment for `weights`, `total` is its cost, and no
/// assignment for `weights` costs less.
pub open spec fn is_cheapest(
    weights: Seq<Seq<int>>,
    columns: nat,
    total: int,
    columns_of: Seq<usize>,
) -> bool {
    &&& is_assignment(columns_of, weights.len(), columns)
    &&& total == assignment_cost(weights, columns_of)
    &&& forall|other: Seq<usize>| #[trigger]
        is_assignment(other, weights.len(), columns) ==> total <= assignment_cost(weights, other)
}

/// Calls `kuhn_munkres_min` of the crate pathfinding on the matrix that its
/// `Matrix::from_rows` builds from `weights`. The crate documents the result
/// as a minimum-weight matching that leaves no row out, with its total
/// weight and the column of every row: the contract says that much, and not
/// which of several cheapest matchings comes back. The crate panics where
/// the rows differ in length, where they are more than the columns and where
/// a sum overflows, so these are left out. With costs within `WEIGHT_LIMIT`
/// and at most `MAX_SIDE` columns nothing overflows: the crate negates the
/// costs, keeps a label for each row between the least and the largest
/// negated cost and a label for each column between zero and the difference
/// of those two, and adds up no more than the labels of all rows and
/// columns.
#[verifier::external_body]
pub(crate) fn cheapest_assignment(weights: Vec<Vec<i64>>) -> (r: (i64, Vec<usize>))
    requires
        0 < weights.len() <= weights[0].len() <= MAX_SIDE,
        is_matrix(cells(weights), weights[0].len() as nat),
        within_limit(cells(weights)),
    ensures
        is_cheapest(cells(weights), weights[0].len() as nat, r.0 as int, r.1@),
{
    let matrix = pathfinding::matrix::Matrix::from_rows(weights).unwrap();
    pathfinding::kuhn_munkres::kuhn_munkres_min(&matrix)
}

/// Where no cell that an assignment picks is below `low`, its cost is not
/// below as many times `low` as it has rows.
pub proof fn lemma_assignment_cost_lower(weights: Seq<Seq<int>>, columns_of: Seq<usize>, low: int)
    requires
        forall|i: int|
            0 <= i < columns_of.len() ==> low <= #[trigger] weights[i][columns_of[i] as int],
    ensures
        columns_of.len() * low <= assignment_cost(weights, columns_of),
    decreases columns_of.len(),
{
    if columns_of.len() > 0 {
        let before = columns_of.drop_last();
        let last = columns_of.len() - 1;
        assert forall|i: int| 0 <= i < before.len() implies low <= #[trigger] weights[i][before[i] as int] by {
            assert(before[i] == columns_of[i]);
            assert(low <= weights[i][columns_of[i] as int]);
        }
        lemma_assignment_cost_lower(weights, before, low);
        assert(low <= weights[last][columns_of[last] as int]);
        assert(columns_of.len() * low == before.len() * low + low) by (nonlinear_arith)
            requires
                columns_of.len() == before.len() + 1,
        ;
    } else {
        assert(columns_of.len() * low == 0) by (nonlinear_arith)
            requires
                columns_of.len() == 0,
        ;
    }
}

/// Where no cell that an assignment picks exceeds `high`, its cost does not
/// exceed as many times `high` as it has rows.
pub proof fn lemma_assignment_cost_upper(weights: Seq<Seq<int>>, columns_of: Seq<usize>, high: int)
    requires
        forall|i: int|
            0 <= i < columns_of.len() ==> #[trigger] weights[i][columns_of[i] as int] <= high,
    ensures
        assignment_cost(weights, columns_of) <= columns_of.len() * high,
    decreases columns_of.len(),
{
    if columns_of.len() > 0 {
        let before = columns_of.drop_last();
        let last = columns_of.len() - 1;
        assert forall|i: int| 0 <= i < before.len() implies #[trigger] weights[i][before[i] as int]
            <= high by {
            assert(before[i] == columns_of[i]);
            assert(weights[i][columns_of[i] as int] <= high);
        }
        lemma_assignment_cost_upper(weights, before, high);
        assert(weights[last][columns_of[last] as int] <= high);
        assert(columns_of.len() * high == before.len() * high + high) by (nonlinear_arith)
            requires
                columns_of.len() == before.len() + 1,
        ;
    } else {
        assert(columns_of.len() * high == 0) by (nonlinear_arith)
            requires
                columns_of.len() == 0,
        ;
    }
}

/// Where no cell that an assignment picks is negative and one is positive,
/// its cost is positive.
pub proof fn lemma_assignment_cost_positive(
    weights: Seq<Seq<int>>,
    columns_of: Seq<usize>,
    row: int,
)
    requires
        forall|i: int|
            0 <= i < columns_of.len() ==> 0 <= #[trigger] weights[i][columns_of[i] as int],
        0 <= row < columns_of.len(),
        0 < weights[row][columns_of[row] as int],
    ensures
        0 < assignment_cost(weights, columns_of),
    decreases columns_of.len(),
{
    let before = columns_of.drop_last();
    let last = columns_of.len() - 1;
    assert forall|i: int| 0 <= i < before.len() implies 0 <= #[trigger] weights[i][before[i] as int] by {
        assert(before[i] == columns_of[i]);
        assert(0 <= weights[i][columns_of[i] as int]);
    }
    assert(0 <= weights[last][columns_of[last] as int]);
    if row < last {
        assert(before[row] == columns_of[row]);
        lemma_assignment_cost_positive(weights, before, row);
    } else {
        lemma_assignment_cost_lower(weights, before, 0);
        assert(before.len() * 0 == 0) by (nonlinear_arith);
    }
}

/// Some row is given the column `column`.
pub open spec fn uses_column(columns_of: Seq<usize>, column: int) -> bool {
    exists|row: int| 0 <= row < columns_of.len() && #[trigger] columns_of[row] == column
}

/// An assignment of as many rows as there are columns leaves no column out.
pub proof fn lemma_square_assignment_uses_every_column(
    columns_of: Seq<usize>,
    side: nat,
    column: int,
)
    requires
        is_assignment(columns_of, side, side),
        0 <= column < side,
    ensures
        uses_column(columns_of, column),
{
    broadcast use seq_to_set_is_finite;

    let picked = Seq::new(side, |row: int| columns_of[row] as int);
    assert forall|i: int, j: int| 0 <= i < picked.len() && 0 <= j < picked.len() && i != j implies picked[i]
        != picked[j] by {
        if i < j {
            assert(columns_of[i] != columns_of[j]);
        } else {
            assert(columns_of[j] != columns_of[i]);
        }
    }
    picked.unique_seq_to_set();
    lemma_int_range(0, side as int);
    assert forall|c: int| picked.to_set().contains(c) implies set_int_range(0, side as int).contains(
        c,
    ) by {
        let row = choose|row: int| 0 <= row < picked.len() && picked[row] == c;
        assert(columns_of[row] < side);
    }
    lemma_subset_equality(picked.to_set(), set_int_range(0, side as int));
    assert(set_int_range(0, side as int).contains(column));
    assert(picked.to_set().contains(column));
    let row = choose|row: int| 0 <= row < picked.len() && picked[row] == column;
    assert(columns_of[row] == column);
}

} // verus!
