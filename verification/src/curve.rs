use vstd::prelude::*;
use crate::field::{HEADCOUNTS, MAX_SOLDIERS};

verus! {

/// How far the columns reach to each side of the most probable headcount when no
/// headcount is likely by itself.
pub const MARGIN: usize = 10;

/// The part of an outcome curve that is worth showing.
#[derive(Clone, Copy, Debug, PartialEq, Eq, Structural)]
pub struct Columns {
    /// The first headcount to show.
    pub first: usize,
    /// The last headcount to show.
    pub last: usize,
    /// The headcount with the highest score; of several, the largest.
    pub probable: usize,
    /// No headcount above zero is likely, so the columns lie around `probable`.
    pub widened: bool,
}

/// `at` is the first headcount that is likely, or zero if none is.
pub open spec fn first_likely_at(likely: Seq<bool>, at: int) -> bool {
    &&& 0 <= at < likely.len()
    &&& forall|i: int| 0 <= i < at ==> !likely[i]
    &&& likely[at] || (at == 0 && forall|i: int| 0 <= i < likely.len() ==> !likely[i])
}

/// `at` is the last headcount that is likely, or zero if none is.
pub open spec fn last_likely_at(likely: Seq<bool>, at: int) -> bool {
    &&& 0 <= at < likely.len()
    &&& forall|i: int| at < i < likely.len() ==> !likely[i]
    &&& likely[at] || (at == 0 && forall|i: int| 0 <= i < likely.len() ==> !likely[i])
}

/// `at` is the headcount with the highest score; of several, the largest.
pub open spec fn most_probable_at(scores: Seq<usize>, at: int) -> bool {
    &&& 0 <= at < scores.len()
    &&& forall|i: int| 0 <= i < scores.len() ==> scores[i] <= scores[at]
    &&& forall|i: int| at < i < scores.len() ==> scores[i] < scores[at]
}

/// The columns around `probable`: `MARGIN` to each side, as far as the field goes.
pub open spec fn around(probable: int) -> (int, int) {
    (
        if probable > MARGIN {
            probable - MARGIN
        } else {
            0
        },
        if probable + MARGIN < MAX_SOLDIERS {
            probable + MARGIN
        } else {
            MAX_SOLDIERS as int
        },
    )
}

/// The first headcount that is likely, or zero if none is.
fn first_likely(likely: &[bool; HEADCOUNTS]) -> (at: usize)
    ensures
        first_likely_at(likely@, at as int),
{
    let mut at: usize = 0;
    while at < HEADCOUNTS && !likely[at]
        invariant
            at <= HEADCOUNTS,
            forall|i: int| 0 <= i < at ==> !likely@[i],
        decreases HEADCOUNTS - at,
    {
        at += 1;
    }
    if at == HEADCOUNTS {
        0
    } else {
        at
    }
}

/// The last headcount that is likely, or zero if none is.
fn last_likely(likely: &[bool; HEADCOUNTS]) -> (at: usize)
    ensures
        last_likely_at(likely@, at as int),
{
    let mut at: usize = MAX_SOLDIERS;
    while at > 0 && !likely[at]
        invariant
            at <= MAX_SOLDIERS,
            forall|i: int| at < i < HEADCOUNTS ==> !likely@[i],
        decreases at,
    {
        at -= 1;
    }
    at
}

/// The headcount with the highest score; of several, the largest.
fn most_probable(scores: &[usize; HEADCOUNTS]) -> (at: usize)
    ensures
        most_probable_at(scores@, at as int),
{
    let mut at: usize = 0;
    let mut next: usize = 1;
    while next < HEADCOUNTS
        invariant
            at < next <= HEADCOUNTS,
            forall|i: int| 0 <= i < next ==> scores@[i] <= scores@[at as int],
            forall|i: int| at < i < next ==> scores@[i] < scores@[at as int],
        decreases HEADCOUNTS - next,
    {
        if scores[next] >= scores[at] {
            at = next;
        }
        next += 1;
    }
    at
}

/// Picks the columns of an outcome curve to show. `likely` says of each headcount
/// whether it is likely enough to be shown for its own sake, `scores` ranks the
/// headcounts by probability. The columns run from the first likely headcount to the
/// last one; if no headcount above zero is likely, they lie around the most probable
/// one.
pub fn table_columns(
    likely: &[bool; HEADCOUNTS],
    scores: &[usize; HEADCOUNTS],
) -> (columns: Columns)
    ensures
        most_probable_at(scores@, columns.probable as int),
        columns.widened <==> first_likely_at(likely@, 0) && last_likely_at(likely@, 0),
        !columns.widened ==> first_likely_at(likely@, columns.first as int) && last_likely_at(
            likely@,
            columns.last as int,
        ),
        columns.widened ==> (columns.first as int, columns.last as int) == around(
            columns.probable as int,
        ),
        columns.first <= columns.last <= MAX_SOLDIERS,
{
    let first: usize = first_likely(likely);
    let last: usize = last_likely(likely);
    let probable: usize = most_probable(scores);
    if first == 0 && last == 0 {
        Columns {
            first: if probable > MARGIN {
                probable - MARGIN
            } else {
                0
            },
            last: if probable + MARGIN < MAX_SOLDIERS {
                probable + MARGIN
            } else {
                MAX_SOLDIERS
            },
            probable,
            widened: true,
        }
    } else {
        Columns { first, last, probable, widened: false }
    }
}

} // verus!
