use vstd::prelude::*;
use crate::field::{slot_of, HEADCOUNTS, MAX_SOLDIERS, WEIGHT_COUNT};

verus! {

/// Number of force states in which both sides still stand.
pub const UNDECIDED_COUNT: usize = 10000;

/// The cells of a grid that holds `value` everywhere.
pub open spec fn uniform<T>(value: T) -> Seq<T> {
    Seq::new(WEIGHT_COUNT as nat, |i: int| value)
}

/// The cells of a grid that holds `one` at `slot` and `zero` everywhere else.
pub open spec fn point_mass_of<T>(slot: int, zero: T, one: T) -> Seq<T> {
    Seq::new(WEIGHT_COUNT as nat, |i: int| if i == slot { one } else { zero })
}

/// The cells in which the defenders are wiped out, by surviving attackers.
pub open spec fn attackers_winning<T>(cells: Seq<T>) -> Seq<T> {
    Seq::new(HEADCOUNTS as nat, |i: int| cells[slot_of(i, 0)])
}

/// The cells in which the attackers are wiped out, by surviving defenders.
pub open spec fn defenders_winning<T>(cells: Seq<T>) -> Seq<T> {
    Seq::new(HEADCOUNTS as nat, |i: int| cells[slot_of(0, i)])
}

/// The cells in which both sides still stand, by rising number of attackers and, for
/// each, by rising number of defenders.
pub open spec fn undecided<T>(cells: Seq<T>) -> Seq<T> {
    Seq::new(
        UNDECIDED_COUNT as nat,
        |k: int| cells[slot_of(1 + k / MAX_SOLDIERS as int, 1 + k % MAX_SOLDIERS as int)],
    )
}

/// A dense grid with one cell for each force state, which holds the weight of that
/// state. The library moves the weights and leaves the arithmetic on them to its
/// caller, so a weight can be of any type that is copied freely.
#[derive(Debug, PartialEq)]
pub struct WarWeights<T>(pub [T; WEIGHT_COUNT]);

impl<T> View for WarWeights<T> {
    type V = Seq<T>;

    open spec fn view(&self) -> Seq<T> {
        self.0@
    }
}

impl<T: Copy> WarWeights<T> {
    /// Position of the state `(attackers, defenders)` in the grid.
    pub fn slot_for(attackers: usize, defenders: usize) -> (slot: usize)
        requires
            attackers <= MAX_SOLDIERS,
            defenders <= MAX_SOLDIERS,
        ensures
            slot == slot_of(attackers as int, defenders as int),
            slot < WEIGHT_COUNT,
    {
        attackers * HEADCOUNTS + defenders
    }

    /// A grid that holds `value` in every cell.
    pub fn filled(value: T) -> (grid: Self)
        ensures
            grid@ == uniform(value),
    {
        WarWeights([value;WEIGHT_COUNT])
    }

    /// The grid that holds `one` at `(attackers, defenders)` and `zero` everywhere else.
    pub fn point_mass(attackers: usize, defenders: usize, zero: T, one: T) -> (grid: Self)
        requires
            attackers <= MAX_SOLDIERS,
            defenders <= MAX_SOLDIERS,
        ensures
            grid@ == point_mass_of(slot_of(attackers as int, defenders as int), zero, one),
    {
        let mut cells = [zero;WEIGHT_COUNT];
        cells[Self::slot_for(attackers, defenders)] = one;
        WarWeights(cells)
    }

    /// For each number of surviving attackers, the cell in which no defender is left.
    pub fn get_attackers_winning_results(&self) -> (results: [T; HEADCOUNTS])
        ensures
            results@ == attackers_winning(self@),
    {
        let mut results = [self.0[0];HEADCOUNTS];
        let mut j: usize = 0;
        while j < HEADCOUNTS
            invariant
                j <= HEADCOUNTS,
                forall|i: int| 0 <= i < j ==> results@[i] == self@[slot_of(i, 0)],
            decreases HEADCOUNTS - j,
        {
            results[j] = self.0[Self::slot_for(j, 0)];
            j += 1;
        }
        results
    }

    /// For each number of surviving defenders, the cell in which no attacker is left.
    pub fn get_defenders_winning_results(&self) -> (results: [T; HEADCOUNTS])
        ensures
            results@ == defenders_winning(self@),
    {
        let mut results = [self.0[0];HEADCOUNTS];
        let mut i: usize = 0;
        while i < HEADCOUNTS
            invariant
                i <= HEADCOUNTS,
                forall|k: int| 0 <= k < i ==> results@[k] == self@[slot_of(0, k)],
            decreases HEADCOUNTS - i,
        {
            results[i] = self.0[Self::slot_for(0, i)];
            i += 1;
        }
        results
    }

    /// The cells in which neither side has won yet, in the order of `undecided`.
    pub fn get_undecided_results(&self) -> (results: Vec<T>)
        ensures
            results@ == undecided(self@),
    {
        let mut results: Vec<T> = Vec::new();
        let mut i: usize = 1;
        while i <= MAX_SOLDIERS
            invariant
                1 <= i <= MAX_SOLDIERS + 1,
                results@.len() == (i - 1) * MAX_SOLDIERS,
                forall|k: int| 0 <= k < results@.len() ==> results@[k] == undecided(self@)[k],
            decreases MAX_SOLDIERS + 1 - i,
        {
            let mut j: usize = 1;
            while j <= MAX_SOLDIERS
                invariant
                    1 <= i <= MAX_SOLDIERS,
                    1 <= j <= MAX_SOLDIERS + 1,
                    results@.len() == (i - 1) * MAX_SOLDIERS + (j - 1),
                    forall|k: int| 0 <= k < results@.len() ==> results@[k] == undecided(self@)[k],
                decreases MAX_SOLDIERS + 1 - j,
            {
                results.push(self.0[Self::slot_for(i, j)]);
                j += 1;
            }
            i += 1;
        }
        results
    }
}

/// The sum of `cells`.
pub open spec fn total(cells: Seq<int>) -> int
    decreases cells.len(),
{
    if cells.len() == 0 {
        0
    } else {
        total(cells.drop_last()) + cells.last()
    }
}

/// The sum of two rows laid end to end is the sum of their sums.
proof fn total_of_joined(left: Seq<int>, right: Seq<int>)
    ensures
        total(left + right) == total(left) + total(right),
    decreases right.len(),
{
    if right.len() == 0 {
        assert(left + right =~= left);
    } else {
        assert((left + right).drop_last() =~= left + right.drop_last());
        total_of_joined(left, right.drop_last());
    }
}

/// The first `rows` rows of the grid, summed by outcome: the cells without
/// defenders, the cells without attackers, and the cells with both, with the empty
/// field counted once.
proof fn rows_by_outcome(cells: Seq<int>, rows: int)
    requires
        cells.len() == WEIGHT_COUNT,
        1 <= rows <= HEADCOUNTS,
    ensures
        total(cells.take(rows * HEADCOUNTS)) == total(attackers_winning(cells).take(rows)) + total(
            defenders_winning(cells),
        ) - cells[0] + total(undecided(cells).take((rows - 1) * MAX_SOLDIERS)),
    decreases rows,
{
    let won = attackers_winning(cells);
    let lost = defenders_winning(cells);
    let open = undecided(cells);
    if rows == 1 {
        assert(cells.take(HEADCOUNTS as int) =~= lost);
        assert(total(Seq::<int>::empty()) == 0);
        assert(won.take(1).drop_last() =~= Seq::<int>::empty());
        assert(open.take(0) =~= Seq::<int>::empty());
    } else {
        rows_by_outcome(cells, rows - 1);
        let start = (rows - 1) * HEADCOUNTS;
        let rest = cells.subrange(start + 1, start + HEADCOUNTS);
        assert(cells.take(rows * HEADCOUNTS) =~= cells.take(start) + seq![cells[start]] + rest);
        total_of_joined(cells.take(start) + seq![cells[start]], rest);
        assert((cells.take(start) + seq![cells[start]]).drop_last() =~= cells.take(start));
        assert(won.take(rows).drop_last() =~= won.take(rows - 1));
        assert(won.take(rows).last() == cells[start]);
        let seen = (rows - 2) * MAX_SOLDIERS;
        assert(open.take(seen + MAX_SOLDIERS) =~= open.take(seen) + rest) by {
            assert forall|j: int| 0 <= j < MAX_SOLDIERS implies open[seen + j] == rest[j] by {
                assert((seen + j) / MAX_SOLDIERS as int == rows - 2);
                assert((seen + j) % MAX_SOLDIERS as int == j);
            }
        }
        total_of_joined(open.take(seen), rest);
    }
}

/// The three readings of a grid count every cell once, but for the empty field: with
/// exact numbers in the cells, the cells without defenders, the cells without
/// attackers and the cells with both sum to the whole grid and the cell of the empty
/// field, which stands in both of the first two.
pub proof fn outcomes_cover_the_grid(cells: Seq<int>)
    requires
        cells.len() == WEIGHT_COUNT,
    ensures
        total(attackers_winning(cells)) + total(defenders_winning(cells)) + total(
            undecided(cells),
        ) == total(cells) + cells[0],
{
    rows_by_outcome(cells, HEADCOUNTS as int);
    assert(cells.take(HEADCOUNTS * HEADCOUNTS) =~= cells);
    assert(attackers_winning(cells).take(HEADCOUNTS as int) =~= attackers_winning(cells));
    assert(undecided(cells).take(MAX_SOLDIERS * MAX_SOLDIERS) =~= undecided(cells));
}

} // verus!
