use vstd::prelude::*;
use crate::battle::{KillOdds, Side};
use crate::field::WEIGHT_COUNT;
use crate::weights::WarWeights;

verus! {

// What the theorems on whole battles ask of the arithmetic that the caller hands in.
// The library proves nothing of that arithmetic: each theorem names what it needs.

/// Nothing comes of nothing: a cell holds what it held after a weight of `zero` has
/// arrived, with whatever chance.
pub open spec fn nothing_comes_of_nothing<T, D: Fn(Side, T, T, KillOdds) -> T>(
    deposit: D,
    zero: T,
) -> bool {
    forall|side: Side, held: T, chance: KillOdds, raised: T| #[trigger]
        call_ensures(deposit, (side, held, zero, chance), raised) ==> raised == held
}

/// `normalize` leaves every cell that holds `zero` as it is.
pub open spec fn normalize_keeps_nothing<T, N: Fn(WarWeights<T>) -> WarWeights<T>>(
    normalize: N,
    zero: T,
) -> bool {
    forall|grid: WarWeights<T>, scaled: WarWeights<T>, i: int|
        #![trigger call_ensures(normalize, (grid,), scaled), grid@[i]]
        call_ensures(normalize, (grid,), scaled) && 0 <= i < WEIGHT_COUNT && grid@[i] == zero
            ==> scaled@[i] == zero
}

/// Adding nothing changes nothing: a cell that holds `zero` or `one` holds the same
/// after a weight of `zero` has arrived, with whatever chance, and a cell that holds
/// `zero` holds `one` after a weight of `one` has arrived for certain.
pub open spec fn nothing_adds_nothing<T, D: Fn(Side, T, T, KillOdds) -> T>(
    deposit: D,
    zero: T,
    one: T,
) -> bool {
    &&& forall|side: Side, held: T, chance: KillOdds, raised: T|
        (held == zero || held == one) && #[trigger] call_ensures(
            deposit,
            (side, held, zero, chance),
            raised,
        ) ==> raised == held
    &&& forall|side: Side, raised: T| #[trigger]
        call_ensures(deposit, (side, zero, one, KillOdds::Certain), raised) ==> raised == one
}

/// `normalize` leaves the grid with the cells `cells` as it is.
pub open spec fn normalize_keeps<T, N: Fn(WarWeights<T>) -> WarWeights<T>>(
    normalize: N,
    cells: Seq<T>,
) -> bool {
    forall|grid: WarWeights<T>, scaled: WarWeights<T>|
        grid@ == cells && #[trigger] call_ensures(normalize, (grid,), scaled) ==> scaled@ == cells
}

/// `deposit` always makes the same of the same: what a cell holds after a deposit is
/// determined by what it held, by the weight and by the chance.
pub open spec fn deposit_is_determined<T, D: Fn(Side, T, T, KillOdds) -> T>(deposit: D) -> bool {
    forall|side: Side, held: T, weight: T, chance: KillOdds, raised: T, other: T|
        #![trigger call_ensures(deposit, (side, held, weight, chance), raised), call_ensures(deposit, (side, held, weight, chance), other)]
        call_ensures(deposit, (side, held, weight, chance), raised) && call_ensures(
            deposit,
            (side, held, weight, chance),
            other,
        ) ==> raised == other
}

/// `normalize` always makes the same of the same: the cells of the grid that it
/// returns are determined by the cells of the grid that it is given.
pub open spec fn normalize_is_determined<T, N: Fn(WarWeights<T>) -> WarWeights<T>>(
    normalize: N,
) -> bool {
    forall|grid: WarWeights<T>, like: WarWeights<T>, scaled: WarWeights<T>, other: WarWeights<T>|
        #![trigger call_ensures(normalize, (grid,), scaled), call_ensures(normalize, (like,), other)]
        grid@ == like@ && call_ensures(normalize, (grid,), scaled) && call_ensures(
            normalize,
            (like,),
            other,
        ) ==> scaled@ == other@
}

} // verus!
