use vstd::prelude::*;
use crate::arithmetic::{deposit_is_determined, normalize_is_determined};
use crate::battle::{KillOdds, Side};
use crate::driver::battle_fought;
use crate::field::WEIGHT_COUNT;
use crate::round::{
    fired, fired_before_last, fired_nothing, moves_from, moves_of, moves_until, moves_until_ends,
    round_fought, stages_of_round,
};
use crate::weights::{uniform, WarWeights};

verus! {

/// While one side fires, the grid is determined by the weights, by the grid at the start
/// and by the deposits made so far.
proof fn fire_is_determined_so_far<T, D: Fn(Side, T, T, KillOdds) -> T>(
    deposit: D,
    side: Side,
    cap: usize,
    weights: Seq<T>,
    start: Seq<T>,
    slots: nat,
    made: nat,
    after: Seq<T>,
    other: Seq<T>,
)
    requires
        deposit_is_determined(deposit),
        slots <= WEIGHT_COUNT,
        slots < WEIGHT_COUNT || made == 0,
        made <= moves_from(slots as int, side, cap).len(),
        fired(deposit, side, weights, moves_until(slots, made, side, cap), start, after),
        fired(deposit, side, weights, moves_until(slots, made, side, cap), start, other),
    ensures
        after == other,
    decreases slots, made,
{
    if made > 0 {
        let before = fired_before_last(deposit, side, cap, weights, slots, made, start, after);
        let likewise = fired_before_last(deposit, side, cap, weights, slots, made, start, other);
        fire_is_determined_so_far(
            deposit,
            side,
            cap,
            weights,
            start,
            slots,
            (made - 1) as nat,
            before,
            likewise,
        );
        assert(after =~= other);
    } else if slots > 0 {
        let earlier = moves_from(slots - 1, side, cap).len();
        moves_until_ends((slots - 1) as nat, side, cap);
        fire_is_determined_so_far(
            deposit,
            side,
            cap,
            weights,
            start,
            (slots - 1) as nat,
            earlier,
            after,
            other,
        );
    } else {
        fired_nothing(deposit, side, cap, weights, start, after);
        fired_nothing(deposit, side, cap, weights, start, other);
    }
}

/// One side's fire is determined by its arithmetic: where `deposit` always makes the
/// same of the same, a fire on given weights leads to one grid only.
pub proof fn fire_is_determined<T, D: Fn(Side, T, T, KillOdds) -> T>(
    deposit: D,
    side: Side,
    cap: usize,
    weights: Seq<T>,
    start: Seq<T>,
    after: Seq<T>,
    other: Seq<T>,
)
    requires
        deposit_is_determined(deposit),
        fired(deposit, side, weights, moves_of(side, cap), start, after),
        fired(deposit, side, weights, moves_of(side, cap), start, other),
    ensures
        after == other,
{
    moves_until_ends(WEIGHT_COUNT as nat, side, cap);
    fire_is_determined_so_far(
        deposit,
        side,
        cap,
        weights,
        start,
        WEIGHT_COUNT as nat,
        0,
        after,
        other,
    );
}

/// A round is determined by its arithmetic: where `deposit` and `normalize` always make
/// the same of the same, a round fought on a given grid leads to one grid only.
pub proof fn round_is_determined<
    T,
    D: Fn(Side, T, T, KillOdds) -> T,
    N: Fn(WarWeights<T>) -> WarWeights<T>,
>(
    deposit: D,
    normalize: N,
    cap: usize,
    zero: T,
    before: Seq<T>,
    after: Seq<T>,
    other: Seq<T>,
)
    requires
        deposit_is_determined(deposit),
        normalize_is_determined(normalize),
        round_fought(deposit, normalize, cap, zero, before, after),
        round_fought(deposit, normalize, cap, zero, before, other),
    ensures
        after == other,
{
    let here = stages_of_round(deposit, normalize, cap, zero, before, after);
    let there = stages_of_round(deposit, normalize, cap, zero, before, other);
    let start = uniform(zero);
    fire_is_determined(deposit, Side::Attackers, cap, before, start, here.0@, there.0@);
    assert(here.1@ == there.1@);
    fire_is_determined(deposit, Side::Defenders, cap, here.1@, start, here.2@, there.2@);
    assert(here.3@ == there.3@);
}

/// A battle is determined by its arithmetic: where `deposit` and `normalize` always
/// make the same of the same, a battle of given rounds from a given grid leads to
/// one grid only, so that what `calculate_weights` ensures of its result holds of no
/// other grid.
pub proof fn battle_is_determined<
    T,
    D: Fn(Side, T, T, KillOdds) -> T,
    N: Fn(WarWeights<T>) -> WarWeights<T>,
>(
    deposit: D,
    normalize: N,
    cap: usize,
    zero: T,
    seed: Seq<T>,
    rounds: nat,
    after: Seq<T>,
    other: Seq<T>,
)
    requires
        deposit_is_determined(deposit),
        normalize_is_determined(normalize),
        battle_fought(deposit, normalize, cap, zero, seed, rounds, after),
        battle_fought(deposit, normalize, cap, zero, seed, rounds, other),
    ensures
        after == other,
    decreases rounds,
{
    if rounds > 0 {
        let before = choose|before: Seq<T>|
            battle_fought(deposit, normalize, cap, zero, seed, (rounds - 1) as nat, before)
                && #[trigger] round_fought(deposit, normalize, cap, zero, before, after);
        let likewise = choose|likewise: Seq<T>|
            battle_fought(deposit, normalize, cap, zero, seed, (rounds - 1) as nat, likewise)
                && #[trigger] round_fought(deposit, normalize, cap, zero, likewise, other);
        battle_is_determined(
            deposit,
            normalize,
            cap,
            zero,
            seed,
            (rounds - 1) as nat,
            before,
            likewise,
        );
        round_is_determined(deposit, normalize, cap, zero, before, after, other);
    }
}

} // verus!
