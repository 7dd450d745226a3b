use vstd::prelude::*;
use crate::battle::{KillOdds, Side};
use crate::field::{slot_of, MAX_SOLDIERS};
use crate::odds::WarOdds;
use crate::round::{round_fought, stages_of_round, step_battle};
use crate::weights::{point_mass_of, WarWeights};

verus! {

/// `after` is a grid that `rounds` rounds, each fought on what the round before has
/// left, can make of `seed`.
pub open spec fn battle_fought<
    T,
    D: Fn(Side, T, T, KillOdds) -> T,
    N: Fn(WarWeights<T>) -> WarWeights<T>,
>(deposit: D, normalize: N, cap: usize, zero: T, seed: Seq<T>, rounds: nat, after: Seq<T>) -> bool
    decreases rounds,
{
    if rounds == 0 {
        after == seed
    } else {
        exists|before: Seq<T>|
            battle_fought(deposit, normalize, cap, zero, seed, (rounds - 1) as nat, before)
                && #[trigger] round_fought(deposit, normalize, cap, zero, before, after)
    }
}

/// Fights a battle: starts from the grid that holds `one` at the starting headcounts
/// and `zero` elsewhere, and fights `odds.round_count` rounds, each on the grid that
/// the round before has left. `deposit` and `normalize` do the arithmetic on the
/// weights.
pub fn calculate_weights<
    T: Copy,
    D: Fn(Side, T, T, KillOdds) -> T,
    N: Fn(WarWeights<T>) -> WarWeights<T>,
>(
    starting_attackers: usize,
    starting_defenders: usize,
    odds: &WarOdds,
    zero: T,
    one: T,
    deposit: D,
    normalize: N,
) -> (weights: WarWeights<T>)
    requires
        starting_attackers <= MAX_SOLDIERS,
        starting_defenders <= MAX_SOLDIERS,
        forall|to: Side, held: T, weight: T, chance: KillOdds|
            call_requires(deposit, (to, held, weight, chance)),
        forall|grid: WarWeights<T>| call_requires(normalize, (grid,)),
    ensures
        battle_fought(
            deposit,
            normalize,
            odds.limited_engagements,
            zero,
            point_mass_of(slot_of(starting_attackers as int, starting_defenders as int), zero, one),
            odds.round_count as nat,
            weights@,
        ),
        odds.round_count == 0 ==> weights@ == point_mass_of(
            slot_of(starting_attackers as int, starting_defenders as int),
            zero,
            one,
        ),
{
    let mut weights = WarWeights::point_mass(starting_attackers, starting_defenders, zero, one);
    let ghost seed = weights@;
    let mut fought: usize = 0;
    while fought < odds.round_count
        invariant
            fought <= odds.round_count,
            forall|to: Side, held: T, weight: T, chance: KillOdds|
                call_requires(deposit, (to, held, weight, chance)),
            forall|grid: WarWeights<T>| call_requires(normalize, (grid,)),
            battle_fought(
                deposit,
                normalize,
                odds.limited_engagements,
                zero,
                seed,
                fought as nat,
                weights@,
            ),
        decreases odds.round_count - fought,
    {
        let ghost before = weights@;
        weights = step_battle(&weights, odds, zero, &deposit, &normalize);
        fought += 1;
        assert(battle_fought(
            deposit,
            normalize,
            odds.limited_engagements,
            zero,
            seed,
            (fought - 1) as nat,
            before,
        ) && round_fought(deposit, normalize, odds.limited_engagements, zero, before, weights@));
    }
    weights
}

/// What normalization establishes holds after every round: whatever is true of
/// every grid that `normalize` returns, such as that its weights sum to one, is true
/// of the grid after one round or more.
pub proof fn battle_ends_normalized<
    T,
    D: Fn(Side, T, T, KillOdds) -> T,
    N: Fn(WarWeights<T>) -> WarWeights<T>,
>(
    deposit: D,
    normalize: N,
    cap: usize,
    zero: T,
    seed: Seq<T>,
    rounds: nat,
    after: Seq<T>,
    established: spec_fn(Seq<T>) -> bool,
)
    requires
        rounds > 0,
        battle_fought(deposit, normalize, cap, zero, seed, rounds, after),
        forall|raw: WarWeights<T>, scaled: WarWeights<T>| #[trigger]
            call_ensures(normalize, (raw,), scaled) ==> established(scaled@),
    ensures
        established(after),
{
    let before = choose|before: Seq<T>|
        battle_fought(deposit, normalize, cap, zero, seed, (rounds - 1) as nat, before)
            && #[trigger] round_fought(deposit, normalize, cap, zero, before, after);
    let (struck, rallied, answered, ended) = stages_of_round(
        deposit,
        normalize,
        cap,
        zero,
        before,
        after,
    );
    assert(call_ensures(normalize, (answered,), ended));
}

} // verus!
