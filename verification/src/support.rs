use vstd::prelude::*;
use crate::arithmetic::{normalize_keeps_nothing, nothing_comes_of_nothing};
use crate::battle::{transitions_of, volley_only_takes_lives, KillOdds, Side};
use crate::course::{fire_leads, round_leads, rounds_lead, somebody_survives};
use crate::driver::battle_fought;
use crate::field::{state_at, ForceState, WEIGHT_COUNT};
use crate::round::{
    deposited, fired, fired_before_last, fired_nothing, moves_from, moves_of, moves_until,
    moves_until_ends, round_fought, stages_of_round,
};
use crate::weights::{point_mass_of, uniform, WarWeights};

verus! {

/// Some state that holds weight in `weights` can become the state at `to` when `side`
/// fires once.
pub open spec fn fire_brings<T>(weights: Seq<T>, zero: T, side: Side, cap: usize, to: int) -> bool {
    exists|source: int|
        0 <= source < WEIGHT_COUNT && weights[source] != zero && #[trigger] fire_leads(
            state_at(source),
            side,
            cap,
            state_at(to),
        )
}

/// Some state that holds weight in `weights` can become the state at `to` in one
/// round.
pub open spec fn round_brings<T>(weights: Seq<T>, zero: T, cap: usize, to: int) -> bool {
    exists|source: int|
        0 <= source < WEIGHT_COUNT && weights[source] != zero && #[trigger] round_leads(
            state_at(source),
            cap,
            state_at(to),
        )
}

/// A deposit brings weight only to a state that its source, if it holds weight, can
/// become.
proof fn deposit_goes_where_fire_leads<T, D: Fn(Side, T, T, KillOdds) -> T>(
    deposit: D,
    side: Side,
    cap: usize,
    zero: T,
    weights: Seq<T>,
    slots: nat,
    made: nat,
    before: Seq<T>,
    after: Seq<T>,
)
    requires
        nothing_comes_of_nothing(deposit, zero),
        slots < WEIGHT_COUNT,
        made < moves_from(slots as int, side, cap).len(),
        before.len() == WEIGHT_COUNT,
        forall|to: int|
            0 <= to < WEIGHT_COUNT && before[to] != zero ==> fire_brings(
                weights,
                zero,
                side,
                cap,
                to,
            ),
        deposited(
            deposit,
            side,
            weights,
            moves_from(slots as int, side, cap)[made as int],
            before,
            after,
        ),
    ensures
        after.len() == WEIGHT_COUNT,
        forall|to: int|
            0 <= to < WEIGHT_COUNT && after[to] != zero ==> fire_brings(
                weights,
                zero,
                side,
                cap,
                to,
            ),
{
    let from = state_at(slots as int);
    let taken = moves_from(slots as int, side, cap)[made as int];
    let target = taken.transition.target;
    if from.absorbing() {
        volley_only_takes_lives(from, side, cap, 0);
    } else {
        volley_only_takes_lives(from, side, cap, made as usize);
    }
    assert(state_at(target.index()) == target);
    assert forall|to: int| 0 <= to < WEIGHT_COUNT && after[to] != zero implies fire_brings(
        weights,
        zero,
        side,
        cap,
        to,
    ) by {
        if to == target.index() && after[to] != before[to] {
            assert(call_ensures(
                deposit,
                (side, before[to], weights[slots as int], taken.transition.odds),
                after[to],
            ));
            assert(weights[slots as int] != zero);
            assert(transitions_of(from, side, cap)[made as int] == taken.transition);
            assert(fire_leads(from, side, cap, state_at(to)));
        }
    }
}

/// While one side fires, weight is found only where a state that holds weight can
/// lead.
proof fn fire_goes_where_it_leads<T, D: Fn(Side, T, T, KillOdds) -> T>(
    deposit: D,
    side: Side,
    cap: usize,
    zero: T,
    weights: Seq<T>,
    slots: nat,
    made: nat,
    after: Seq<T>,
)
    requires
        nothing_comes_of_nothing(deposit, zero),
        slots <= WEIGHT_COUNT,
        slots < WEIGHT_COUNT || made == 0,
        made <= moves_from(slots as int, side, cap).len(),
        fired(deposit, side, weights, moves_until(slots, made, side, cap), uniform(zero), after),
    ensures
        after.len() == WEIGHT_COUNT,
        forall|to: int|
            0 <= to < WEIGHT_COUNT && after[to] != zero ==> fire_brings(
                weights,
                zero,
                side,
                cap,
                to,
            ),
    decreases slots, made,
{
    if made > 0 {
        let before = fired_before_last(
            deposit,
            side,
            cap,
            weights,
            slots,
            made,
            uniform(zero),
            after,
        );
        fire_goes_where_it_leads(
            deposit,
            side,
            cap,
            zero,
            weights,
            slots,
            (made - 1) as nat,
            before,
        );
        deposit_goes_where_fire_leads(
            deposit,
            side,
            cap,
            zero,
            weights,
            slots,
            (made - 1) as nat,
            before,
            after,
        );
    } else if slots > 0 {
        let earlier = moves_from(slots - 1, side, cap).len();
        moves_until_ends((slots - 1) as nat, side, cap);
        fire_goes_where_it_leads(
            deposit,
            side,
            cap,
            zero,
            weights,
            (slots - 1) as nat,
            earlier,
            after,
        );
    } else {
        fired_nothing(deposit, side, cap, weights, uniform(zero), after);
    }
}

/// After one side's fire, weight is found only where a state that held weight
/// before can lead.
pub proof fn fire_ends_where_it_leads<T, D: Fn(Side, T, T, KillOdds) -> T>(
    deposit: D,
    side: Side,
    cap: usize,
    zero: T,
    weights: Seq<T>,
    after: Seq<T>,
    to: int,
)
    requires
        nothing_comes_of_nothing(deposit, zero),
        fired(deposit, side, weights, moves_of(side, cap), uniform(zero), after),
        0 <= to < WEIGHT_COUNT,
        after[to] != zero,
    ensures
        fire_brings(weights, zero, side, cap, to),
{
    moves_until_ends(WEIGHT_COUNT as nat, side, cap);
    fire_goes_where_it_leads(deposit, side, cap, zero, weights, WEIGHT_COUNT as nat, 0, after);
}

/// After a round, weight is found only where a state that held weight before the
/// round can lead in one round.
pub proof fn round_goes_where_it_leads<
    T,
    D: Fn(Side, T, T, KillOdds) -> T,
    N: Fn(WarWeights<T>) -> WarWeights<T>,
>(deposit: D, normalize: N, cap: usize, zero: T, before: Seq<T>, after: Seq<T>, to: int)
    requires
        nothing_comes_of_nothing(deposit, zero),
        normalize_keeps_nothing(normalize, zero),
        round_fought(deposit, normalize, cap, zero, before, after),
        0 <= to < WEIGHT_COUNT,
        after[to] != zero,
    ensures
        round_brings(before, zero, cap, to),
{
    let (struck, rallied, answered, ended) = stages_of_round(
        deposit,
        normalize,
        cap,
        zero,
        before,
        after,
    );
    assert(answered@[to] != zero) by {
        if answered@[to] == zero {
            assert(ended@[to] == zero);
        }
    }
    fire_ends_where_it_leads(deposit, Side::Defenders, cap, zero, rallied@, answered@, to);
    let between = choose|between: int|
        0 <= between < WEIGHT_COUNT && rallied@[between] != zero && #[trigger] fire_leads(
            state_at(between),
            Side::Defenders,
            cap,
            state_at(to),
        );
    assert(struck@[between] != zero) by {
        if struck@[between] == zero {
            assert(rallied@[between] == zero);
        }
    }
    fire_ends_where_it_leads(deposit, Side::Attackers, cap, zero, before, struck@, between);
    let source = choose|source: int|
        0 <= source < WEIGHT_COUNT && before[source] != zero && #[trigger] fire_leads(
            state_at(source),
            Side::Attackers,
            cap,
            state_at(between),
        );
    assert(fire_leads(state_at(source), Side::Attackers, cap, state_at(between)) && fire_leads(
        state_at(between),
        Side::Defenders,
        cap,
        state_at(to),
    ));
    assert(round_leads(state_at(source), cap, state_at(to)));
}

/// Weight is found only where the battle can lead: where nothing comes of nothing
/// and `normalize` leaves empty cells empty, a cell that holds weight after `rounds`
/// rounds is the cell of a state that the starting state can become in `rounds`
/// rounds.
pub proof fn weight_is_where_battle_leads<
    T,
    D: Fn(Side, T, T, KillOdds) -> T,
    N: Fn(WarWeights<T>) -> WarWeights<T>,
>(
    deposit: D,
    normalize: N,
    cap: usize,
    zero: T,
    one: T,
    start: ForceState,
    rounds: nat,
    after: Seq<T>,
    to: int,
)
    requires
        start.valid(),
        nothing_comes_of_nothing(deposit, zero),
        normalize_keeps_nothing(normalize, zero),
        battle_fought(
            deposit,
            normalize,
            cap,
            zero,
            point_mass_of(start.index(), zero, one),
            rounds,
            after,
        ),
        0 <= to < WEIGHT_COUNT,
        after[to] != zero,
    ensures
        rounds_lead(start, cap, rounds, state_at(to)),
    decreases rounds,
{
    let seed = point_mass_of(start.index(), zero, one);
    if rounds == 0 {
        assert(to == start.index());
        assert(state_at(to) == start);
    } else {
        let before = choose|before: Seq<T>|
            battle_fought(deposit, normalize, cap, zero, seed, (rounds - 1) as nat, before)
                && #[trigger] round_fought(deposit, normalize, cap, zero, before, after);
        round_goes_where_it_leads(deposit, normalize, cap, zero, before, after, to);
        let source = choose|source: int|
            0 <= source < WEIGHT_COUNT && before[source] != zero && #[trigger] round_leads(
                state_at(source),
                cap,
                state_at(to),
            );
        weight_is_where_battle_leads(
            deposit,
            normalize,
            cap,
            zero,
            one,
            start,
            (rounds - 1) as nat,
            before,
            source,
        );
        assert(rounds_lead(start, cap, (rounds - 1) as nat, state_at(source)) && round_leads(
            state_at(source),
            cap,
            state_at(to),
        ));
    }
}

/// The empty field holds no weight unless the battle starts there: where nothing
/// comes of nothing and `normalize` leaves empty cells empty, a battle that starts
/// with a soldier on the field never puts weight on the state without any.
pub proof fn empty_field_holds_no_weight<
    T,
    D: Fn(Side, T, T, KillOdds) -> T,
    N: Fn(WarWeights<T>) -> WarWeights<T>,
>(
    deposit: D,
    normalize: N,
    cap: usize,
    zero: T,
    one: T,
    start: ForceState,
    rounds: nat,
    after: Seq<T>,
)
    requires
        start.valid(),
        start.attackers > 0 || start.defenders > 0,
        nothing_comes_of_nothing(deposit, zero),
        normalize_keeps_nothing(normalize, zero),
        battle_fought(
            deposit,
            normalize,
            cap,
            zero,
            point_mass_of(start.index(), zero, one),
            rounds,
            after,
        ),
    ensures
        after[0] == zero,
{
    if after[0] != zero {
        weight_is_where_battle_leads(
            deposit,
            normalize,
            cap,
            zero,
            one,
            start,
            rounds,
            after,
            0,
        );
        somebody_survives(start, cap, rounds, state_at(0));
    }
}

} // verus!
