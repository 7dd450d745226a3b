use vstd::prelude::*;
use crate::arithmetic::{normalize_keeps, nothing_adds_nothing};
use crate::battle::{
    transitions_are_few, transitions_of, volley_only_takes_lives, KillOdds, Side,
};
use crate::driver::battle_fought;
use crate::field::{state_at, ForceState, WEIGHT_COUNT};
use crate::round::{
    deposited, fired, fired_before_last, fired_nothing, moves_from, moves_of, moves_until,
    moves_until_ends, round_fought, stages_of_round,
};
use crate::weights::{point_mass_of, uniform, WarWeights};

verus! {

/// The grid while one side fires at a battle that is over at `start`: nothing until
/// the deposit out of `start` is made, and all the weight at `start` from then on.
spec fn settling<T>(zero: T, one: T, start: ForceState, slots: nat, made: nat) -> Seq<T> {
    if slots > start.index() || (slots == start.index() && made > 0) {
        point_mass_of(start.index(), zero, one)
    } else {
        uniform(zero)
    }
}

/// A deposit out of a state that holds no weight changes nothing.
proof fn empty_state_moves_nothing<T, D: Fn(Side, T, T, KillOdds) -> T>(
    deposit: D,
    side: Side,
    cap: usize,
    zero: T,
    one: T,
    start: ForceState,
    slots: nat,
    made: nat,
    before: Seq<T>,
    after: Seq<T>,
)
    requires
        start.valid(),
        nothing_adds_nothing(deposit, zero, one),
        slots < WEIGHT_COUNT,
        slots != start.index(),
        made < moves_from(slots as int, side, cap).len(),
        before == settling(zero, one, start, slots, made),
        deposited(
            deposit,
            side,
            point_mass_of(start.index(), zero, one),
            moves_from(slots as int, side, cap)[made as int],
            before,
            after,
        ),
    ensures
        after == before,
{
    let taken = moves_from(slots as int, side, cap)[made as int];
    let to = taken.transition.target.index();
    let mass = point_mass_of(start.index(), zero, one);
    if state_at(slots as int).absorbing() {
        volley_only_takes_lives(state_at(slots as int), side, cap, 0);
    } else {
        volley_only_takes_lives(state_at(slots as int), side, cap, made as usize);
    }
    assert(0 <= to < WEIGHT_COUNT);
    assert(mass[slots as int] == zero);
    assert(before[to] == zero || before[to] == one);
    assert(call_ensures(deposit, (side, before[to], zero, taken.transition.odds), after[to]));
    assert(after =~= before);
}

/// The deposit out of the state of a battle that is over puts all the weight there.
proof fn finished_state_keeps_its_weight<T, D: Fn(Side, T, T, KillOdds) -> T>(
    deposit: D,
    side: Side,
    cap: usize,
    zero: T,
    one: T,
    start: ForceState,
    made: nat,
    before: Seq<T>,
    after: Seq<T>,
)
    requires
        start.valid(),
        start.absorbing(),
        nothing_adds_nothing(deposit, zero, one),
        made < moves_from(start.index(), side, cap).len(),
        before == settling(zero, one, start, start.index() as nat, made),
        deposited(
            deposit,
            side,
            point_mass_of(start.index(), zero, one),
            moves_from(start.index(), side, cap)[made as int],
            before,
            after,
        ),
    ensures
        made == 0,
        after == point_mass_of(start.index(), zero, one),
{
    let mass = point_mass_of(start.index(), zero, one);
    assert(state_at(start.index()) == start);
    assert(transitions_of(start, side, cap).len() == 1);
    let taken = moves_from(start.index(), side, cap)[0];
    assert(taken.transition.target == start);
    assert(taken.transition.odds == KillOdds::Certain);
    assert(before[start.index()] == zero);
    assert(mass[start.index()] == one);
    assert(call_ensures(deposit, (side, zero, one, KillOdds::Certain), after[start.index()]));
    assert(after =~= mass);
}

/// While one side fires at a battle that is over, the grid holds nothing until the
/// state of that battle is reached, and all the weight in its cell from then on.
proof fn fire_sets_finished_battle_down<T, D: Fn(Side, T, T, KillOdds) -> T>(
    deposit: D,
    side: Side,
    cap: usize,
    zero: T,
    one: T,
    start: ForceState,
    slots: nat,
    made: nat,
    after: Seq<T>,
)
    requires
        start.valid(),
        start.absorbing(),
        nothing_adds_nothing(deposit, zero, one),
        slots <= WEIGHT_COUNT,
        slots < WEIGHT_COUNT || made == 0,
        made <= moves_from(slots as int, side, cap).len(),
        fired(
            deposit,
            side,
            point_mass_of(start.index(), zero, one),
            moves_until(slots, made, side, cap),
            uniform(zero),
            after,
        ),
    ensures
        after == settling(zero, one, start, slots, made),
    decreases slots, made,
{
    let mass = point_mass_of(start.index(), zero, one);
    if made > 0 {
        let before = fired_before_last(
            deposit,
            side,
            cap,
            mass,
            slots,
            made,
            uniform(zero),
            after,
        );
        fire_sets_finished_battle_down(
            deposit,
            side,
            cap,
            zero,
            one,
            start,
            slots,
            (made - 1) as nat,
            before,
        );
        if slots == start.index() {
            finished_state_keeps_its_weight(
                deposit,
                side,
                cap,
                zero,
                one,
                start,
                (made - 1) as nat,
                before,
                after,
            );
        } else {
            empty_state_moves_nothing(
                deposit,
                side,
                cap,
                zero,
                one,
                start,
                slots,
                (made - 1) as nat,
                before,
                after,
            );
        }
    } else if slots > 0 {
        let earlier = moves_from(slots - 1, side, cap).len();
        moves_until_ends((slots - 1) as nat, side, cap);
        transitions_are_few(state_at(slots - 1), side, cap);
        assert(earlier > 0);
        fire_sets_finished_battle_down(
            deposit,
            side,
            cap,
            zero,
            one,
            start,
            (slots - 1) as nat,
            earlier,
            after,
        );
    } else {
        fired_nothing(deposit, side, cap, mass, uniform(zero), after);
    }
}

/// One side's fire at a battle that is over leaves the grid as it is.
pub proof fn fire_keeps_finished_battle<T, D: Fn(Side, T, T, KillOdds) -> T>(
    deposit: D,
    side: Side,
    cap: usize,
    zero: T,
    one: T,
    start: ForceState,
    after: Seq<T>,
)
    requires
        start.valid(),
        start.absorbing(),
        nothing_adds_nothing(deposit, zero, one),
        fired(
            deposit,
            side,
            point_mass_of(start.index(), zero, one),
            moves_of(side, cap),
            uniform(zero),
            after,
        ),
    ensures
        after == point_mass_of(start.index(), zero, one),
{
    moves_until_ends(WEIGHT_COUNT as nat, side, cap);
    fire_sets_finished_battle_down(
        deposit,
        side,
        cap,
        zero,
        one,
        start,
        WEIGHT_COUNT as nat,
        0,
        after,
    );
}

/// A round fought on a battle that is over leaves the grid as it is.
pub proof fn round_keeps_finished_battle<
    T,
    D: Fn(Side, T, T, KillOdds) -> T,
    N: Fn(WarWeights<T>) -> WarWeights<T>,
>(deposit: D, normalize: N, cap: usize, zero: T, one: T, start: ForceState, after: Seq<T>)
    requires
        start.valid(),
        start.absorbing(),
        nothing_adds_nothing(deposit, zero, one),
        normalize_keeps(normalize, point_mass_of(start.index(), zero, one)),
        round_fought(
            deposit,
            normalize,
            cap,
            zero,
            point_mass_of(start.index(), zero, one),
            after,
        ),
    ensures
        after == point_mass_of(start.index(), zero, one),
{
    let mass = point_mass_of(start.index(), zero, one);
    let (struck, rallied, answered, ended) = stages_of_round(
        deposit,
        normalize,
        cap,
        zero,
        mass,
        after,
    );
    fire_keeps_finished_battle(deposit, Side::Attackers, cap, zero, one, start, struck@);
    fire_keeps_finished_battle(deposit, Side::Defenders, cap, zero, one, start, answered@);
}

/// A battle that is over when it starts never moves: where adding nothing changes
/// nothing and `normalize` leaves the starting grid as it is, the grid after any
/// number of rounds is the starting grid, with all the weight at the starting state.
pub proof fn finished_battle_keeps_its_weights<
    T,
    D: Fn(Side, T, T, KillOdds) -> T,
    N: Fn(WarWeights<T>) -> WarWeights<T>,
>(
    deposit: D,
    normalize: N,
    cap: usize,
    zero: T,
    one: T,
    start: ForceState,
    rounds: nat,
    after: Seq<T>,
)
    requires
        start.valid(),
        start.absorbing(),
        nothing_adds_nothing(deposit, zero, one),
        normalize_keeps(normalize, point_mass_of(start.index(), zero, one)),
        battle_fought(
            deposit,
            normalize,
            cap,
            zero,
            point_mass_of(start.index(), zero, one),
            rounds,
            after,
        ),
    ensures
        after == point_mass_of(start.index(), zero, one),
    decreases rounds,
{
    if rounds > 0 {
        let mass = point_mass_of(start.index(), zero, one);
        let before = choose|before: Seq<T>|
            battle_fought(deposit, normalize, cap, zero, mass, (rounds - 1) as nat, before)
                && #[trigger] round_fought(deposit, normalize, cap, zero, before, after);
        finished_battle_keeps_its_weights(
            deposit,
            normalize,
            cap,
            zero,
            one,
            start,
            (rounds - 1) as nat,
            before,
        );
        round_keeps_finished_battle(deposit, normalize, cap, zero, one, start, after);
    }
}

} // verus!
