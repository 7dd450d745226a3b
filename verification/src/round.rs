use vstd::prelude::*;
use crate::battle::{transitions, transitions_of, volley_only_takes_lives, KillOdds, Side, Transition};
use crate::field::{state_at, ForceState, WEIGHT_COUNT};
use crate::odds::WarOdds;
use crate::weights::{uniform, WarWeights};

verus! {

/// A transition together with the slot of the state that it leaves.
pub struct Move {
    pub source: int,
    pub transition: Transition,
}

/// The moves out of the state at `slot` when `side` fires, by rising number of kills.
pub open spec fn moves_from(slot: int, side: Side, cap: usize) -> Seq<Move> {
    Seq::new(
        transitions_of(state_at(slot), side, cap).len(),
        |k: int| Move { source: slot, transition: transitions_of(state_at(slot), side, cap)[k] },
    )
}

/// The moves out of the states at the first `slots` slots, slot by slot.
pub open spec fn moves_before(slots: nat, side: Side, cap: usize) -> Seq<Move>
    decreases slots,
{
    if slots == 0 {
        Seq::empty()
    } else {
        moves_before((slots - 1) as nat, side, cap) + moves_from(slots - 1, side, cap)
    }
}

/// All moves of one side's fire, in the order in which they are made.
pub open spec fn moves_of(side: Side, cap: usize) -> Seq<Move> {
    moves_before(WEIGHT_COUNT as nat, side, cap)
}

/// `after` is `before` but for the cell that `taken` leads to: that cell holds what
/// `deposit` makes of what it held, of the weight at the source of `taken`, and of
/// the chance of `taken`.
pub open spec fn deposited<T, D: Fn(Side, T, T, KillOdds) -> T>(
    deposit: D,
    side: Side,
    weights: Seq<T>,
    taken: Move,
    before: Seq<T>,
    after: Seq<T>,
) -> bool {
    let to = taken.transition.target.index();
    &&& after.len() == before.len()
    &&& call_ensures(
        deposit,
        (side, before[to], weights[taken.source], taken.transition.odds),
        after[to],
    )
    &&& forall|i: int| 0 <= i < before.len() && i != to ==> after[i] == before[i]
}

/// `after` is what the deposits of `moves`, made one after the other, leave of
/// `start`. The relation is opaque; `fired_nothing` and `fired_before_last` unfold it
/// along the moves of a fire.
#[verifier::opaque]
pub open spec fn fired<T, D: Fn(Side, T, T, KillOdds) -> T>(
    deposit: D,
    side: Side,
    weights: Seq<T>,
    moves: Seq<Move>,
    start: Seq<T>,
    after: Seq<T>,
) -> bool
    decreases moves.len(),
{
    if moves.len() == 0 {
        after == start
    } else {
        exists|before: Seq<T>|
            fired(deposit, side, weights, moves.drop_last(), start, before) && #[trigger] deposited(
                deposit,
                side,
                weights,
                moves.last(),
                before,
                after,
            )
    }
}

/// The moves that are made when `made` moves out of the state at `slot` are made,
/// after all moves out of the states before it.
pub open spec fn moves_until(slot: nat, made: nat, side: Side, cap: usize) -> Seq<Move> {
    moves_before(slot, side, cap) + moves_from(slot as int, side, cap).take(made as int)
}

/// Before a move out of the state at `slot` is made, the moves made are those out
/// of the states before it; when all are made, those out of the states up to it.
pub proof fn moves_until_ends(slot: nat, side: Side, cap: usize)
    ensures
        moves_until(slot, 0, side, cap) == moves_before(slot, side, cap),
        moves_until(slot, moves_from(slot as int, side, cap).len(), side, cap) == moves_before(
            slot + 1,
            side,
            cap,
        ),
        moves_until(slot, moves_from(slot as int, side, cap).len(), side, cap) == moves_until(
            slot + 1,
            0,
            side,
            cap,
        ),
{
    let out = moves_from(slot as int, side, cap);
    let next = moves_from((slot + 1) as int, side, cap);
    assert(moves_before(slot, side, cap) + out.take(0) =~= moves_before(slot, side, cap));
    assert(out.take(out.len() as int) =~= out);
    assert(moves_before(slot + 1, side, cap) + next.take(0) =~= moves_before(
        slot + 1,
        side,
        cap,
    ));
}

/// Before any move is made, the grid is as it was at the start.
pub proof fn fired_nothing<T, D: Fn(Side, T, T, KillOdds) -> T>(
    deposit: D,
    side: Side,
    cap: usize,
    weights: Seq<T>,
    start: Seq<T>,
    after: Seq<T>,
)
    ensures
        fired(deposit, side, weights, moves_until(0, 0, side, cap), start, after) <==> after
            == start,
{
    reveal(fired);
    assert(moves_until(0, 0, side, cap) =~= Seq::<Move>::empty());
}

/// The grid before the last of a run of deposits: the run without its last deposit
/// leads to it, and the last deposit leads from it to the grid after the run.
pub proof fn fired_before_last<T, D: Fn(Side, T, T, KillOdds) -> T>(
    deposit: D,
    side: Side,
    cap: usize,
    weights: Seq<T>,
    slot: nat,
    made: nat,
    start: Seq<T>,
    after: Seq<T>,
) -> (before: Seq<T>)
    requires
        0 < made <= moves_from(slot as int, side, cap).len(),
        fired(deposit, side, weights, moves_until(slot, made, side, cap), start, after),
    ensures
        fired(
            deposit,
            side,
            weights,
            moves_until(slot, (made - 1) as nat, side, cap),
            start,
            before,
        ),
        deposited(
            deposit,
            side,
            weights,
            moves_from(slot as int, side, cap)[made - 1],
            before,
            after,
        ),
{
    reveal(fired);
    let moves = moves_until(slot, made, side, cap);
    assert(moves.drop_last() =~= moves_until(slot, (made - 1) as nat, side, cap));
    assert(moves.last() == moves_from(slot as int, side, cap)[made - 1]);
    choose|before: Seq<T>|
        fired(deposit, side, weights, moves.drop_last(), start, before) && #[trigger] deposited(
            deposit,
            side,
            weights,
            moves.last(),
            before,
            after,
        )
}

/// One more deposit after a run of deposits is a run of deposits.
proof fn fired_once_more<T, D: Fn(Side, T, T, KillOdds) -> T>(
    deposit: D,
    side: Side,
    cap: usize,
    weights: Seq<T>,
    slot: nat,
    made: nat,
    start: Seq<T>,
    before: Seq<T>,
    after: Seq<T>,
)
    requires
        made < moves_from(slot as int, side, cap).len(),
        fired(deposit, side, weights, moves_until(slot, made, side, cap), start, before),
        deposited(
            deposit,
            side,
            weights,
            moves_from(slot as int, side, cap)[made as int],
            before,
            after,
        ),
    ensures
        fired(deposit, side, weights, moves_until(slot, made + 1, side, cap), start, after),
{
    reveal(fired);
    let longer = moves_until(slot, made + 1, side, cap);
    assert(longer.drop_last() =~= moves_until(slot, made, side, cap));
    assert(longer.last() == moves_from(slot as int, side, cap)[made as int]);
    assert(fired(deposit, side, weights, longer.drop_last(), start, before) && deposited(
        deposit,
        side,
        weights,
        longer.last(),
        before,
        after,
    ));
}

/// Lets `side` fire: starting from a grid of `zero`, takes every state in the order
/// of the grid and makes a deposit for each transition out of it.
pub fn fire<T: Copy, D: Fn(Side, T, T, KillOdds) -> T>(
    weights: &WarWeights<T>,
    side: Side,
    odds: &WarOdds,
    zero: T,
    deposit: &D,
) -> (next: WarWeights<T>)
    requires
        forall|to: Side, held: T, weight: T, chance: KillOdds|
            call_requires(*deposit, (to, held, weight, chance)),
    ensures
        fired(
            *deposit,
            side,
            weights@,
            moves_of(side, odds.limited_engagements),
            uniform(zero),
            next@,
        ),
{
    let mut next = WarWeights::filled(zero);
    let ghost start = next@;
    let ghost cap = odds.limited_engagements;
    let mut slot: usize = 0;
    proof {
        fired_nothing(*deposit, side, cap, weights@, start, start);
        moves_until_ends(0, side, cap);
    }
    while slot < WEIGHT_COUNT
        invariant
            slot <= WEIGHT_COUNT,
            cap == odds.limited_engagements,
            next@.len() == WEIGHT_COUNT,
            forall|to: Side, held: T, weight: T, chance: KillOdds|
                call_requires(*deposit, (to, held, weight, chance)),
            fired(*deposit, side, weights@, moves_before(slot as nat, side, cap), start, next@),
        decreases WEIGHT_COUNT - slot,
    {
        let weight = weights.0[slot];
        let state = ForceState::at(slot);
        let all = transitions(state, side, odds);
        let mut made: usize = 0;
        proof {
            moves_until_ends(slot as nat, side, cap);
        }
        while made < all.len()
            invariant
                slot < WEIGHT_COUNT,
                made <= all.len(),
                state == state_at(slot as int),
                state.valid(),
                weight == weights@[slot as int],
                all@ == transitions_of(state, side, cap),
                next@.len() == WEIGHT_COUNT,
                forall|to: Side, held: T, weight: T, chance: KillOdds|
                    call_requires(*deposit, (to, held, weight, chance)),
                fired(
                    *deposit,
                    side,
                    weights@,
                    moves_until(slot as nat, made as nat, side, cap),
                    start,
                    next@,
                ),
            decreases all.len() - made,
        {
            let transition = all[made];
            proof {
                volley_only_takes_lives(state, side, cap, made);
            }
            let to: usize = transition.target.slot();
            let ghost before = next@;
            let raised = deposit(side, next.0[to], weight, transition.odds);
            next.0[to] = raised;
            proof {
                assert(moves_from(slot as int, side, cap)[made as int] == Move {
                    source: slot as int,
                    transition,
                });
                assert(deposited(
                    *deposit,
                    side,
                    weights@,
                    moves_from(slot as int, side, cap)[made as int],
                    before,
                    next@,
                ));
                fired_once_more(
                    *deposit,
                    side,
                    cap,
                    weights@,
                    slot as nat,
                    made as nat,
                    start,
                    before,
                    next@,
                );
            }
            made += 1;
        }
        proof {
            moves_until_ends(slot as nat, side, cap);
        }
        slot += 1;
    }
    next
}

/// `after` is a grid that one round can make of `before`: the attackers fire, the
/// grid is normalized, the defenders fire at what is left, and the grid is normalized
/// again.
pub open spec fn round_fought<
    T,
    D: Fn(Side, T, T, KillOdds) -> T,
    N: Fn(WarWeights<T>) -> WarWeights<T>,
>(deposit: D, normalize: N, cap: usize, zero: T, before: Seq<T>, after: Seq<T>) -> bool {
    exists|struck: WarWeights<T>, rallied: WarWeights<T>, answered: WarWeights<T>, ended: WarWeights<T>|
        #![trigger call_ensures(normalize, (struck,), rallied), call_ensures(normalize, (answered,), ended)]
        {
            &&& fired(
                deposit,
                Side::Attackers,
                before,
                moves_of(Side::Attackers, cap),
                uniform(zero),
                struck@,
            )
            &&& call_ensures(normalize, (struck,), rallied)
            &&& fired(
                deposit,
                Side::Defenders,
                rallied@,
                moves_of(Side::Defenders, cap),
                uniform(zero),
                answered@,
            )
            &&& call_ensures(normalize, (answered,), ended)
            &&& ended@ == after
        }
}

/// The grids that a round goes through: after the attackers' fire, after its
/// normalization, after the defenders' fire, and after its normalization.
pub proof fn stages_of_round<
    T,
    D: Fn(Side, T, T, KillOdds) -> T,
    N: Fn(WarWeights<T>) -> WarWeights<T>,
>(
    deposit: D,
    normalize: N,
    cap: usize,
    zero: T,
    before: Seq<T>,
    after: Seq<T>,
) -> (stages: (WarWeights<T>, WarWeights<T>, WarWeights<T>, WarWeights<T>))
    requires
        round_fought(deposit, normalize, cap, zero, before, after),
    ensures
        fired(
            deposit,
            Side::Attackers,
            before,
            moves_of(Side::Attackers, cap),
            uniform(zero),
            stages.0@,
        ),
        call_ensures(normalize, (stages.0,), stages.1),
        fired(
            deposit,
            Side::Defenders,
            stages.1@,
            moves_of(Side::Defenders, cap),
            uniform(zero),
            stages.2@,
        ),
        call_ensures(normalize, (stages.2,), stages.3),
        stages.3@ == after,
{
    let (struck, rallied, answered, ended) = choose|
        struck: WarWeights<T>,
        rallied: WarWeights<T>,
        answered: WarWeights<T>,
        ended: WarWeights<T>,
    |
        #![trigger call_ensures(normalize, (struck,), rallied), call_ensures(normalize, (answered,), ended)]
        {
            &&& fired(
                deposit,
                Side::Attackers,
                before,
                moves_of(Side::Attackers, cap),
                uniform(zero),
                struck@,
            )
            &&& call_ensures(normalize, (struck,), rallied)
            &&& fired(
                deposit,
                Side::Defenders,
                rallied@,
                moves_of(Side::Defenders, cap),
                uniform(zero),
                answered@,
            )
            &&& call_ensures(normalize, (answered,), ended)
            &&& ended@ == after
        };
    (struck, rallied, answered, ended)
}

/// Fights one round: the attackers fire and the grid is normalized, then the
/// defenders fire at what is left and the grid is normalized again. `deposit` and
/// `normalize` do the arithmetic on the weights.
pub fn step_battle<T: Copy, D: Fn(Side, T, T, KillOdds) -> T, N: Fn(WarWeights<T>) -> WarWeights<T>>(
    weights: &WarWeights<T>,
    odds: &WarOdds,
    zero: T,
    deposit: &D,
    normalize: &N,
) -> (new_weights: WarWeights<T>)
    requires
        forall|to: Side, held: T, weight: T, chance: KillOdds|
            call_requires(*deposit, (to, held, weight, chance)),
        forall|grid: WarWeights<T>| call_requires(*normalize, (grid,)),
    ensures
        round_fought(*deposit, *normalize, odds.limited_engagements, zero, weights@, new_weights@),
{
    let struck = fire(weights, Side::Attackers, odds, zero, deposit);
    let rallied = normalize(struck);
    let answered = fire(&rallied, Side::Defenders, odds, zero, deposit);
    let ended = normalize(answered);
    assert(call_ensures(*normalize, (struck,), rallied) && call_ensures(
        *normalize,
        (answered,),
        ended,
    ));
    ended
}

} // verus!
