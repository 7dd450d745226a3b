use vstd::prelude::*;
use crate::field::ForceState;
use crate::odds::{engaged_of, WarOdds};

verus! {

/// Largest number of kills of one side in one round that is reckoned with.
pub const MAX_KILLS: usize = 22;

/// The side that fires.
#[derive(Clone, Copy, Debug, PartialEq, Eq, Structural)]
pub enum Side {
    Attackers,
    Defenders,
}

/// With what chance a transition is taken. `Binomial` stands for the chance of
/// exactly `kills` hits in `trials` independent shots at the firing side's kill rate.
#[derive(Clone, Copy, Debug, PartialEq, Eq, Structural)]
pub enum KillOdds {
    /// The battle is over, and the weight stays where it is.
    Certain,
    /// More kills than shots.
    Impossible,
    /// Exactly `kills` hits in `trials` shots.
    Binomial { trials: usize, kills: usize },
}

/// Where the weight of a state goes when one side fires, and with what chance.
#[derive(Clone, Copy, Debug, PartialEq, Eq, Structural)]
pub struct Transition {
    pub target: ForceState,
    pub odds: KillOdds,
}

impl Side {
    /// The headcount of this side in `state`.
    pub open spec fn headcount(self, state: ForceState) -> usize {
        match self {
            Side::Attackers => state.attackers,
            Side::Defenders => state.defenders,
        }
    }

    /// `state` after this side has killed `kills` of the other side, or all of them
    /// if there are fewer.
    pub open spec fn strikes(self, state: ForceState, kills: usize) -> ForceState {
        match self {
            Side::Attackers => ForceState {
                attackers: state.attackers,
                defenders: if state.defenders > kills {
                    (state.defenders - kills) as usize
                } else {
                    0
                },
            },
            Side::Defenders => ForceState {
                attackers: if state.attackers > kills {
                    (state.attackers - kills) as usize
                } else {
                    0
                },
                defenders: state.defenders,
            },
        }
    }
}

/// The largest number of kills that is reckoned with when `fighting` soldiers fire.
pub open spec fn kill_limit_of(fighting: int) -> int {
    if fighting < MAX_KILLS {
        fighting
    } else {
        MAX_KILLS as int
    }
}

/// The chance that a side of `headcount`, of whom at most `cap` fight if `cap` is not
/// zero, kills exactly `kills`.
pub open spec fn kill_odds_of(headcount: usize, cap: usize, kills: usize) -> KillOdds {
    let trials = engaged_of(headcount as int, cap as int) as usize;
    if kills > trials {
        KillOdds::Impossible
    } else {
        KillOdds::Binomial { trials, kills }
    }
}

/// The transition out of `state` in which `side` kills `kills`. A state in which the
/// battle is over leads to itself, whatever `kills` is.
pub open spec fn volley_of(state: ForceState, side: Side, cap: usize, kills: usize) -> Transition {
    if state.absorbing() {
        Transition { target: state, odds: KillOdds::Certain }
    } else {
        Transition {
            target: side.strikes(state, kills),
            odds: kill_odds_of(side.headcount(state), cap, kills),
        }
    }
}

/// All transitions out of `state` when `side` fires: the one that stays if the battle
/// is over, else one for each number of kills from zero up to the limit for those of
/// `side` who fight.
pub open spec fn transitions_of(state: ForceState, side: Side, cap: usize) -> Seq<Transition> {
    if state.absorbing() {
        seq![volley_of(state, side, cap, 0)]
    } else {
        Seq::new(
            (kill_limit_of(engaged_of(side.headcount(state) as int, cap as int)) + 1) as nat,
            |k: int| volley_of(state, side, cap, k as usize),
        )
    }
}

/// The transition out of `state` in which `side` kills `kills`.
pub fn volley(
    state: ForceState,
    side: Side,
    odds: &WarOdds,
    kills: usize,
) -> (transition: Transition)
    ensures
        transition == volley_of(state, side, odds.limited_engagements, kills),
{
    if state.is_absorbing() {
        return Transition { target: state, odds: KillOdds::Certain };
    }
    let (firing, target) = match side {
        Side::Attackers => (
            state.attackers,
            ForceState {
                attackers: state.attackers,
                defenders: if state.defenders > kills {
                    state.defenders - kills
                } else {
                    0
                },
            },
        ),
        Side::Defenders => (
            state.defenders,
            ForceState {
                attackers: if state.attackers > kills {
                    state.attackers - kills
                } else {
                    0
                },
                defenders: state.defenders,
            },
        ),
    };
    let trials: usize = odds.engaged(firing);
    let chance = if kills > trials {
        KillOdds::Impossible
    } else {
        KillOdds::Binomial { trials, kills }
    };
    Transition { target, odds: chance }
}

/// All transitions out of `state` when `side` fires, by rising number of kills.
pub fn transitions(state: ForceState, side: Side, odds: &WarOdds) -> (all: Vec<Transition>)
    ensures
        all@ == transitions_of(state, side, odds.limited_engagements),
{
    let mut all: Vec<Transition> = Vec::new();
    if state.is_absorbing() {
        all.push(volley(state, side, odds, 0));
        return all;
    }
    let fighting: usize = odds.engaged(
        match side {
            Side::Attackers => state.attackers,
            Side::Defenders => state.defenders,
        },
    );
    let limit: usize = if fighting < MAX_KILLS {
        fighting
    } else {
        MAX_KILLS
    };
    let mut kills: usize = 0;
    while kills <= limit
        invariant
            limit == kill_limit_of(
                engaged_of(side.headcount(state) as int, odds.limited_engagements as int),
            ),
            kills <= limit + 1,
            all@.len() == kills,
            forall|k: int|
                0 <= k < kills ==> all@[k] == volley_of(
                    state,
                    side,
                    odds.limited_engagements,
                    k as usize,
                ),
        decreases limit + 1 - kills,
    {
        all.push(volley(state, side, odds, kills));
        kills += 1;
    }
    all
}

/// Firing never adds a soldier, leaves the firing side as it is, and keeps a state
/// that is on the field on the field.
pub proof fn volley_only_takes_lives(state: ForceState, side: Side, cap: usize, kills: usize)
    ensures
        volley_of(state, side, cap, kills).target.attackers <= state.attackers,
        volley_of(state, side, cap, kills).target.defenders <= state.defenders,
        side.headcount(volley_of(state, side, cap, kills).target) == side.headcount(state),
        state.valid() ==> volley_of(state, side, cap, kills).target.valid(),
{
}

/// There is a transition out of every state, and there are no more than
/// `MAX_KILLS + 1`.
pub proof fn transitions_are_few(state: ForceState, side: Side, cap: usize)
    ensures
        1 <= transitions_of(state, side, cap).len() <= MAX_KILLS + 1,
{
}

/// The transitions out of a state are sound: the one at `k` is the volley of `k`
/// kills, none is impossible, and in each that is not certain the shots are those of
/// the soldiers who fight, no more than the side has, and the kills are no more than
/// the shots.
pub proof fn transitions_are_sound(state: ForceState, side: Side, cap: usize, k: int)
    requires
        0 <= k < transitions_of(state, side, cap).len(),
    ensures
        transitions_of(state, side, cap)[k] == volley_of(state, side, cap, k as usize),
        transitions_of(state, side, cap)[k].odds != KillOdds::Impossible,
        (transitions_of(state, side, cap)[k].odds matches KillOdds::Binomial { trials, kills }
            ==> kills == k && kills <= trials <= side.headcount(state) && trials == engaged_of(
            side.headcount(state) as int,
            cap as int,
        )),
{
}

} // verus!
