use vstd::prelude::*;
use crate::battle::{transitions_of, volley_only_takes_lives, Side};
use crate::field::ForceState;

verus! {

/// `from` can become `to` when `side` fires once.
pub open spec fn fire_leads(from: ForceState, side: Side, cap: usize, to: ForceState) -> bool {
    exists|k: int|
        0 <= k < transitions_of(from, side, cap).len() && (#[trigger] transitions_of(
            from,
            side,
            cap,
        )[k]).target == to
}

/// `from` can become `to` in one round: the attackers fire, then the defenders.
pub open spec fn round_leads(from: ForceState, cap: usize, to: ForceState) -> bool {
    exists|between: ForceState|
        fire_leads(from, Side::Attackers, cap, between) && #[trigger] fire_leads(
            between,
            Side::Defenders,
            cap,
            to,
        )
}

/// `from` can become `to` in exactly `rounds` rounds.
pub open spec fn rounds_lead(from: ForceState, cap: usize, rounds: nat, to: ForceState) -> bool
    decreases rounds,
{
    if rounds == 0 {
        to == from
    } else {
        exists|before: ForceState|
            rounds_lead(from, cap, (rounds - 1) as nat, before) && #[trigger] round_leads(
                before,
                cap,
                to,
            )
    }
}

/// What one side's fire can lead to: nothing new once the battle is over; otherwise
/// losses on the other side only.
proof fn fire_leads_downhill(from: ForceState, side: Side, cap: usize, to: ForceState)
    requires
        fire_leads(from, side, cap, to),
    ensures
        from.absorbing() ==> to == from,
        to.attackers <= from.attackers,
        to.defenders <= from.defenders,
        side.headcount(to) == side.headcount(from),
{
    let k = choose|k: int|
        0 <= k < transitions_of(from, side, cap).len() && (#[trigger] transitions_of(
            from,
            side,
            cap,
        )[k]).target == to;
    volley_only_takes_lives(from, side, cap, k as usize);
}

/// What one round can lead to: nothing new once the battle is over; otherwise fewer
/// or as many soldiers on each side, and never an empty field.
proof fn round_leads_downhill(from: ForceState, cap: usize, to: ForceState)
    requires
        round_leads(from, cap, to),
    ensures
        from.absorbing() ==> to == from,
        to.attackers <= from.attackers,
        to.defenders <= from.defenders,
        from.attackers > 0 || from.defenders > 0 ==> to.attackers > 0 || to.defenders > 0,
{
    let between = choose|between: ForceState|
        fire_leads(from, Side::Attackers, cap, between) && #[trigger] fire_leads(
            between,
            Side::Defenders,
            cap,
            to,
        );
    fire_leads_downhill(from, Side::Attackers, cap, between);
    fire_leads_downhill(between, Side::Defenders, cap, to);
}

/// A battle that is over stays as it is: from a state in which one side has nobody
/// left, any number of rounds leads to that same state only.
pub proof fn finished_battle_stays(from: ForceState, cap: usize, rounds: nat, to: ForceState)
    requires
        from.absorbing(),
        rounds_lead(from, cap, rounds, to),
    ensures
        to == from,
    decreases rounds,
{
    if rounds > 0 {
        let before = choose|before: ForceState|
            rounds_lead(from, cap, (rounds - 1) as nat, before) && #[trigger] round_leads(
                before,
                cap,
                to,
            );
        finished_battle_stays(from, cap, (rounds - 1) as nat, before);
        round_leads_downhill(before, cap, to);
    }
}

/// The dead do not return: after any number of rounds neither side is larger than it
/// was, so a state on the field leads to states on the field only.
pub proof fn losses_are_final(from: ForceState, cap: usize, rounds: nat, to: ForceState)
    requires
        rounds_lead(from, cap, rounds, to),
    ensures
        to.attackers <= from.attackers,
        to.defenders <= from.defenders,
        from.valid() ==> to.valid(),
    decreases rounds,
{
    if rounds > 0 {
        let before = choose|before: ForceState|
            rounds_lead(from, cap, (rounds - 1) as nat, before) && #[trigger] round_leads(
                before,
                cap,
                to,
            );
        losses_are_final(from, cap, (rounds - 1) as nat, before);
        round_leads_downhill(before, cap, to);
    }
}

/// Both sides never fall together: unless the field was empty from the start, it is
/// never empty, however many rounds are fought.
pub proof fn somebody_survives(from: ForceState, cap: usize, rounds: nat, to: ForceState)
    requires
        from.attackers > 0 || from.defenders > 0,
        rounds_lead(from, cap, rounds, to),
    ensures
        to.attackers > 0 || to.defenders > 0,
    decreases rounds,
{
    if rounds > 0 {
        let before = choose|before: ForceState|
            rounds_lead(from, cap, (rounds - 1) as nat, before) && #[trigger] round_leads(
                before,
                cap,
                to,
            );
        somebody_survives(from, cap, (rounds - 1) as nat, before);
        round_leads_downhill(before, cap, to);
    }
}

} // verus!
