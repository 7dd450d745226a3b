use vstd::prelude::*;

verus! {

/// Largest headcount either side can field.
pub const MAX_SOLDIERS: usize = 100;

/// Number of distinct headcounts of one side, zero included.
pub const HEADCOUNTS: usize = 101;

/// Number of cells in the dense grid of force states.
pub const WEIGHT_COUNT: usize = 10201;

/// Position of the state `(attackers, defenders)` in the grid.
pub open spec fn slot_of(attackers: int, defenders: int) -> int {
    attackers * HEADCOUNTS as int + defenders
}

/// The state that occupies `slot` in the grid.
pub open spec fn state_at(slot: int) -> ForceState {
    ForceState {
        attackers: (slot / HEADCOUNTS as int) as usize,
        defenders: (slot % HEADCOUNTS as int) as usize,
    }
}

/// The headcounts of both sides at one moment of the battle.
#[derive(Clone, Copy, Debug, PartialEq, Eq, Structural)]
pub struct ForceState {
    pub attackers: usize,
    pub defenders: usize,
}

impl ForceState {
    /// Both headcounts are within the supported force size.
    pub open spec fn valid(self) -> bool {
        self.attackers <= MAX_SOLDIERS && self.defenders <= MAX_SOLDIERS
    }

    /// One side has nobody left, so the battle is over.
    pub open spec fn absorbing(self) -> bool {
        self.attackers == 0 || self.defenders == 0
    }

    /// Position of this state in the grid.
    pub open spec fn index(self) -> int {
        slot_of(self.attackers as int, self.defenders as int)
    }

    /// Whether the battle is over in this state.
    pub fn is_absorbing(&self) -> (over: bool)
        ensures
            over == self.absorbing(),
    {
        self.attackers == 0 || self.defenders == 0
    }

    /// Position of this state in the grid.
    pub fn slot(&self) -> (slot: usize)
        requires
            self.valid(),
        ensures
            slot == self.index(),
            slot < WEIGHT_COUNT,
    {
        self.attackers * HEADCOUNTS + self.defenders
    }

    /// The state that occupies `slot` in the grid.
    pub fn at(slot: usize) -> (state: ForceState)
        requires
            slot < WEIGHT_COUNT,
        ensures
            state == state_at(slot as int),
            state.valid(),
            state.index() == slot,
    {
        ForceState { attackers: slot / HEADCOUNTS, defenders: slot % HEADCOUNTS }
    }
}

/// States on the field and slots of the grid correspond one to one: the slot of a
/// state holds that state, and the state at a slot has that slot.
pub proof fn states_and_slots_correspond(state: ForceState, slot: int)
    requires
        state.valid(),
        0 <= slot < WEIGHT_COUNT,
    ensures
        0 <= state.index() < WEIGHT_COUNT,
        state_at(state.index()) == state,
        state_at(slot).valid(),
        state_at(slot).index() == slot,
{
}

} // verus!
