use war_odds::field::{ForceState, HEADCOUNTS, MAX_SOLDIERS, WEIGHT_COUNT};
use war_odds::weights::WarWeights;

#[test]
fn grid_has_one_cell_for_each_pair_of_headcounts() {
    assert_eq!(MAX_SOLDIERS, 100);
    assert_eq!(HEADCOUNTS, MAX_SOLDIERS + 1);
    assert_eq!(WEIGHT_COUNT, (MAX_SOLDIERS + 1) * (MAX_SOLDIERS + 1));
}

#[test]
fn slot_counts_attackers_by_rows_and_defenders_by_columns() {
    assert_eq!(WarWeights::<u8>::slot_for(0, 0), 0);
    assert_eq!(WarWeights::<u8>::slot_for(0, 1), 1);
    assert_eq!(WarWeights::<u8>::slot_for(0, 100), 100);
    assert_eq!(WarWeights::<u8>::slot_for(1, 0), 101);
    assert_eq!(WarWeights::<u8>::slot_for(90, 86), 9176);
    assert_eq!(WarWeights::<u8>::slot_for(100, 100), 10200);
}

#[test]
fn state_and_slot_agree() {
    assert_eq!(ForceState { attackers: 90, defenders: 86 }.slot(), 9176);
    assert_eq!(ForceState { attackers: 0, defenders: 0 }.slot(), 0);
    assert_eq!(ForceState { attackers: 100, defenders: 100 }.slot(), WEIGHT_COUNT - 1);
    for attackers in 0..=MAX_SOLDIERS {
        for defenders in 0..=MAX_SOLDIERS {
            let state = ForceState { attackers, defenders };
            assert_eq!(state.slot(), WarWeights::<u8>::slot_for(attackers, defenders));
        }
    }
}

#[test]
fn every_slot_holds_the_state_it_is_the_slot_of() {
    assert_eq!(ForceState::at(0), ForceState { attackers: 0, defenders: 0 });
    assert_eq!(ForceState::at(100), ForceState { attackers: 0, defenders: 100 });
    assert_eq!(ForceState::at(101), ForceState { attackers: 1, defenders: 0 });
    assert_eq!(ForceState::at(9176), ForceState { attackers: 90, defenders: 86 });
    assert_eq!(ForceState::at(10200), ForceState { attackers: 100, defenders: 100 });
    for slot in 0..WEIGHT_COUNT {
        assert_eq!(ForceState::at(slot).slot(), slot);
    }
}

#[test]
fn battle_is_over_when_one_side_is_gone() {
    assert!(ForceState { attackers: 0, defenders: 0 }.is_absorbing());
    assert!(ForceState { attackers: 0, defenders: 17 }.is_absorbing());
    assert!(ForceState { attackers: 17, defenders: 0 }.is_absorbing());
    assert!(!ForceState { attackers: 1, defenders: 1 }.is_absorbing());
    assert!(!ForceState { attackers: 100, defenders: 100 }.is_absorbing());
}
