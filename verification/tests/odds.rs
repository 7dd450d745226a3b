use war_odds::odds::{Adjustment, Condition, Effect, Modifier, WarOdds};

fn raises(modifier: Modifier) -> Adjustment {
    Adjustment { modifier, effect: Effect::Raises }
}

fn lowers(modifier: Modifier) -> Adjustment {
    Adjustment { modifier, effect: Effect::Lowers }
}

fn nothing_set() -> WarOdds {
    let mut odds = WarOdds::default();
    odds.toggle(Condition::AttackerPresent);
    odds.toggle(Condition::AttackerBlessed);
    odds.toggle(Condition::DefenderBlessed);
    odds
}

fn everything_set() -> WarOdds {
    WarOdds {
        attacker_present: true,
        defender_present: true,
        attacker_blessed: true,
        defender_blessed: true,
        defender_fortified: true,
        attacker_claimed: true,
        defender_claimed: true,
        attacker_city: true,
        defender_city: true,
        attacker_archers: true,
        defender_archers: true,
        attacker_elites: true,
        defender_elites: true,
        round_count: 20,
        limited_engagements: 0,
    }
}

#[test]
fn battle_starts_with_one_commander_and_two_blessings() {
    let odds = WarOdds::default();
    assert!(odds.attacker_present);
    assert!(!odds.defender_present);
    assert!(odds.attacker_blessed);
    assert!(odds.defender_blessed);
    assert!(!odds.defender_fortified);
    assert!(!odds.attacker_claimed);
    assert!(!odds.defender_claimed);
    assert!(!odds.attacker_city);
    assert!(!odds.defender_city);
    assert!(!odds.attacker_archers);
    assert!(!odds.defender_archers);
    assert!(!odds.attacker_elites);
    assert!(!odds.defender_elites);
    assert_eq!(odds.round_count, 20);
    assert_eq!(odds.limited_engagements, 0);
}

#[test]
fn usual_adjustments() {
    let odds = WarOdds::default();
    assert_eq!(odds.attacker_adjustments(), vec![raises(Modifier::Commander), raises(Modifier::Blessing)]);
    assert_eq!(odds.defender_adjustments(), vec![raises(Modifier::Blessing)]);
}

#[test]
fn no_condition_no_adjustment() {
    let odds = nothing_set();
    assert_eq!(odds.attacker_adjustments(), vec![]);
    assert_eq!(odds.defender_adjustments(), vec![]);
}

#[test]
fn all_adjustments_in_order() {
    let odds = everything_set();
    assert_eq!(
        odds.attacker_adjustments(),
        vec![
            raises(Modifier::Commander),
            raises(Modifier::Blessing),
            lowers(Modifier::Claim),
            lowers(Modifier::Fortification),
            lowers(Modifier::City),
            raises(Modifier::ArcherDefense),
            lowers(Modifier::ArcherAttack),
            raises(Modifier::EliteAttack),
            lowers(Modifier::EliteDefense),
        ]
    );
    assert_eq!(
        odds.defender_adjustments(),
        vec![
            raises(Modifier::Commander),
            raises(Modifier::Blessing),
            lowers(Modifier::Claim),
            lowers(Modifier::City),
            raises(Modifier::ArcherDefense),
            lowers(Modifier::ArcherAttack),
            raises(Modifier::EliteAttack),
            lowers(Modifier::EliteDefense),
        ]
    );
}

#[test]
fn fortification_counts_only_under_a_commander() {
    let mut odds = nothing_set();
    odds.toggle(Condition::DefenderFortified);
    assert_eq!(odds.attacker_adjustments(), vec![]);
    odds.toggle(Condition::DefenderPresent);
    assert_eq!(odds.attacker_adjustments(), vec![lowers(Modifier::Fortification)]);
    assert_eq!(odds.defender_adjustments(), vec![raises(Modifier::Commander)]);
    odds.toggle(Condition::DefenderFortified);
    assert_eq!(odds.attacker_adjustments(), vec![]);
}

#[test]
fn each_condition_shifts_the_rates_it_is_meant_to() {
    let cases = [
        (Condition::AttackerPresent, vec![raises(Modifier::Commander)], vec![]),
        (Condition::DefenderPresent, vec![], vec![raises(Modifier::Commander)]),
        (Condition::AttackerBlessed, vec![raises(Modifier::Blessing)], vec![]),
        (Condition::DefenderBlessed, vec![], vec![raises(Modifier::Blessing)]),
        (Condition::DefenderFortified, vec![], vec![]),
        (Condition::AttackerClaimed, vec![], vec![lowers(Modifier::Claim)]),
        (Condition::DefenderClaimed, vec![lowers(Modifier::Claim)], vec![]),
        (Condition::AttackerCity, vec![], vec![lowers(Modifier::City)]),
        (Condition::DefenderCity, vec![lowers(Modifier::City)], vec![]),
        (
            Condition::AttackerArchers,
            vec![lowers(Modifier::ArcherAttack)],
            vec![raises(Modifier::ArcherDefense)],
        ),
        (
            Condition::DefenderArchers,
            vec![raises(Modifier::ArcherDefense)],
            vec![lowers(Modifier::ArcherAttack)],
        ),
        (
            Condition::AttackerElites,
            vec![raises(Modifier::EliteAttack)],
            vec![lowers(Modifier::EliteDefense)],
        ),
        (
            Condition::DefenderElites,
            vec![lowers(Modifier::EliteDefense)],
            vec![raises(Modifier::EliteAttack)],
        ),
    ];
    for (condition, attacker, defender) in cases {
        let mut odds = nothing_set();
        odds.toggle(condition);
        assert_eq!(odds.attacker_adjustments(), attacker);
        assert_eq!(odds.defender_adjustments(), defender);
    }
}

#[test]
fn defenders_follow_the_attackers_rules_from_the_other_side() {
    let odds = everything_set();
    let mirrored = WarOdds {
        attacker_present: odds.defender_present,
        defender_present: odds.attacker_present,
        attacker_blessed: odds.defender_blessed,
        defender_blessed: odds.attacker_blessed,
        defender_fortified: false,
        attacker_claimed: odds.defender_claimed,
        defender_claimed: odds.attacker_claimed,
        attacker_city: odds.defender_city,
        defender_city: odds.attacker_city,
        attacker_archers: odds.defender_archers,
        defender_archers: odds.attacker_archers,
        attacker_elites: odds.defender_elites,
        defender_elites: odds.attacker_elites,
        ..odds
    };
    assert_eq!(odds.defender_adjustments(), mirrored.attacker_adjustments());
    let mut lopsided = WarOdds::default();
    lopsided.toggle(Condition::AttackerCity);
    lopsided.toggle(Condition::DefenderElites);
    let mirrored = WarOdds {
        attacker_present: false,
        defender_present: true,
        attacker_city: false,
        defender_city: true,
        attacker_elites: true,
        defender_elites: false,
        ..lopsided
    };
    assert_eq!(lopsided.defender_adjustments(), mirrored.attacker_adjustments());
}

#[test]
fn toggle_switches_one_condition_on_and_off() {
    let mut odds = WarOdds::default();
    odds.toggle(Condition::DefenderCity);
    assert_eq!(odds, WarOdds { defender_city: true, ..WarOdds::default() });
    odds.toggle(Condition::DefenderCity);
    assert_eq!(odds, WarOdds::default());
    odds.toggle(Condition::AttackerPresent);
    assert_eq!(odds, WarOdds { attacker_present: false, ..WarOdds::default() });
}

#[test]
fn archers_and_elites_exclude_each_other() {
    let mut odds = WarOdds::default();
    odds.toggle(Condition::AttackerArchers);
    assert!(odds.attacker_archers && !odds.attacker_elites);
    odds.toggle(Condition::AttackerElites);
    assert!(!odds.attacker_archers && odds.attacker_elites);
    odds.toggle(Condition::AttackerArchers);
    assert!(odds.attacker_archers && !odds.attacker_elites);
    odds.toggle(Condition::AttackerArchers);
    assert!(!odds.attacker_archers && !odds.attacker_elites);

    odds.toggle(Condition::DefenderElites);
    assert!(!odds.defender_archers && odds.defender_elites);
    odds.toggle(Condition::DefenderArchers);
    assert!(odds.defender_archers && !odds.defender_elites);
    odds.toggle(Condition::DefenderElites);
    assert!(!odds.defender_archers && odds.defender_elites);
    odds.toggle(Condition::DefenderElites);
    assert!(!odds.defender_archers && !odds.defender_elites);
    assert!(!odds.attacker_archers && !odds.attacker_elites);
}

#[test]
fn toggle_leaves_rounds_and_cap_alone() {
    let mut odds = WarOdds { round_count: 3, limited_engagements: 8, ..WarOdds::default() };
    for condition in [
        Condition::AttackerPresent,
        Condition::DefenderPresent,
        Condition::AttackerBlessed,
        Condition::DefenderBlessed,
        Condition::DefenderFortified,
        Condition::AttackerClaimed,
        Condition::DefenderClaimed,
        Condition::AttackerCity,
        Condition::DefenderCity,
        Condition::AttackerArchers,
        Condition::DefenderArchers,
        Condition::AttackerElites,
        Condition::DefenderElites,
    ] {
        odds.toggle(condition);
        assert_eq!(odds.round_count, 3);
        assert_eq!(odds.limited_engagements, 8);
    }
}

#[test]
fn cap_limits_who_fights() {
    let mut odds = WarOdds::default();
    assert_eq!(odds.engaged(0), 0);
    assert_eq!(odds.engaged(57), 57);
    assert_eq!(odds.engaged(100), 100);
    odds.limited_engagements = 30;
    assert_eq!(odds.engaged(0), 0);
    assert_eq!(odds.engaged(29), 29);
    assert_eq!(odds.engaged(30), 30);
    assert_eq!(odds.engaged(31), 30);
    assert_eq!(odds.engaged(100), 30);
}
