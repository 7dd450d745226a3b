use war_odds::battle::{KillOdds, Side};
use war_odds::field::WEIGHT_COUNT;
use war_odds::odds::WarOdds;
use war_odds::round::{fire, step_battle};
use war_odds::weights::WarWeights;

fn add(_: Side, held: u64, weight: u64, _: KillOdds) -> u64 {
    held + weight
}

// Writes down the kills of each deposit that brings weight, one decimal digit or
// two for each, the latest last.
fn log(_: Side, held: u64, weight: u64, chance: KillOdds) -> u64 {
    if weight == 0 {
        return held;
    }
    match chance {
        KillOdds::Certain => held * 100 + 99,
        KillOdds::Impossible => held * 100 + 77,
        KillOdds::Binomial { trials: _, kills } => held * 100 + 10 + kills as u64,
    }
}

fn keep(grid: WarWeights<u64>) -> WarWeights<u64> {
    grid
}

fn at(grid: &WarWeights<u64>, attackers: usize, defenders: usize) -> u64 {
    grid.0[attackers * 101 + defenders]
}

#[test]
fn fire_moves_weight_along_every_transition() {
    let weights = WarWeights::point_mass(3, 2, 0u64, 1u64);
    let next = fire(&weights, Side::Attackers, &WarOdds::default(), 0, &add);
    assert_eq!(at(&next, 3, 2), 1);
    assert_eq!(at(&next, 3, 1), 1);
    assert_eq!(at(&next, 3, 0), 2);
    assert_eq!(next.0.iter().sum::<u64>(), 4);
    let next = fire(&weights, Side::Defenders, &WarOdds::default(), 0, &add);
    assert_eq!(at(&next, 3, 2), 1);
    assert_eq!(at(&next, 2, 2), 1);
    assert_eq!(at(&next, 1, 2), 1);
    assert_eq!(next.0.iter().sum::<u64>(), 3);
}

#[test]
fn fire_deposits_by_rising_kills() {
    let weights = WarWeights::point_mass(4, 2, 0u64, 1u64);
    let next = fire(&weights, Side::Attackers, &WarOdds::default(), 0, &log);
    assert_eq!(at(&next, 4, 2), 10);
    assert_eq!(at(&next, 4, 1), 11);
    assert_eq!(at(&next, 4, 0), 121314);
    let capped = WarOdds { limited_engagements: 3, ..WarOdds::default() };
    let next = fire(&weights, Side::Attackers, &capped, 0, &log);
    assert_eq!(at(&next, 4, 2), 10);
    assert_eq!(at(&next, 4, 1), 11);
    assert_eq!(at(&next, 4, 0), 1213);
}

#[test]
fn fire_takes_the_states_in_the_order_of_the_grid() {
    let mut weights = WarWeights::filled(0u64);
    weights.0[1 * 101 + 1] = 1;
    weights.0[1 * 101 + 2] = 1;
    weights.0[1 * 101 + 0] = 1;
    let next = fire(&weights, Side::Attackers, &WarOdds::default(), 0, &log);
    // (1, 0) stays; (1, 1) sends one kill there, then (1, 2) sends nothing so far down.
    assert_eq!(at(&next, 1, 0), 9911);
    assert_eq!(at(&next, 1, 1), 1011);
    assert_eq!(at(&next, 1, 2), 10);
}

#[test]
fn fire_starts_from_a_grid_of_zero() {
    let weights = WarWeights::filled(0u64);
    let next = fire(&weights, Side::Defenders, &WarOdds::default(), 5, &add);
    assert!(next.0.iter().all(|cell| *cell == 5));
}

#[test]
fn fire_names_the_side_that_fires() {
    let side_of = |side: Side, _: u64, _: u64, _: KillOdds| match side {
        Side::Attackers => 1u64,
        Side::Defenders => 2u64,
    };
    let weights = WarWeights::filled(0u64);
    let next = fire(&weights, Side::Attackers, &WarOdds::default(), 0, &side_of);
    assert!(next.0.iter().all(|cell| *cell == 1));
    let next = fire(&weights, Side::Defenders, &WarOdds::default(), 0, &side_of);
    assert!(next.0.iter().all(|cell| *cell == 2));
}

#[test]
fn round_lets_the_attackers_fire_first() {
    let weights = WarWeights::point_mass(1, 1, 0u64, 1u64);
    let next = step_battle(&weights, &WarOdds::default(), 0, &add, &keep);
    // The attackers miss or kill the only defender; only if they miss, the defender fires.
    assert_eq!(at(&next, 1, 1), 1);
    assert_eq!(at(&next, 1, 0), 1);
    assert_eq!(at(&next, 0, 1), 1);
    assert_eq!(at(&next, 0, 0), 0);
    assert_eq!(next.0.iter().sum::<u64>(), 3);
}

#[test]
fn round_normalizes_after_each_fire() {
    let halve = |mut grid: WarWeights<u64>| {
        for slot in 0..WEIGHT_COUNT {
            grid.0[slot] /= 2;
        }
        grid
    };
    let weights = WarWeights::point_mass(2, 2, 0u64, 8u64);
    let next = step_battle(&weights, &WarOdds::default(), 0, &add, &halve);
    // 8 at (2, 2): the attackers leave 8, 8, 8 at (2, 2), (2, 1), (2, 0), halved to 4 each;
    // the defenders spread the 4 at (2, 2) and at (2, 1), all halved to 2.
    assert_eq!(at(&next, 2, 2), 2);
    assert_eq!(at(&next, 1, 2), 2);
    assert_eq!(at(&next, 0, 2), 2);
    assert_eq!(at(&next, 2, 1), 2);
    assert_eq!(at(&next, 1, 1), 2);
    assert_eq!(at(&next, 2, 0), 2);
    assert_eq!(at(&next, 0, 1), 0);
    assert_eq!(next.0.iter().sum::<u64>(), 12);
}
