//! The odds of a battle between two forces, round by round.
//!
//! A battle is fought between attackers and defenders of up to
//! [`field::MAX_SOLDIERS`] soldiers each. In every round the attackers fire
//! first and the defenders fire back with those who are left; every soldier who
//! fights kills with the same chance, independently of the others. The library
//! follows the weight of every pair of headcounts through a dense grid
//! ([`weights::WarWeights`]): [`round::step_battle`] fights one round,
//! [`driver::calculate_weights`] a whole battle.
//!
//! The library decides where weight goes: which states are left
//! ([`battle::transitions`]), in which order, and which adjustments shift a side's
//! kill rate ([`odds::WarOdds`]). The arithmetic on the weights is the caller's: it
//! is handed in as two functions, one that makes a deposit and one that normalizes a
//! grid, and every contract says what the library does with whatever they return.
//! What holds of a battle under plain assumptions on that arithmetic
//! ([`arithmetic`]) is proved in [`determined`], [`settled`] and [`support`]; what
//! holds of the states alone, in [`course`]. [`curve`] picks the part of an outcome
//! curve that is worth showing.

pub mod arithmetic;
pub mod battle;
pub mod course;
pub mod curve;
pub mod determined;
pub mod driver;
pub mod field;
pub mod odds;
pub mod round;
pub mod settled;
pub mod support;
pub mod weights;
