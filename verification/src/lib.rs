//! A falling-sand cellular automaton: a fixed grid of cells, each holding a
//! material, a temperature and an ignition latch, advanced one tick at a time.
//!
//! Temperatures are fixed-point integers, [`material::HEAT_UNIT`] steps to the
//! degree. Chance enters through per-mille rolls, coin flips and lifetime
//! decrements drawn from a `fastrand::Rng` that the grid owns.

pub mod material;
pub mod cell;
pub mod dice;
pub mod rules;
pub mod model;
pub mod picture;
pub mod grid;
pub mod laws;
