//! A verified Monty Hall simulation engine.
//!
//! The library holds the game logic: deciding one trial's outcome for any
//! number of doors, the explicit host-reveal step of the interactive game,
//! the Monte Carlo runner, the numeric input validation, and the exact
//! percentage arithmetic behind the statistics report. The console driver
//! around it only prompts and prints.

pub mod game;
pub mod input;
pub mod stats;
pub mod utils;
