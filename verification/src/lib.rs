//! Core simulation of a discrete-grid pursuit game: a player-controlled
//! forklift moves on a fixed cell grid while autonomous managers chase it
//! every tick; contact marks a manager dead, and dead managers are removed
//! from the board after a fixed delay.
//!
//! This crate holds the verified simulation layer only: bounded movement,
//! the pursuit policy with its randomized tie-break and occupancy check,
//! kill detection, and the death/despawn lifecycle. Randomness and the
//! clock are injected as plain values, so every rule is a pure function
//! of its arguments; rendering and input polling live outside this crate.

pub mod constants;
pub mod game;
pub mod schema;
