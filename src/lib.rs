//! A two-player Rock-Paper-Scissors match: who may start a game, how moves
//! are recorded, how the winner is computed, and what holds of the stored
//! state at every step.
pub mod msg;
pub mod game;
pub mod state;
pub mod registry;
pub mod contract;
pub mod laws;
