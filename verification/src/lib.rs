//! A two-player pebble removal game.
//!
//! A user and the program alternately take between one and a configured
//! maximum of pebbles from a shared pile; whoever takes the last pebble wins.
//! The library is the game's state machine. It never talks to the outside
//! world: requests arrive as values of the types in [`io`], the randomness a
//! request may consume arrives as plain numbers, and every entry point hands
//! back the event to publish.

pub mod engine;
pub mod game;
pub mod io;
pub mod laws;
pub mod random;

pub use crate::engine::{coin_needed, draws_needed, handle, init, state};
pub use crate::game::PebbleGame;
pub use crate::io::{
    DifficultyLevel, GameError, GameState, PebblesAction, PebblesEvent, PebblesInit, Player,
};
pub use crate::random::{get_random_u32, program_turn_gen, Draws};
