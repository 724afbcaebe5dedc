//! Randomness, as the game consumes it.
//!
//! The game draws no random numbers itself. Whoever drives it obtains them
//! and passes them in, so that every outcome is a function of the state, the
//! request and the numbers drawn. How many numbers a request consumes is for
//! the game to say: see [`coin_needed`](crate::engine::coin_needed) and
//! [`draws_needed`](crate::engine::draws_needed).

use vstd::prelude::*;
use crate::io::DifficultyLevel;

verus! {

/// The random numbers one request may consume.
///
/// `coin` decides who opens a new game. `first` and `second` feed the
/// program's choice of how many pebbles to take. A number that the request
/// does not consume may hold any value.
#[derive(Clone, Copy, Debug, PartialEq, Eq, Structural)]
pub struct Draws {
    pub coin: u32,
    pub first: u32,
    pub second: u32,
}

/// The number whose little-endian representation is `b0, b1, b2, b3`.
pub open spec fn le_value(b0: u8, b1: u8, b2: u8, b3: u8) -> int {
    b0 + b1 * 0x100 + b2 * 0x1_0000 + b3 * 0x100_0000
}

/// Turns a random hash into a random number: the first four bytes of the
/// hash, read as a little-endian integer.
pub fn get_random_u32(hash: &[u8; 32]) -> (value: u32)
    ensures
        value == le_value(hash[0], hash[1], hash[2], hash[3]),
{
    let b0: u32 = hash[0] as u32;
    let b1: u32 = hash[1] as u32;
    let b2: u32 = hash[2] as u32;
    let b3: u32 = hash[3] as u32;
    b0 + b1 * 0x100 + b2 * 0x1_0000 + b3 * 0x100_0000
}

/// How many pebbles the program wants to take when a turn may take up to
/// `max_per_turn`: one more than a draw reduced modulo `max_per_turn`.
///
/// The easy policy reads the first draw. The hard policy draws, always
/// discards what it drew, and reads the second draw instead.
pub open spec fn turn_size(difficulty: DifficultyLevel, max_per_turn: u32, draws: Draws) -> int {
    match difficulty {
        DifficultyLevel::Easy => draws.first as int % max_per_turn as int + 1,
        DifficultyLevel::Hard => draws.second as int % max_per_turn as int + 1,
    }
}

/// How many draws the choice of a turn consumes: none where a turn may take
/// one pebble only, one under the easy policy, two under the hard policy,
/// which discards the first.
pub open spec fn choice_draws(difficulty: DifficultyLevel, max_per_turn: u32) -> nat {
    if max_per_turn == 1 {
        0
    } else {
        match difficulty {
            DifficultyLevel::Easy => 1,
            DifficultyLevel::Hard => 2,
        }
    }
}

/// Chooses the size of the program's next turn.
///
/// A turn of zero pebbles at most leaves nothing to choose from, so the
/// maximum must be positive.
pub fn program_turn_gen(difficulty: DifficultyLevel, max_per_turn: u32, draws: Draws) -> (count: u32)
    requires
        max_per_turn >= 1,
    ensures
        count == turn_size(difficulty, max_per_turn, draws),
        1 <= count <= max_per_turn,
{
    match difficulty {
        DifficultyLevel::Easy => draws.first % max_per_turn + 1,
        DifficultyLevel::Hard => {
            let mut count: u32 = draws.first % max_per_turn;
            if count / 2 < max_per_turn {
                count = draws.second % max_per_turn;
            }
            count + 1
        },
    }
}

} // verus!
