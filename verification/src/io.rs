//! The values exchanged with a game: its configuration, the actions a user
//! may request, the events it answers with and the published state.

use vstd::prelude::*;

verus! {

/// Policy by which the program chooses how many pebbles it takes.
#[derive(Clone, Copy, Debug, PartialEq, Eq, Structural)]
pub enum DifficultyLevel {
    Easy,
    Hard,
}

impl Default for DifficultyLevel {
    fn default() -> (level: Self)
        ensures
            level == DifficultyLevel::Easy,
    {
        DifficultyLevel::Easy
    }
}

/// One of the two sides of a game.
#[derive(Clone, Copy, Debug, PartialEq, Eq, Structural)]
pub enum Player {
    User,
    Program,
}

impl Default for Player {
    fn default() -> (player: Self)
        ensures
            player == Player::User,
    {
        Player::User
    }
}

/// Configuration of a new game.
#[derive(Clone, Copy, Debug, PartialEq, Eq, Structural)]
pub struct PebblesInit {
    pub difficulty: DifficultyLevel,
    pub pebbles_count: u32,
    pub max_pebbles_per_turn: u32,
}

impl PebblesInit {
    /// A configuration can be played when a turn may take at least one pebble
    /// and at most the whole pile.
    pub open spec fn valid(self) -> bool {
        1 <= self.max_pebbles_per_turn <= self.pebbles_count
    }
}

impl Default for PebblesInit {
    fn default() -> (config: Self)
        ensures
            config == (PebblesInit {
                difficulty: DifficultyLevel::Easy,
                pebbles_count: 0,
                max_pebbles_per_turn: 0,
            }),
    {
        PebblesInit { difficulty: DifficultyLevel::Easy, pebbles_count: 0, max_pebbles_per_turn: 0 }
    }
}

/// A request of the user.
#[derive(Clone, Copy, Debug, PartialEq, Eq, Structural)]
pub enum PebblesAction {
    /// Take this many pebbles.
    Turn(u32),
    /// Let the program move in the user's place.
    GiveUp,
    /// Abandon the current game and start another.
    Restart { difficulty: DifficultyLevel, pebbles_count: u32, max_pebbles_per_turn: u32 },
}

/// The answer to a request.
#[derive(Clone, Copy, Debug, PartialEq, Eq, Structural)]
pub enum PebblesEvent {
    /// The program took this many pebbles and the game goes on.
    CounterTurn(u32),
    /// The last pebble was taken by this player.
    Won(Player),
}

/// The published part of a game's state: what a game is and how it stands,
/// without the record of the program's latest move.
#[derive(Clone, Copy, Debug, PartialEq, Eq, Structural)]
pub struct GameState {
    pub pebbles_count: u32,
    pub max_pebbles_per_turn: u32,
    pub pebbles_remaining: u32,
    pub difficulty: DifficultyLevel,
    pub first_player: Player,
    pub winner: Option<Player>,
}

impl Default for GameState {
    fn default() -> (state: Self)
        ensures
            state == (GameState {
                pebbles_count: 0,
                max_pebbles_per_turn: 0,
                pebbles_remaining: 0,
                difficulty: DifficultyLevel::Easy,
                first_player: Player::User,
                winner: None,
            }),
    {
        GameState {
            pebbles_count: 0,
            max_pebbles_per_turn: 0,
            pebbles_remaining: 0,
            difficulty: DifficultyLevel::Easy,
            first_player: Player::User,
            winner: None,
        }
    }
}

/// Why a request was refused. A refused request leaves the game untouched.
#[derive(Clone, Copy, Debug, PartialEq, Eq, Structural)]
pub enum GameError {
    /// The configuration allows no legal turn: the maximum per turn is zero
    /// or exceeds the pile. A game that was never configured answers so when
    /// the program is to move.
    InvalidConfig,
    /// The move cannot be made: the user asked for zero pebbles, for more
    /// than a turn may take or for more than are left, or the game is over.
    InvalidMove,
}

} // verus!
