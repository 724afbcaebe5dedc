//! The game itself: its state, the moves of both sides and the rules that
//! decide when a game is won.

use vstd::prelude::*;
use crate::io::{DifficultyLevel, GameError, GameState, PebblesEvent, PebblesInit, Player};
use crate::random::{program_turn_gen, turn_size, Draws};

verus! {

/// The state of a game.
///
/// A game that was never configured is all zeroes; see [`PebbleGame::blank`].
#[derive(Clone, Copy, Debug, PartialEq, Eq, Structural)]
pub struct PebbleGame {
    /// Pebbles in the pile when the game began.
    pub pebbles_count: u32,
    /// The most pebbles one turn may take.
    pub max_pebbles_per_turn: u32,
    /// Pebbles still in the pile.
    pub pebbles_remaining: u32,
    /// Pebbles the program took in answer to the latest request.
    pub program_lastmove: u32,
    pub difficulty: DifficultyLevel,
    /// Who opened the game.
    pub first_player: Player,
    /// Who took the last pebble, once somebody has.
    pub winner: Option<Player>,
}

impl PebbleGame {
    /// The state before any game was configured.
    pub open spec fn blank() -> PebbleGame {
        PebbleGame {
            pebbles_count: 0,
            max_pebbles_per_turn: 0,
            pebbles_remaining: 0,
            program_lastmove: 0,
            difficulty: DifficultyLevel::Easy,
            first_player: Player::User,
            winner: None,
        }
    }

    /// A full pile under the given configuration, before anybody moved.
    pub open spec fn fresh(config: PebblesInit) -> PebbleGame {
        PebbleGame {
            pebbles_count: config.pebbles_count,
            max_pebbles_per_turn: config.max_pebbles_per_turn,
            pebbles_remaining: config.pebbles_count,
            program_lastmove: 0,
            difficulty: config.difficulty,
            first_player: Player::User,
            winner: None,
        }
    }

    /// What holds of a game at all times.
    ///
    /// The pile never grows beyond its initial size, a turn never takes more
    /// than the pile held, a game without a turn limit was never configured
    /// and has no pile, the program's latest move is among the pebbles that
    /// are gone, and a configured game has a winner exactly when the pile is
    /// empty.
    pub open spec fn wf(self) -> bool {
        &&& self.pebbles_remaining <= self.pebbles_count
        &&& self.max_pebbles_per_turn <= self.pebbles_count
        &&& (self.max_pebbles_per_turn == 0 ==> self.pebbles_count == 0)
        &&& self.program_lastmove <= self.max_pebbles_per_turn
        &&& self.program_lastmove + self.pebbles_remaining <= self.pebbles_count
        &&& (self.winner is Some <==> self.max_pebbles_per_turn >= 1 && self.pebbles_remaining == 0)
    }

    /// A game that can still be played: it is configured, pebbles are left
    /// and nobody has won. Only such a game takes a move.
    pub open spec fn in_progress(self) -> bool {
        &&& self.max_pebbles_per_turn >= 1
        &&& self.pebbles_remaining > 0
        &&& self.winner is None
    }

    /// Whether the user may take `count` pebbles now: the game is in
    /// progress, and `count` is at least one, no more than a turn allows and
    /// no more than are left.
    pub open spec fn accepts(self, count: u32) -> bool {
        &&& self.in_progress()
        &&& 1 <= count <= self.max_pebbles_per_turn
        &&& count <= self.pebbles_remaining
    }

    /// Why a game that is not in progress refuses a move of the program: it
    /// was never configured, or it is over.
    pub open spec fn program_refusal(self) -> GameError {
        if self.max_pebbles_per_turn == 0 {
            GameError::InvalidConfig
        } else {
            GameError::InvalidMove
        }
    }

    /// The pebbles the program takes: the size it chose, or what is left of
    /// the pile if that is less.
    pub open spec fn program_take(self, draws: Draws) -> u32 {
        let chosen = turn_size(self.difficulty, self.max_pebbles_per_turn, draws);
        if chosen < self.pebbles_remaining {
            chosen as u32
        } else {
            self.pebbles_remaining
        }
    }

    /// The game in progress after a move of the program.
    pub open spec fn after_program_move(self, draws: Draws) -> PebbleGame {
        let taken = self.program_take(draws);
        PebbleGame {
            pebbles_remaining: (self.pebbles_remaining - taken) as u32,
            program_lastmove: taken,
            winner: if taken == self.pebbles_remaining {
                Some(Player::Program)
            } else {
                self.winner
            },
            ..self
        }
    }

    /// The event that reports a move of the program on a game in progress.
    pub open spec fn program_event(self, draws: Draws) -> PebblesEvent {
        let taken = self.program_take(draws);
        if taken == self.pebbles_remaining {
            PebblesEvent::Won(Player::Program)
        } else {
            PebblesEvent::CounterTurn(taken)
        }
    }

    /// The game after the user took `count` pebbles and, unless that emptied
    /// the pile, the program answered.
    pub open spec fn after_user_move(self, count: u32, draws: Draws) -> PebbleGame {
        let taken = PebbleGame {
            pebbles_remaining: (self.pebbles_remaining - count) as u32,
            ..self
        };
        if count == self.pebbles_remaining {
            PebbleGame { winner: Some(Player::User), ..taken }
        } else {
            taken.after_program_move(draws)
        }
    }

    /// The event that reports a turn of the user.
    pub open spec fn user_event(self, count: u32, draws: Draws) -> PebblesEvent {
        if count == self.pebbles_remaining {
            PebblesEvent::Won(Player::User)
        } else {
            (PebbleGame {
                pebbles_remaining: (self.pebbles_remaining - count) as u32,
                ..self
            }).program_event(draws)
        }
    }

    /// Whether the coin makes the user open the game.
    pub open spec fn user_opens(draws: Draws) -> bool {
        draws.coin % 2 == 0
    }

    /// The game after the opening: the coin names the first player, and the
    /// program, if it is named, moves at once.
    pub open spec fn after_first_play(self, draws: Draws) -> PebbleGame {
        if Self::user_opens(draws) {
            PebbleGame { first_player: Player::User, ..self }
        } else {
            (PebbleGame { first_player: Player::Program, ..self }).after_program_move(draws)
        }
    }

    /// The event that reports the opening. A program move of zero pebbles
    /// tells the user to begin.
    pub open spec fn first_play_event(self, draws: Draws) -> PebblesEvent {
        if Self::user_opens(draws) {
            PebblesEvent::CounterTurn(0)
        } else {
            self.program_event(draws)
        }
    }

    /// Whether `count` is a number of pebbles that one turn may take.
    pub fn is_valid_move(&self, count: u32) -> (valid: bool)
        ensures
            valid == (1 <= count <= self.max_pebbles_per_turn),
    {
        1 <= count && count <= self.max_pebbles_per_turn
    }

    /// The size of the turn the program wants to make. Where a turn may take
    /// one pebble only, no draw is consulted.
    pub fn calculate_program_move(&self, draws: Draws) -> (count: u32)
        requires
            self.max_pebbles_per_turn >= 1,
        ensures
            count == turn_size(self.difficulty, self.max_pebbles_per_turn, draws),
            1 <= count <= self.max_pebbles_per_turn,
            self.max_pebbles_per_turn == 1 ==> count == 1,
    {
        if self.max_pebbles_per_turn != 1 {
            program_turn_gen(self.difficulty, self.max_pebbles_per_turn, draws)
        } else {
            1
        }
    }

    /// Lets the program move.
    ///
    /// Only a game in progress takes the move: the program takes the number
    /// of pebbles it chose, or all that are left if it chose more, and wins
    /// if the pile is empty afterwards. On any other game the move is
    /// refused and nothing changes; in particular a game that is won keeps
    /// its winner.
    pub fn program_move(&mut self, draws: Draws) -> (res: Result<PebblesEvent, GameError>)
        ensures
            res is Ok <==> old(self).in_progress(),
            res matches Ok(event) ==> {
                &&& *final(self) == old(self).after_program_move(draws)
                &&& event == old(self).program_event(draws)
            },
            res matches Err(error) ==> {
                &&& error == old(self).program_refusal()
                &&& *final(self) == *old(self)
            },
            old(self).winner is Some ==> {
                &&& final(self).winner == old(self).winner
                &&& final(self).pebbles_remaining == old(self).pebbles_remaining
            },
            res is Ok ==> {
                let chosen = turn_size(old(self).difficulty, old(self).max_pebbles_per_turn, draws);
                let left = old(self).pebbles_remaining;
                &&& final(self).program_lastmove == if chosen < left { chosen } else { left as int }
                &&& final(self).program_lastmove >= 1
                &&& final(self).pebbles_remaining == left - final(self).program_lastmove
                &&& chosen >= left ==> {
                    &&& final(self).pebbles_remaining == 0
                    &&& final(self).winner == Some(Player::Program)
                    &&& res == Ok::<PebblesEvent, GameError>(PebblesEvent::Won(Player::Program))
                }
                &&& chosen < left ==> {
                    &&& final(self).winner is None
                    &&& res == Ok::<PebblesEvent, GameError>(PebblesEvent::CounterTurn(chosen as u32))
                }
            },
            old(self).wf() ==> final(self).wf(),
    {
        if self.max_pebbles_per_turn == 0 {
            return Err(GameError::InvalidConfig);
        }
        if self.pebbles_remaining == 0 || self.winner.is_some() {
            return Err(GameError::InvalidMove);
        }
        let chosen: u32 = self.calculate_program_move(draws);
        let count: u32 = if chosen < self.pebbles_remaining {
            chosen
        } else {
            self.pebbles_remaining
        };
        self.pebbles_remaining = self.pebbles_remaining - count;
        self.program_lastmove = count;
        if self.pebbles_remaining == 0 {
            self.winner = Some(Player::Program);
            Ok(PebblesEvent::Won(Player::Program))
        } else {
            Ok(PebblesEvent::CounterTurn(count))
        }
    }

    /// Lets the user take `count` pebbles.
    ///
    /// The turn is refused, and nothing changes, unless the game is in
    /// progress and `count` is at least one, at most what a turn may take
    /// and at most what is left. The user wins by emptying the pile;
    /// otherwise the program answers at once.
    pub fn user_move(&mut self, count: u32, draws: Draws) -> (res: Result<PebblesEvent, GameError>)
        ensures
            res is Ok <==> old(self).accepts(count),
            res matches Ok(event) ==> {
                &&& *final(self) == old(self).after_user_move(count, draws)
                &&& event == old(self).user_event(count, draws)
            },
            res matches Err(error) ==> {
                &&& error == GameError::InvalidMove
                &&& *final(self) == *old(self)
            },
            res is Ok ==> final(self).pebbles_remaining < old(self).pebbles_remaining,
            old(self).wf() ==> final(self).wf(),
    {
        if !self.is_valid_move(count) {
            return Err(GameError::InvalidMove);
        }
        if count > self.pebbles_remaining {
            return Err(GameError::InvalidMove);
        }
        if self.winner.is_some() {
            return Err(GameError::InvalidMove);
        }
        self.pebbles_remaining = self.pebbles_remaining - count;
        if self.pebbles_remaining == 0 {
            self.winner = Some(Player::User);
            Ok(PebblesEvent::Won(Player::User))
        } else {
            self.program_move(draws)
        }
    }

    /// Opens the game: the coin decides who begins. An even coin names the
    /// user, who is told to begin by a program move of zero pebbles; an odd
    /// coin names the program, which moves at once.
    ///
    /// The opening is refused, and nothing changes, where the program is to
    /// begin and the game is not in progress.
    pub fn first_play(&mut self, draws: Draws) -> (res: Result<PebblesEvent, GameError>)
        ensures
            res is Ok <==> Self::user_opens(draws) || old(self).in_progress(),
            res matches Ok(event) ==> {
                &&& *final(self) == old(self).after_first_play(draws)
                &&& event == old(self).first_play_event(draws)
            },
            res matches Err(error) ==> {
                &&& error == old(self).program_refusal()
                &&& *final(self) == *old(self)
            },
            old(self).winner is Some ==> {
                &&& final(self).winner == old(self).winner
                &&& final(self).pebbles_remaining == old(self).pebbles_remaining
            },
            old(self).wf() ==> final(self).wf(),
    {
        if draws.coin % 2 == 0 {
            self.first_player = Player::User;
            Ok(PebblesEvent::CounterTurn(0))
        } else {
            let mut opened = *self;
            opened.first_player = Player::Program;
            let res = opened.program_move(draws);
            if res.is_ok() {
                *self = opened;
            }
            res
        }
    }

    /// Abandons the game and starts another.
    ///
    /// The new configuration is refused, and the old game stays as it is,
    /// unless a turn may take at least one pebble and at most the whole
    /// pile. Otherwise nothing of the old game survives: the pile is full,
    /// nobody has won, and the game is opened as [`PebbleGame::first_play`]
    /// says.
    pub fn restart(
        &mut self,
        difficulty: DifficultyLevel,
        pebbles_count: u32,
        max_pebbles_per_turn: u32,
        draws: Draws,
    ) -> (res: Result<PebblesEvent, GameError>)
        ensures
            res is Ok <==> 1 <= max_pebbles_per_turn <= pebbles_count,
            res matches Ok(event) ==> {
                let start = Self::fresh(
                    PebblesInit { difficulty, pebbles_count, max_pebbles_per_turn },
                );
                &&& *final(self) == start.after_first_play(draws)
                &&& event == start.first_play_event(draws)
            },
            res matches Err(error) ==> {
                &&& error == GameError::InvalidConfig
                &&& *final(self) == *old(self)
            },
            res is Ok ==> {
                &&& final(self).wf()
                &&& final(self).pebbles_count == pebbles_count
                &&& final(self).max_pebbles_per_turn == max_pebbles_per_turn
                &&& final(self).difficulty == difficulty
                &&& final(self).pebbles_remaining + final(self).program_lastmove == pebbles_count
                &&& final(self).first_player == Player::User ==> final(self).program_lastmove == 0
            },
            res is Ok && max_pebbles_per_turn < pebbles_count ==> final(self).winner is None,
    {
        if max_pebbles_per_turn == 0 || max_pebbles_per_turn > pebbles_count {
            return Err(GameError::InvalidConfig);
        }
        self.difficulty = difficulty;
        self.pebbles_count = pebbles_count;
        self.max_pebbles_per_turn = max_pebbles_per_turn;
        self.pebbles_remaining = pebbles_count;
        self.winner = None;
        self.program_lastmove = 0;
        self.first_play(draws)
    }

    /// The part of the state that is published as a [`GameState`]: all of it
    /// but the record of the program's latest move.
    pub fn published(&self) -> (state: GameState)
        ensures
            state == (GameState {
                pebbles_count: self.pebbles_count,
                max_pebbles_per_turn: self.max_pebbles_per_turn,
                pebbles_remaining: self.pebbles_remaining,
                difficulty: self.difficulty,
                first_player: self.first_player,
                winner: self.winner,
            }),
    {
        GameState {
            pebbles_count: self.pebbles_count,
            max_pebbles_per_turn: self.max_pebbles_per_turn,
            pebbles_remaining: self.pebbles_remaining,
            difficulty: self.difficulty,
            first_player: self.first_player,
            winner: self.winner,
        }
    }
}

impl Default for PebbleGame {
    fn default() -> (game: Self)
        ensures
            game == PebbleGame::blank(),
            game.wf(),
    {
        PebbleGame {
            pebbles_count: 0,
            max_pebbles_per_turn: 0,
            pebbles_remaining: 0,
            program_lastmove: 0,
            difficulty: DifficultyLevel::Easy,
            first_player: Player::User,
            winner: None,
        }
    }
}

} // verus!
