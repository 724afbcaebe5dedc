//! The entry points of a game: configuring it, handling a request and
//! querying its state.
//!
//! The first two validate before they commit. A refused call returns the
//! reason and leaves the game exactly as it was. A query changes nothing.
//!
//! A request consumes random numbers, which the caller supplies. Before it
//! draws them, [`coin_needed`] and [`draws_needed`] tell it how many the
//! request consumes.

use vstd::prelude::*;
use crate::game::PebbleGame;
use crate::io::{DifficultyLevel, GameError, PebblesAction, PebblesEvent, PebblesInit, Player};
use crate::random::{choice_draws, Draws};

verus! {

/// The game that a valid configuration and an opening yield.
pub open spec fn opening(config: PebblesInit, draws: Draws) -> PebbleGame {
    PebbleGame::fresh(config).after_first_play(draws)
}

/// The event that announces the opening of a new game.
pub open spec fn opening_event(config: PebblesInit, draws: Draws) -> PebblesEvent {
    PebbleGame::fresh(config).first_play_event(draws)
}

/// The configuration that a restart asks for; any for other actions.
pub open spec fn requested_config(action: PebblesAction) -> PebblesInit {
    match action {
        PebblesAction::Restart { difficulty, pebbles_count, max_pebbles_per_turn } => PebblesInit {
            difficulty,
            pebbles_count,
            max_pebbles_per_turn,
        },
        _ => arbitrary(),
    }
}

/// Whether the game takes the action.
///
/// A turn must be one the user may make now. Giving up needs a game in
/// progress, for the program to move in. A restart needs a valid
/// configuration. So a game that is over takes nothing but a restart.
pub open spec fn accepted(game: PebbleGame, action: PebblesAction) -> bool {
    match action {
        PebblesAction::Turn(count) => game.accepts(count),
        PebblesAction::GiveUp => game.in_progress(),
        PebblesAction::Restart { .. } => requested_config(action).valid(),
    }
}

/// Why an action that is not accepted is refused.
pub open spec fn refusal(game: PebbleGame, action: PebblesAction) -> GameError {
    match action {
        PebblesAction::Turn(_) => GameError::InvalidMove,
        PebblesAction::GiveUp => game.program_refusal(),
        PebblesAction::Restart { .. } => GameError::InvalidConfig,
    }
}

/// The game with the record of the program's latest move erased, as every
/// request finds it.
pub open spec fn cleared(game: PebbleGame) -> PebbleGame {
    PebbleGame { program_lastmove: 0, ..game }
}

/// The game after a request: as the action leaves it if it is accepted,
/// unchanged if it is refused.
pub open spec fn after(game: PebbleGame, action: PebblesAction, draws: Draws) -> PebbleGame {
    if !accepted(game, action) {
        game
    } else {
        match action {
            PebblesAction::Turn(count) => cleared(game).after_user_move(count, draws),
            PebblesAction::GiveUp => cleared(game).after_program_move(draws),
            PebblesAction::Restart { .. } => opening(requested_config(action), draws),
        }
    }
}

/// The answer to a request.
pub open spec fn answer(game: PebbleGame, action: PebblesAction, draws: Draws) -> Result<
    PebblesEvent,
    GameError,
> {
    if !accepted(game, action) {
        Err(refusal(game, action))
    } else {
        Ok(
            match action {
                PebblesAction::Turn(count) => cleared(game).user_event(count, draws),
                PebblesAction::GiveUp => cleared(game).program_event(draws),
                PebblesAction::Restart { .. } => opening_event(requested_config(action), draws),
            },
        )
    }
}

/// Whether the request tosses the coin: only an accepted restart opens a
/// game.
pub open spec fn tosses_coin(action: PebblesAction) -> bool {
    action is Restart && requested_config(action).valid()
}

/// The game that the request plays in: the new one for a restart, the
/// current one otherwise.
pub open spec fn played(game: PebbleGame, action: PebblesAction) -> PebbleGame {
    if action is Restart {
        PebbleGame::fresh(requested_config(action))
    } else {
        game
    }
}

/// Whether the program moves in the course of the request: in answer to an
/// accepted turn that leaves pebbles, in place of a user who gives up, or to
/// open a game when the coin names it.
pub open spec fn program_moves(game: PebbleGame, action: PebblesAction, coin: u32) -> bool {
    accepted(game, action) && match action {
        PebblesAction::Turn(count) => count < game.pebbles_remaining,
        PebblesAction::GiveUp => true,
        PebblesAction::Restart { .. } => coin % 2 != 0,
    }
}

/// How many draws the request consumes besides the coin: those of the
/// program's choice if the program moves, none otherwise.
pub open spec fn draws_consumed(game: PebbleGame, action: PebblesAction, coin: u32) -> nat {
    if program_moves(game, action, coin) {
        choice_draws(played(game, action).difficulty, played(game, action).max_pebbles_per_turn)
    } else {
        0
    }
}

/// Tells whether the coin has to be tossed for the request.
pub fn coin_needed(action: &PebblesAction) -> (needed: bool)
    ensures
        needed == tosses_coin(*action),
{
    match action {
        PebblesAction::Restart { difficulty: _, pebbles_count, max_pebbles_per_turn } => {
            1 <= *max_pebbles_per_turn && *max_pebbles_per_turn <= *pebbles_count
        },
        _ => false,
    }
}

/// Tells how many numbers have to be drawn for the request once the coin is
/// known: `first` if the result is at least one, `second` too if it is two.
/// What is not drawn may hold any value.
pub fn draws_needed(game: &PebbleGame, action: &PebblesAction, coin: u32) -> (count: u32)
    ensures
        count == draws_consumed(*game, *action, coin),
        count <= 2,
{
    let in_progress = game.max_pebbles_per_turn >= 1 && game.pebbles_remaining > 0
        && game.winner.is_none();
    match action {
        PebblesAction::Turn(count) => {
            if in_progress && game.is_valid_move(*count) && *count < game.pebbles_remaining {
                draws_per_choice(game.difficulty, game.max_pebbles_per_turn)
            } else {
                0
            }
        },
        PebblesAction::GiveUp => {
            if in_progress {
                draws_per_choice(game.difficulty, game.max_pebbles_per_turn)
            } else {
                0
            }
        },
        PebblesAction::Restart { difficulty, pebbles_count, max_pebbles_per_turn } => {
            if 1 <= *max_pebbles_per_turn && *max_pebbles_per_turn <= *pebbles_count && coin % 2
                != 0 {
                draws_per_choice(*difficulty, *max_pebbles_per_turn)
            } else {
                0
            }
        },
    }
}

fn draws_per_choice(difficulty: DifficultyLevel, max_per_turn: u32) -> (count: u32)
    ensures
        count == choice_draws(difficulty, max_per_turn),
{
    if max_per_turn == 1 {
        0
    } else {
        match difficulty {
            DifficultyLevel::Easy => 1,
            DifficultyLevel::Hard => 2,
        }
    }
}

/// Configures a new game and opens it.
///
/// Succeeds exactly on a valid configuration, with the opened game and the
/// event that announces the opening.
pub fn init(config: PebblesInit, draws: Draws) -> (res: Result<(PebbleGame, PebblesEvent), GameError>)
    ensures
        res is Ok <==> config.valid(),
        res matches Ok(started) ==> {
            &&& started.0 == opening(config, draws)
            &&& started.1 == opening_event(config, draws)
            &&& started.0.wf()
            &&& started.0.pebbles_count == config.pebbles_count
            &&& started.0.max_pebbles_per_turn == config.max_pebbles_per_turn
            &&& started.0.difficulty == config.difficulty
            &&& started.0.pebbles_remaining + started.0.program_lastmove == config.pebbles_count
            &&& started.0.first_player == Player::User ==> started.0.program_lastmove == 0
        },
        res matches Err(error) ==> error == GameError::InvalidConfig,
{
    let mut game = PebbleGame::default();
    match game.restart(config.difficulty, config.pebbles_count, config.max_pebbles_per_turn, draws) {
        Ok(event) => Ok((game, event)),
        Err(error) => Err(error),
    }
}

/// Handles one request.
///
/// The record of the program's latest move is erased, then the action is
/// carried out. If the action is refused, the game is left as it was before
/// the call, that record included.
pub fn handle(game: &mut PebbleGame, action: PebblesAction, draws: Draws) -> (res: Result<
    PebblesEvent,
    GameError,
>)
    ensures
        res is Ok <==> accepted(*old(game), action),
        *final(game) == after(*old(game), action, draws),
        res == answer(*old(game), action, draws),
        old(game).wf() ==> final(game).wf(),
{
    let mut next = *game;
    next.program_lastmove = 0;
    let res = match action {
        PebblesAction::Turn(count) => next.user_move(count, draws),
        PebblesAction::GiveUp => next.program_move(draws),
        PebblesAction::Restart { difficulty, pebbles_count, max_pebbles_per_turn } => next.restart(
            difficulty,
            pebbles_count,
            max_pebbles_per_turn,
            draws,
        ),
    };
    if res.is_ok() {
        *game = next;
    }
    res
}

/// Answers a query for the state: a copy of the game as it stands. Before
/// any configuration that is the blank game.
pub fn state(game: &PebbleGame) -> (snapshot: PebbleGame)
    ensures
        snapshot == *game,
{
    *game
}

} // verus!
