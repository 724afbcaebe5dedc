//! What holds of every game, however it is played.
//!
//! A play is a sequence of requests, each with the draws it may consume.
//! The laws below are stated over [`run`], the state a play leads to, and
//! over the single step [`after`](crate::engine::after).

use vstd::prelude::*;
use crate::engine::{
    accepted, after, answer, draws_consumed, opening, opening_event, played, refusal,
    requested_config, tosses_coin,
};
use crate::game::PebbleGame;
use crate::io::{DifficultyLevel, GameError, PebblesAction, PebblesEvent, PebblesInit, Player};
use crate::random::{turn_size, Draws};

verus! {

/// The game after a play: the requests handled one after the other, refused
/// ones leaving no trace.
pub open spec fn run(game: PebbleGame, requests: Seq<(PebblesAction, Draws)>) -> PebbleGame
    decreases requests.len(),
{
    if requests.len() == 0 {
        game
    } else {
        let last = requests.last();
        after(run(game, requests.drop_last()), last.0, last.1)
    }
}

/// A play within one game: no request is a restart, and each is accepted by
/// the game as the requests before it left it.
pub open spec fn all_moves(game: PebbleGame, requests: Seq<(PebblesAction, Draws)>) -> bool
    decreases requests.len(),
{
    requests.len() == 0 || {
        &&& all_moves(game, requests.drop_last())
        &&& !(requests.last().0 is Restart)
        &&& accepted(run(game, requests.drop_last()), requests.last().0)
    }
}

/// No request breaks the invariant of a game, whether it is accepted or
/// refused.
pub proof fn request_keeps_invariant(game: PebbleGame, action: PebblesAction, draws: Draws)
    requires
        game.wf(),
    ensures
        after(game, action, draws).wf(),
{
}

/// A play leads from a well-formed game to a well-formed game.
pub proof fn play_keeps_invariant(game: PebbleGame, requests: Seq<(PebblesAction, Draws)>)
    requires
        game.wf(),
    ensures
        run(game, requests).wf(),
    decreases requests.len(),
{
    if requests.len() > 0 {
        play_keeps_invariant(game, requests.drop_last());
    }
}

/// Every game that can be reached is well formed: from the state before any
/// configuration, whatever is requested and whatever is drawn, the pile
/// holds no more pebbles than it began with, a turn takes no more than the
/// pile began with, and there is a winner exactly when a configured game has
/// run out of pebbles.
pub proof fn reachable_games_are_well_formed(requests: Seq<(PebblesAction, Draws)>)
    ensures
        run(PebbleGame::blank(), requests).wf(),
        run(PebbleGame::blank(), requests).pebbles_remaining <= run(
            PebbleGame::blank(),
            requests,
        ).pebbles_count,
        run(PebbleGame::blank(), requests).max_pebbles_per_turn <= run(
            PebbleGame::blank(),
            requests,
        ).pebbles_count,
        run(PebbleGame::blank(), requests).pebbles_remaining > 0 ==> run(
            PebbleGame::blank(),
            requests,
        ).winner is None,
{
    play_keeps_invariant(PebbleGame::blank(), requests);
}

/// Once configured, a game stays configured: after a valid configuration,
/// whatever is requested and whatever is drawn, a turn may take at least one
/// pebble and at most the pile the game began with, and the game is well
/// formed.
pub proof fn configured_games_stay_configured(
    config: PebblesInit,
    draws: Draws,
    requests: Seq<(PebblesAction, Draws)>,
)
    requires
        config.valid(),
    ensures
        run(opening(config, draws), requests).wf(),
        1 <= run(opening(config, draws), requests).max_pebbles_per_turn <= run(
            opening(config, draws),
            requests,
        ).pebbles_count,
    decreases requests.len(),
{
    if requests.len() > 0 {
        configured_games_stay_configured(config, draws, requests.drop_last());
    }
    play_keeps_invariant(opening(config, draws), requests);
}

/// Configuring a game is restarting the one that was never configured: both
/// are accepted on the same configurations and lead to the same game and the
/// same event. So the games that follow a configuration are among those that
/// [`reachable_games_are_well_formed`] speaks of.
pub proof fn configuring_is_restarting(action: PebblesAction, draws: Draws)
    requires
        action is Restart,
    ensures
        accepted(PebbleGame::blank(), action) <==> requested_config(action).valid(),
        requested_config(action).valid() ==> {
            &&& after(PebbleGame::blank(), action, draws) == opening(
                requested_config(action),
                draws,
            )
            &&& answer(PebbleGame::blank(), action, draws) == Ok::<PebblesEvent, GameError>(
                opening_event(requested_config(action), draws),
            )
            &&& run(PebbleGame::blank(), seq![(action, draws)]) == opening(
                requested_config(action),
                draws,
            )
        },
{
    assert(seq![(action, draws)].drop_last() =~= Seq::empty());
}

/// A restart takes nothing over from the game it ends: the new game and the
/// answer are the same whatever the old game was. If the restart is
/// accepted, the new game has the pile and the turn limit that were asked
/// for, and nobody has won it yet unless a single turn may empty the pile.
pub proof fn restart_forgets_the_old_game(
    old_game: PebbleGame,
    other_game: PebbleGame,
    action: PebblesAction,
    draws: Draws,
)
    requires
        action is Restart,
        requested_config(action).valid(),
    ensures
        after(old_game, action, draws) == after(other_game, action, draws),
        answer(old_game, action, draws) == answer(other_game, action, draws),
        after(old_game, action, draws).pebbles_count == requested_config(action).pebbles_count,
        after(old_game, action, draws).max_pebbles_per_turn == requested_config(
            action,
        ).max_pebbles_per_turn,
        after(old_game, action, draws).difficulty == requested_config(action).difficulty,
        requested_config(action).max_pebbles_per_turn < requested_config(action).pebbles_count
            ==> after(old_game, action, draws).winner is None,
{
}

/// A refused request changes nothing: the game is left exactly as it was,
/// the record of the program's latest move included, and the answer is the
/// reason for the refusal.
pub proof fn refused_request_changes_nothing(game: PebbleGame, action: PebblesAction, draws: Draws)
    requires
        !accepted(game, action),
    ensures
        after(game, action, draws) == game,
        answer(game, action, draws) == Err::<PebblesEvent, GameError>(refusal(game, action)),
        action is Turn ==> refusal(game, action) == GameError::InvalidMove,
        action is Restart ==> refusal(game, action) == GameError::InvalidConfig,
        action is GiveUp ==> refusal(game, action) == if game.max_pebbles_per_turn == 0 {
            GameError::InvalidConfig
        } else {
            GameError::InvalidMove
        },
{
}

/// Once a game is won, the winner stays until a restart: a game with a
/// winner refuses every turn and every giving up, and is left exactly as it
/// was.
pub proof fn winner_stays(game: PebbleGame, action: PebblesAction, draws: Draws)
    requires
        game.winner is Some,
        !(action is Restart),
    ensures
        !accepted(game, action),
        after(game, action, draws) == game,
        after(game, action, draws).winner == game.winner,
        answer(game, action, draws) is Err,
{
}

/// The winner of a play is the first player to empty the pile: over a play
/// without a restart, a winner once set is the winner at the end.
pub proof fn winner_is_set_once(game: PebbleGame, requests: Seq<(PebblesAction, Draws)>)
    requires
        game.winner is Some,
        forall|i: int| 0 <= i < requests.len() ==> !((#[trigger] requests[i]).0 is Restart),
    ensures
        run(game, requests) == game,
    decreases requests.len(),
{
    if requests.len() > 0 {
        let earlier = requests.drop_last();
        assert forall|i: int| 0 <= i < earlier.len() implies !((#[trigger] earlier[i]).0 is Restart) by {
            assert(earlier[i] == requests[i]);
        }
        winner_is_set_once(game, earlier);
        assert(!(requests[requests.len() - 1].0 is Restart));
        winner_stays(game, requests.last().0, requests.last().1);
    }
}

/// Giving up on a game that is over is refused as an invalid move.
pub proof fn giving_up_after_the_end(game: PebbleGame, draws: Draws)
    requires
        game.wf(),
        game.winner is Some,
    ensures
        !accepted(game, PebblesAction::GiveUp),
        after(game, PebblesAction::GiveUp, draws) == game,
        answer(game, PebblesAction::GiveUp, draws) == Err::<PebblesEvent, GameError>(
            GameError::InvalidMove,
        ),
{
}

/// On a well-formed game the rule for a turn of the user is the plain one:
/// a turn is accepted exactly when it takes at least one pebble, no more
/// than a turn allows and no more than are left. That nobody has won yet
/// follows from there being a pebble to take.
pub proof fn turn_rule(game: PebbleGame, count: u32)
    requires
        game.wf(),
    ensures
        game.accepts(count) <==> 1 <= count <= game.max_pebbles_per_turn && count
            <= game.pebbles_remaining,
        game.in_progress() <==> game.pebbles_remaining > 0,
{
}

/// An accepted request is answered with a win exactly when it leaves the
/// pile empty, and the win goes to the player then recorded as the winner.
/// Otherwise the answer tells how many pebbles the program took.
pub proof fn win_is_announced(game: PebbleGame, action: PebblesAction, draws: Draws)
    requires
        game.wf(),
        accepted(game, action),
    ensures
        after(game, action, draws).pebbles_remaining == 0 ==> {
            &&& after(game, action, draws).winner is Some
            &&& answer(game, action, draws) == Ok::<PebblesEvent, GameError>(
                PebblesEvent::Won(after(game, action, draws).winner->Some_0),
            )
        },
        after(game, action, draws).pebbles_remaining > 0 ==> {
            &&& after(game, action, draws).winner is None
            &&& answer(game, action, draws) == Ok::<PebblesEvent, GameError>(
                PebblesEvent::CounterTurn(after(game, action, draws).program_lastmove),
            )
        },
{
}

/// The program never takes more than is left: its move is the size it
/// chose, cut down to the pile. If it chose at least what is left, it takes
/// exactly that, empties the pile and wins.
pub proof fn program_move_is_clamped(game: PebbleGame, draws: Draws)
    requires
        game.in_progress(),
    ensures
        1 <= game.program_take(draws) <= game.pebbles_remaining,
        game.program_take(draws) <= turn_size(game.difficulty, game.max_pebbles_per_turn, draws),
        game.after_program_move(draws).pebbles_remaining == game.pebbles_remaining
            - game.program_take(draws),
        game.after_program_move(draws).program_lastmove == game.program_take(draws),
        turn_size(game.difficulty, game.max_pebbles_per_turn, draws) >= game.pebbles_remaining ==> {
            &&& game.program_take(draws) == game.pebbles_remaining
            &&& game.after_program_move(draws).pebbles_remaining == 0
            &&& game.after_program_move(draws).winner == Some(Player::Program)
            &&& game.program_event(draws) == PebblesEvent::Won(Player::Program)
        },
        turn_size(game.difficulty, game.max_pebbles_per_turn, draws) < game.pebbles_remaining ==> {
            &&& game.program_take(draws) == turn_size(
                game.difficulty,
                game.max_pebbles_per_turn,
                draws,
            )
            &&& game.after_program_move(draws).winner is None
            &&& game.program_event(draws) == PebblesEvent::CounterTurn(game.program_take(draws))
        },
{
}

/// Every accepted move shrinks the pile: a turn or a giving up is accepted
/// by a game in progress only, leaves fewer pebbles than before and changes
/// neither the size of the game nor the turn limit.
pub proof fn move_shrinks_the_pile(game: PebbleGame, action: PebblesAction, draws: Draws)
    requires
        !(action is Restart),
        accepted(game, action),
    ensures
        game.in_progress(),
        after(game, action, draws).pebbles_remaining < game.pebbles_remaining,
        after(game, action, draws).pebbles_count == game.pebbles_count,
        after(game, action, draws).max_pebbles_per_turn == game.max_pebbles_per_turn,
{
}

/// A game ends: every accepted move removes at least one pebble, so a play
/// of accepted moves is no longer than the pile it starts with, and a game
/// in progress with `n` pebbles left is won after at most `n` of them.
pub proof fn game_ends_within_the_pile(game: PebbleGame, requests: Seq<(PebblesAction, Draws)>)
    requires
        game.wf(),
        all_moves(game, requests),
    ensures
        run(game, requests).max_pebbles_per_turn == game.max_pebbles_per_turn,
        run(game, requests).pebbles_count == game.pebbles_count,
        run(game, requests).pebbles_remaining + requests.len() <= game.pebbles_remaining,
        game.in_progress() && requests.len() == game.pebbles_remaining ==> run(
            game,
            requests,
        ).winner is Some,
    decreases requests.len(),
{
    if requests.len() > 0 {
        let before = run(game, requests.drop_last());
        game_ends_within_the_pile(game, requests.drop_last());
        play_keeps_invariant(game, requests.drop_last());
        move_shrinks_the_pile(before, requests.last().0, requests.last().1);
    }
}

/// The draw that a policy reads when it chooses the size of a turn.
pub open spec fn draw_read(difficulty: DifficultyLevel, draws: Draws) -> u32 {
    match difficulty {
        DifficultyLevel::Easy => draws.first,
        DifficultyLevel::Hard => draws.second,
    }
}

/// Every legal size of a turn can be drawn: under either policy, the draw
/// that is one less than a size between one and the limit yields that size.
/// Draws that leave the same remainder on division by the limit yield the
/// same size.
pub proof fn every_turn_size_can_be_drawn(
    difficulty: DifficultyLevel,
    max_per_turn: u32,
    size: u32,
    draws: Draws,
    other: Draws,
)
    requires
        1 <= size <= max_per_turn,
        draw_read(difficulty, draws) == size - 1,
        draw_read(difficulty, other) % max_per_turn == draw_read(difficulty, draws) % max_per_turn,
    ensures
        turn_size(difficulty, max_per_turn, draws) == size,
        turn_size(difficulty, max_per_turn, other) == size,
{
    vstd::arithmetic::div_mod::lemma_small_mod((size - 1) as nat, max_per_turn as nat);
}

/// A move depends on the draws only through the one draw its policy reads,
/// and on none at all where a turn may take one pebble only. The coin
/// matters to a restart alone, and only by being even or odd.
pub proof fn unread_draws_do_not_matter(
    game: PebbleGame,
    action: PebblesAction,
    draws: Draws,
    other: Draws,
)
    requires
        accepted(game, action),
        action is Restart ==> draws.coin % 2 == other.coin % 2,
        played(game, action).max_pebbles_per_turn == 1 || draw_read(
            played(game, action).difficulty,
            draws,
        ) == draw_read(played(game, action).difficulty, other),
    ensures
        after(game, action, draws) == after(game, action, other),
        answer(game, action, draws) == answer(game, action, other),
{
}

/// A request consumes the coin only if it opens a game, and besides the
/// coin as many draws as [`draws_consumed`] says, in the order `first`,
/// `second`: two sets of draws that agree on those lead to the same game and
/// the same answer. A refused request consumes none, nor does a turn that
/// wins, and a program move consumes two at most.
pub proof fn only_consumed_draws_matter(
    game: PebbleGame,
    action: PebblesAction,
    draws: Draws,
    other: Draws,
)
    requires
        tosses_coin(action) ==> draws.coin == other.coin,
        draws_consumed(game, action, draws.coin) >= 1 ==> draws.first == other.first,
        draws_consumed(game, action, draws.coin) >= 2 ==> draws.second == other.second,
    ensures
        after(game, action, draws) == after(game, action, other),
        answer(game, action, draws) == answer(game, action, other),
        draws_consumed(game, action, draws.coin) <= 2,
        !accepted(game, action) ==> !tosses_coin(action) && draws_consumed(
            game,
            action,
            draws.coin,
        ) == 0,
        answer(game, action, draws) == Ok::<PebblesEvent, GameError>(
            PebblesEvent::Won(Player::User),
        ) ==> draws_consumed(game, action, draws.coin) == 0,
{
}

/// A play is determined by where it starts, what is requested and what is
/// drawn: two plays that agree on these end in the same game, and every
/// request in them gets the same answer.
pub proof fn same_play_same_game(
    config: PebblesInit,
    first_draws: Draws,
    requests: Seq<(PebblesAction, Draws)>,
    again_config: PebblesInit,
    again_first_draws: Draws,
    again_requests: Seq<(PebblesAction, Draws)>,
)
    requires
        config == again_config,
        first_draws == again_first_draws,
        requests.len() == again_requests.len(),
        forall|i: int| 0 <= i < requests.len() ==> requests[i] == again_requests[i],
    ensures
        opening(config, first_draws) == opening(again_config, again_first_draws),
        opening_event(config, first_draws) == opening_event(again_config, again_first_draws),
        run(opening(config, first_draws), requests) == run(
            opening(again_config, again_first_draws),
            again_requests,
        ),
        forall|i: int|
            0 <= i < requests.len() ==> answer(
                run(opening(config, first_draws), requests.take(i)),
                requests[i].0,
                requests[i].1,
            ) == answer(
                run(opening(again_config, again_first_draws), again_requests.take(i)),
                again_requests[i].0,
                again_requests[i].1,
            ),
{
    assert(requests =~= again_requests);
}

} // verus!
