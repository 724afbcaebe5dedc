use pebbles_game::{
    coin_needed, draws_needed, handle, init, state, DifficultyLevel, Draws, GameError,
    PebbleGame, PebblesAction, PebblesEvent, PebblesInit, Player,
};

fn config(total: u32, max: u32) -> PebblesInit {
    PebblesInit { difficulty: DifficultyLevel::Easy, pebbles_count: total, max_pebbles_per_turn: max }
}

fn draws(coin: u32, first: u32, second: u32) -> Draws {
    Draws { coin, first, second }
}

fn restart(total: u32, max: u32) -> PebblesAction {
    PebblesAction::Restart {
        difficulty: DifficultyLevel::Easy,
        pebbles_count: total,
        max_pebbles_per_turn: max,
    }
}

/// A fixed sequence of draws: the same numbers in every run.
fn fixed_draws(index: u32) -> Draws {
    let base: u32 = index.wrapping_mul(2_654_435_761).wrapping_add(40_503);
    Draws { coin: base >> 7, first: base.rotate_left(11) ^ 0x5bd1_e995, second: base.rotate_right(5) }
}

fn holds_invariant(game: &PebbleGame) -> bool {
    game.pebbles_remaining <= game.pebbles_count
        && game.max_pebbles_per_turn <= game.pebbles_count
        && (game.max_pebbles_per_turn >= 1 || game.pebbles_count == 0)
        && game.program_lastmove <= game.max_pebbles_per_turn
        && game.program_lastmove + game.pebbles_remaining <= game.pebbles_count
        && game.winner.is_some() == (game.max_pebbles_per_turn >= 1 && game.pebbles_remaining == 0)
}

#[test]
fn init_with_the_user_opening() {
    let (game, event) = init(config(10, 9), draws(0, 3, 3)).unwrap();
    assert_eq!(event, PebblesEvent::CounterTurn(0));
    assert_eq!(
        game,
        PebbleGame {
            pebbles_count: 10,
            max_pebbles_per_turn: 9,
            pebbles_remaining: 10,
            program_lastmove: 0,
            difficulty: DifficultyLevel::Easy,
            first_player: Player::User,
            winner: None,
        }
    );
}

#[test]
fn init_with_the_program_opening() {
    let (game, event) = init(config(10, 9), draws(1, 12, 0)).unwrap();
    assert_eq!(event, PebblesEvent::CounterTurn(4));
    assert_eq!(
        game,
        PebbleGame {
            pebbles_count: 10,
            max_pebbles_per_turn: 9,
            pebbles_remaining: 6,
            program_lastmove: 4,
            difficulty: DifficultyLevel::Easy,
            first_player: Player::Program,
            winner: None,
        }
    );
}

#[test]
fn init_rejects_a_turn_limit_beyond_the_pile() {
    assert_eq!(init(config(10, 11), draws(0, 0, 0)), Err(GameError::InvalidConfig));
    assert_eq!(init(config(10, 11), draws(1, 0, 0)), Err(GameError::InvalidConfig));
    assert_eq!(init(config(0, 1), draws(0, 0, 0)), Err(GameError::InvalidConfig));
    assert_eq!(init(config(u32::MAX - 1, u32::MAX), draws(0, 0, 0)), Err(GameError::InvalidConfig));
}

#[test]
fn init_rejects_a_turn_limit_of_zero() {
    assert_eq!(init(config(10, 0), draws(0, 0, 0)), Err(GameError::InvalidConfig));
    assert_eq!(init(config(10, 0), draws(1, 0, 0)), Err(GameError::InvalidConfig));
    assert_eq!(init(config(0, 0), draws(0, 0, 0)), Err(GameError::InvalidConfig));
}

#[test]
fn init_accepts_a_turn_limit_equal_to_the_pile() {
    let (game, event) = init(config(10, 10), draws(1, 9, 0)).unwrap();
    assert_eq!(event, PebblesEvent::Won(Player::Program));
    assert_eq!(game.pebbles_remaining, 0);
    assert_eq!(game.program_lastmove, 10);
    assert_eq!(game.winner, Some(Player::Program));
    let (game, event) = init(config(u32::MAX, u32::MAX), draws(2, 9, 0)).unwrap();
    assert_eq!(event, PebblesEvent::CounterTurn(0));
    assert_eq!(game.pebbles_remaining, u32::MAX);
}

#[test]
fn init_of_the_smallest_game() {
    let (game, event) = init(config(1, 1), draws(0, 0, 0)).unwrap();
    assert_eq!(event, PebblesEvent::CounterTurn(0));
    assert_eq!(game.pebbles_remaining, 1);
    assert_eq!(game.winner, None);
    let (game, event) = init(config(1, 1), draws(1, 0, 0)).unwrap();
    assert_eq!(event, PebblesEvent::Won(Player::Program));
    assert_eq!(game.pebbles_remaining, 0);
    assert_eq!(game.winner, Some(Player::Program));
}

#[test]
fn init_with_the_hard_policy() {
    let hard = PebblesInit {
        difficulty: DifficultyLevel::Hard,
        pebbles_count: 30,
        max_pebbles_per_turn: 7,
    };
    let (game, event) = init(hard, draws(1, 3, 12)).unwrap();
    assert_eq!(event, PebblesEvent::CounterTurn(6));
    assert_eq!(game.pebbles_remaining, 24);
    assert_eq!(game.difficulty, DifficultyLevel::Hard);
}

#[test]
fn bad_turns_leave_the_pile_alone() {
    let (mut game, _) = init(config(5, 2), draws(0, 0, 0)).unwrap();
    let before = game;
    assert_eq!(handle(&mut game, PebblesAction::Turn(0), draws(1, 1, 1)), Err(GameError::InvalidMove));
    assert_eq!(game.pebbles_remaining, 5);
    assert_eq!(handle(&mut game, PebblesAction::Turn(3), draws(1, 1, 1)), Err(GameError::InvalidMove));
    assert_eq!(game.pebbles_remaining, 5);
    assert_eq!(game, before);
}

#[test]
fn refused_request_keeps_the_record_of_the_last_move() {
    let (mut game, _) = init(config(5, 2), draws(1, 1, 0)).unwrap();
    assert_eq!(game.program_lastmove, 2);
    let before = game;
    assert_eq!(handle(&mut game, PebblesAction::Turn(3), draws(1, 1, 1)), Err(GameError::InvalidMove));
    assert_eq!(game, before);
    assert_eq!(handle(&mut game, restart(1, 2), draws(1, 1, 1)), Err(GameError::InvalidConfig));
    assert_eq!(game, before);
    assert_eq!(game.program_lastmove, 2);
}

#[test]
fn accepted_request_erases_the_record_of_the_last_move() {
    let (mut game, _) = init(config(5, 3), draws(1, 2, 0)).unwrap();
    assert_eq!(game.program_lastmove, 3);
    assert_eq!(game.pebbles_remaining, 2);
    assert_eq!(
        handle(&mut game, PebblesAction::Turn(2), draws(1, 1, 1)),
        Ok(PebblesEvent::Won(Player::User))
    );
    assert_eq!(game.program_lastmove, 0);
    assert_eq!(game.winner, Some(Player::User));
}

#[test]
fn requests_before_any_configuration() {
    let mut game = PebbleGame::default();
    assert_eq!(handle(&mut game, PebblesAction::Turn(1), draws(1, 1, 1)), Err(GameError::InvalidMove));
    assert_eq!(handle(&mut game, PebblesAction::GiveUp, draws(1, 1, 1)), Err(GameError::InvalidConfig));
    assert_eq!(game, PebbleGame::default());
    assert_eq!(handle(&mut game, restart(4, 2), draws(1, 1, 1)), Ok(PebblesEvent::CounterTurn(2)));
    assert_eq!(game.pebbles_remaining, 2);
    assert_eq!(game.first_player, Player::Program);
}

#[test]
fn give_up_lets_the_program_move() {
    let (mut game, _) = init(config(99, 3), draws(0, 0, 0)).unwrap();
    assert_eq!(handle(&mut game, PebblesAction::GiveUp, draws(0, 5, 0)), Ok(PebblesEvent::CounterTurn(3)));
    assert_eq!(game.pebbles_remaining, 96);
    assert_eq!(game.program_lastmove, 3);
    assert_eq!(handle(&mut game, PebblesAction::GiveUp, draws(0, 6, 0)), Ok(PebblesEvent::CounterTurn(1)));
    assert_eq!(game.pebbles_remaining, 95);
    assert_eq!(game.program_lastmove, 1);
}

#[test]
fn program_move_never_overdraws() {
    let (mut game, _) = init(config(4, 3), draws(0, 0, 0)).unwrap();
    assert_eq!(handle(&mut game, PebblesAction::Turn(3), draws(0, 2, 0)), Ok(PebblesEvent::Won(Player::Program)));
    assert_eq!(game.pebbles_remaining, 0);
    assert_eq!(game.program_lastmove, 1);
    assert_eq!(game.winner, Some(Player::Program));
}

#[test]
fn no_turn_after_the_end() {
    let (mut game, _) = init(config(2, 2), draws(0, 0, 0)).unwrap();
    assert_eq!(handle(&mut game, PebblesAction::Turn(2), draws(0, 0, 0)), Ok(PebblesEvent::Won(Player::User)));
    let won = game;
    assert_eq!(handle(&mut game, PebblesAction::Turn(1), draws(0, 0, 0)), Err(GameError::InvalidMove));
    assert_eq!(game, won);
    assert_eq!(game.winner, Some(Player::User));
}

#[test]
fn give_up_after_the_end_is_refused() {
    let (mut game, _) = init(config(1, 1), draws(0, 0, 0)).unwrap();
    assert_eq!(handle(&mut game, PebblesAction::Turn(1), draws(0, 0, 0)), Ok(PebblesEvent::Won(Player::User)));
    let won = game;
    assert_eq!(handle(&mut game, PebblesAction::GiveUp, draws(0, 1, 0)), Err(GameError::InvalidMove));
    assert_eq!(game, won);
    assert_eq!(game.winner, Some(Player::User));
    assert_eq!(game.pebbles_remaining, 0);

    let (mut game, event) = init(config(2, 2), draws(1, 1, 0)).unwrap();
    assert_eq!(event, PebblesEvent::Won(Player::Program));
    let won = game;
    assert_eq!(handle(&mut game, PebblesAction::GiveUp, draws(0, 1, 0)), Err(GameError::InvalidMove));
    assert_eq!(game, won);
    assert_eq!(game.winner, Some(Player::Program));
    assert_eq!(game.program_lastmove, 2);
}

#[test]
fn winner_is_kept_until_a_restart() {
    let (mut game, _) = init(config(2, 2), draws(0, 0, 0)).unwrap();
    assert_eq!(handle(&mut game, PebblesAction::Turn(2), draws(0, 0, 0)), Ok(PebblesEvent::Won(Player::User)));
    let won = game;
    for step in 0..50u32 {
        let action = if step % 2 == 0 { PebblesAction::GiveUp } else { PebblesAction::Turn(step % 4) };
        assert_eq!(handle(&mut game, action, fixed_draws(step)), Err(GameError::InvalidMove));
        assert_eq!(game, won);
    }
    assert_eq!(handle(&mut game, restart(5, 2), draws(0, 0, 0)), Ok(PebblesEvent::CounterTurn(0)));
    assert_eq!(game.winner, None);
    assert_eq!(game.pebbles_remaining, 5);
}

#[test]
fn restart_after_any_game() {
    let (mut won_by_user, _) = init(config(1, 1), draws(0, 0, 0)).unwrap();
    assert_eq!(
        handle(&mut won_by_user, PebblesAction::Turn(1), draws(0, 0, 0)),
        Ok(PebblesEvent::Won(Player::User))
    );
    let (mut won_by_program, _) = init(config(1, 1), draws(1, 0, 0)).unwrap();
    assert_eq!(won_by_program.winner, Some(Player::Program));
    let (mut running, _) = init(config(70, 8), draws(1, 4, 0)).unwrap();
    let mut blank = PebbleGame::default();

    let mut after: Vec<PebbleGame> = Vec::new();
    for game in [&mut won_by_user, &mut won_by_program, &mut running, &mut blank] {
        let res = handle(game, restart(50, 3), draws(3, 7, 0));
        assert_eq!(res, Ok(PebblesEvent::CounterTurn(2)));
        assert_eq!(game.pebbles_count, 50);
        assert_eq!(game.max_pebbles_per_turn, 3);
        assert_eq!(game.winner, None);
        assert_eq!(game.pebbles_remaining, 48);
        after.push(*game);
    }
    assert!(after.iter().all(|game| *game == after[0]));
}

#[test]
fn game_of_three_single_pebbles_ends_within_three_removals() {
    for coin in [0u32, 1] {
        let (mut game, mut event) = init(config(3, 1), draws(coin, 17, 23)).unwrap();
        let mut requests: u32 = 0;
        while game.winner.is_none() {
            event = handle(&mut game, PebblesAction::Turn(1), fixed_draws(requests)).unwrap();
            requests += 1;
            assert!(requests <= 3);
        }
        assert_eq!(game.pebbles_remaining, 0);
        assert_eq!(game.pebbles_count - game.pebbles_remaining, 3);
        if coin == 0 {
            assert_eq!(requests, 2);
            assert_eq!(event, PebblesEvent::Won(Player::User));
        } else {
            assert_eq!(requests, 1);
            assert_eq!(event, PebblesEvent::Won(Player::Program));
        }
    }
}

#[test]
fn every_accepted_move_shrinks_the_pile() {
    let (mut game, _) = init(config(1000, 7), fixed_draws(0)).unwrap();
    let mut moves: u32 = 0;
    while game.winner.is_none() {
        let before: u32 = game.pebbles_remaining;
        let action = if moves % 3 == 0 { PebblesAction::GiveUp } else { PebblesAction::Turn(1) };
        assert!(handle(&mut game, action, fixed_draws(moves + 1)).is_ok());
        assert!(game.pebbles_remaining < before);
        moves += 1;
        assert!(moves <= 1000);
    }
    assert_eq!(game.pebbles_remaining, 0);
}

#[test]
fn play_keeps_the_invariant() {
    let mut game = PebbleGame::default();
    assert!(holds_invariant(&game));
    for step in 0..2000u32 {
        let d: Draws = fixed_draws(step);
        let action = match d.first % 7 {
            0 => PebblesAction::GiveUp,
            1 => PebblesAction::Restart {
                difficulty: if d.second % 2 == 0 { DifficultyLevel::Easy } else { DifficultyLevel::Hard },
                pebbles_count: d.second % 40,
                max_pebbles_per_turn: d.coin % 12,
            },
            _ => PebblesAction::Turn(d.second % 5),
        };
        let before = game;
        let res = handle(&mut game, action, d);
        assert!(holds_invariant(&game));
        if res.is_err() {
            assert_eq!(game, before);
        }
        if before.winner.is_some() && !matches!(action, PebblesAction::Restart { .. }) {
            assert_eq!(res, Err(GameError::InvalidMove));
            assert_eq!(game.winner, before.winner);
        }
        if res.is_ok() && !matches!(action, PebblesAction::Restart { .. }) {
            assert!(game.pebbles_remaining < before.pebbles_remaining);
        }
        match res {
            Ok(PebblesEvent::Won(player)) => {
                assert_eq!(game.pebbles_remaining, 0);
                assert_eq!(game.winner, Some(player));
            }
            Ok(PebblesEvent::CounterTurn(count)) => {
                assert_eq!(game.program_lastmove, count);
                assert_eq!(game.winner, None);
                assert!(game.pebbles_remaining > 0);
            }
            Err(_) => {}
        }
    }
}

#[test]
fn same_draws_same_game() {
    let mut finals: Vec<PebbleGame> = Vec::new();
    let mut replies: Vec<Vec<Result<PebblesEvent, GameError>>> = Vec::new();
    for _ in 0..3 {
        let (mut game, event) = init(config(60, 4), fixed_draws(0)).unwrap();
        let mut log: Vec<Result<PebblesEvent, GameError>> = vec![Ok(event)];
        let actions = [
            PebblesAction::Turn(2),
            PebblesAction::Turn(5),
            PebblesAction::GiveUp,
            PebblesAction::Turn(4),
            restart(20, 21),
            PebblesAction::Turn(1),
            restart(30, 6),
            PebblesAction::Turn(6),
            PebblesAction::GiveUp,
        ];
        for (index, action) in actions.iter().enumerate() {
            log.push(handle(&mut game, *action, fixed_draws(index as u32 + 1)));
        }
        finals.push(game);
        replies.push(log);
    }
    assert_eq!(finals[0], finals[1]);
    assert_eq!(finals[0], finals[2]);
    assert_eq!(replies[0], replies[1]);
    assert_eq!(replies[0], replies[2]);
    assert_eq!(replies[0][2], Err(GameError::InvalidMove));
    assert_eq!(replies[0][5], Err(GameError::InvalidConfig));
    assert_eq!(finals[0].pebbles_count, 30);
}

#[test]
fn state_query_copies_the_game() {
    let blank = PebbleGame::default();
    assert_eq!(state(&blank), PebbleGame::default());
    let (mut game, _) = init(config(9, 4), draws(1, 6, 0)).unwrap();
    assert_eq!(state(&game), game);
    assert_eq!(state(&game).program_lastmove, 3);
    assert_eq!(state(&game).pebbles_remaining, 6);
    let before = game;
    let _ = state(&game);
    assert_eq!(game, before);
    assert_eq!(handle(&mut game, PebblesAction::Turn(4), draws(0, 8, 0)), Ok(PebblesEvent::CounterTurn(1)));
    assert_eq!(
        state(&game),
        PebbleGame {
            pebbles_count: 9,
            max_pebbles_per_turn: 4,
            pebbles_remaining: 1,
            program_lastmove: 1,
            difficulty: DifficultyLevel::Easy,
            first_player: Player::Program,
            winner: None,
        }
    );
}

fn playing(difficulty: DifficultyLevel, total: u32, max: u32, remaining: u32) -> PebbleGame {
    PebbleGame {
        pebbles_count: total,
        max_pebbles_per_turn: max,
        pebbles_remaining: remaining,
        program_lastmove: 0,
        difficulty,
        first_player: Player::User,
        winner: None,
    }
}

#[test]
fn coin_is_tossed_for_an_accepted_restart_only() {
    assert!(coin_needed(&restart(10, 3)));
    assert!(coin_needed(&restart(1, 1)));
    assert!(coin_needed(&restart(u32::MAX, u32::MAX)));
    assert!(!coin_needed(&restart(10, 11)));
    assert!(!coin_needed(&restart(10, 0)));
    assert!(!coin_needed(&restart(0, 0)));
    assert!(!coin_needed(&PebblesAction::GiveUp));
    assert!(!coin_needed(&PebblesAction::Turn(1)));
}

#[test]
fn program_move_consumes_one_draw_when_easy_and_two_when_hard() {
    let easy = playing(DifficultyLevel::Easy, 10, 3, 10);
    let hard = playing(DifficultyLevel::Hard, 10, 3, 10);
    assert_eq!(draws_needed(&easy, &PebblesAction::GiveUp, 0), 1);
    assert_eq!(draws_needed(&hard, &PebblesAction::GiveUp, 0), 2);
    assert_eq!(draws_needed(&easy, &PebblesAction::Turn(2), 0), 1);
    assert_eq!(draws_needed(&hard, &PebblesAction::Turn(2), 0), 2);
}

#[test]
fn program_move_consumes_no_draw_when_one_is_the_limit() {
    let easy = playing(DifficultyLevel::Easy, 10, 1, 10);
    let hard = playing(DifficultyLevel::Hard, 10, 1, 10);
    assert_eq!(draws_needed(&easy, &PebblesAction::GiveUp, 0), 0);
    assert_eq!(draws_needed(&hard, &PebblesAction::Turn(1), 0), 0);
    assert_eq!(draws_needed(&hard, &restart(3, 1), 1), 0);
}

#[test]
fn refused_or_winning_request_consumes_no_draw() {
    let game = playing(DifficultyLevel::Hard, 10, 3, 2);
    assert_eq!(draws_needed(&game, &PebblesAction::Turn(0), 0), 0);
    assert_eq!(draws_needed(&game, &PebblesAction::Turn(3), 0), 0);
    assert_eq!(draws_needed(&game, &PebblesAction::Turn(4), 0), 0);
    assert_eq!(draws_needed(&game, &PebblesAction::Turn(2), 0), 0);
    assert_eq!(draws_needed(&game, &PebblesAction::Turn(1), 0), 2);
    let over = PebbleGame { winner: Some(Player::User), ..playing(DifficultyLevel::Hard, 10, 3, 0) };
    assert_eq!(draws_needed(&over, &PebblesAction::GiveUp, 1), 0);
    assert_eq!(draws_needed(&over, &PebblesAction::Turn(1), 1), 0);
    assert_eq!(draws_needed(&PebbleGame::default(), &PebblesAction::GiveUp, 1), 0);
    assert_eq!(draws_needed(&game, &restart(10, 11), 1), 0);
}

#[test]
fn restart_consumes_draws_when_the_program_opens() {
    let game = playing(DifficultyLevel::Easy, 10, 3, 2);
    let hard = PebblesAction::Restart {
        difficulty: DifficultyLevel::Hard,
        pebbles_count: 9,
        max_pebbles_per_turn: 4,
    };
    assert_eq!(draws_needed(&game, &restart(9, 4), 6), 0);
    assert_eq!(draws_needed(&game, &restart(9, 4), 7), 1);
    assert_eq!(draws_needed(&game, &hard, 6), 0);
    assert_eq!(draws_needed(&game, &hard, 7), 2);
}

#[test]
fn draws_that_are_not_consumed_do_not_matter() {
    let mut full = PebbleGame::default();
    let mut lazy = PebbleGame::default();
    let mut consumed: u32 = 0;
    for step in 0..2000u32 {
        let d: Draws = fixed_draws(step);
        let action = match d.first % 7 {
            0 => PebblesAction::GiveUp,
            1 => PebblesAction::Restart {
                difficulty: if d.second % 2 == 0 { DifficultyLevel::Easy } else { DifficultyLevel::Hard },
                pebbles_count: d.second % 40,
                max_pebbles_per_turn: d.coin % 12,
            },
            _ => PebblesAction::Turn(d.second % 5),
        };
        let coin: u32 = if coin_needed(&action) { d.coin } else { 0 };
        let count: u32 = draws_needed(&lazy, &action, coin);
        assert!(count <= 2);
        consumed += count;
        let sparse = Draws {
            coin,
            first: if count >= 1 { d.first } else { 0 },
            second: if count >= 2 { d.second } else { 0 },
        };
        let res_full = handle(&mut full, action, d);
        let res_lazy = handle(&mut lazy, action, sparse);
        assert_eq!(res_full, res_lazy);
        assert_eq!(full, lazy);
        if res_full.is_err() || res_full == Ok(PebblesEvent::Won(Player::User)) {
            assert_eq!(count, 0);
        }
    }
    assert!(consumed > 0);
}
