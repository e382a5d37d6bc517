use rusty_bird::bird::Bird;
use rusty_bird::game::{GameState, Input, RustyBird};
use rusty_bird::heights::HeightSource;
use rusty_bird::tuning::JUMP;

fn hover(game: &mut RustyBird) {
    if game.bird().bird_box.y > 760 {
        game.jump();
    }
}

fn positions(game: &RustyBird) -> Vec<i64> {
    game.pipe_manager().pipes.iter().map(|p| p.upper_pipe.x).collect()
}

#[test]
fn a_new_game_waits_at_the_start() {
    let game = RustyBird::new();
    assert_eq!(game.get_game_state(), GameState::Start);
    assert_eq!(game.get_score(), 0);
    assert_eq!(game.get_high_score(), 0);
    assert_eq!(game.get_time(), 0);
    assert_eq!(*game.bird(), Bird::new());
    assert!(game.pipe_manager().pipes.is_empty());
}

#[test]
fn play_starts_the_game() {
    let mut game = RustyBird::new();
    game.play_game();
    assert_eq!(game.get_game_state(), GameState::Playing);
}

#[test]
fn nothing_moves_before_play() {
    let mut source = HeightSource::from_seed(3);
    let mut game = RustyBird::new();
    game.jump();
    assert_eq!(game.bird().speed, 0);
    assert_eq!(game.update(&mut source), GameState::Start);
    assert_eq!(game.step(600), GameState::Start);
    assert_eq!(game.get_time(), 0);
    assert_eq!(*game.bird(), Bird::new());
}

#[test]
fn jump_works_while_playing() {
    let mut game = RustyBird::new();
    game.play_game();
    game.jump();
    assert_eq!(game.bird().speed, JUMP);
    game.step(600);
    assert_eq!(game.bird().speed, -17);
    assert_eq!(game.bird().bird_box.y, 823);
    game.jump();
    assert_eq!(game.bird().speed, JUMP);
}

#[test]
fn play_does_not_restart_a_running_game() {
    let mut game = RustyBird::new();
    game.play_game();
    game.step(600);
    game.play_game();
    assert_eq!(game.get_game_state(), GameState::Playing);
    assert_eq!(game.get_time(), 1);
}

#[test]
fn the_floor_ends_the_game() {
    let mut source = HeightSource::from_seed(3);
    let mut game = RustyBird::new();
    game.play_game();
    for tick in 1..=38 {
        assert_eq!(game.update(&mut source), GameState::Playing);
        assert_eq!(game.get_time(), tick);
    }
    assert_eq!(game.update(&mut source), GameState::Over);
    assert_eq!(game.get_time(), 39);
    assert!(game.bird().dead);
    assert_eq!(game.get_score(), 0);
    assert_eq!(game.get_high_score(), 0);
}

#[test]
fn a_finished_game_ignores_ticks_jumps_and_play() {
    let mut source = HeightSource::from_seed(3);
    let mut game = RustyBird::new();
    game.play_game();
    for _ in 0..39 {
        game.update(&mut source);
    }
    assert_eq!(game.get_game_state(), GameState::Over);
    let bird = *game.bird();
    game.jump();
    game.play_game();
    assert_eq!(game.update(&mut source), GameState::Over);
    assert_eq!(game.step(600), GameState::Over);
    assert_eq!(game.get_time(), 39);
    assert_eq!(*game.bird(), bird);
}

#[test]
fn play_jump_and_eighty_ticks() {
    let mut source = HeightSource::from_seed(3);
    let mut game = RustyBird::new();
    game.play_game();
    game.jump();
    let mut died_at = None;
    for tick in 1..=80 {
        let state = game.update(&mut source);
        if state == GameState::Over && died_at.is_none() {
            died_at = Some(tick);
            assert_eq!(game.get_high_score(), game.get_score());
        }
    }
    assert_eq!(died_at, Some(60));
    assert_eq!(game.get_game_state(), GameState::Over);
    assert_eq!(game.get_high_score(), game.get_score());
    assert_eq!(game.get_score(), 0);
    assert_eq!(game.get_time(), 60);
    assert!(game.pipe_manager().pipes.is_empty());
}

#[test]
fn a_pipe_appears_on_tick_eighty() {
    let mut source = HeightSource::from_seed(3);
    let mut game = RustyBird::new();
    game.play_game();
    for _ in 0..79 {
        hover(&mut game);
        assert_eq!(game.update(&mut source), GameState::Playing);
        assert!(game.pipe_manager().pipes.is_empty());
    }
    hover(&mut game);
    assert_eq!(game.update(&mut source), GameState::Playing);
    assert_eq!(game.get_time(), 80);
    assert_eq!(positions(&game), vec![3592]);
    assert!(!game.pipe_manager().pipes[0].passed);
}

#[test]
fn the_given_height_is_used_on_spawn_ticks_only() {
    let mut game = RustyBird::new();
    game.play_game();
    for tick in 1..=160 {
        hover(&mut game);
        game.step(if tick == 80 { 440 } else { 880 });
    }
    assert_eq!(positions(&game), vec![2952, 3592]);
    assert_eq!(game.pipe_manager().pipes[0].upper_pipe.h, 440);
    assert_eq!(game.pipe_manager().pipes[1].upper_pipe.h, 880);
}

#[test]
fn each_pipe_left_behind_scores_once() {
    let mut game = RustyBird::new();
    game.play_game();
    let mut scored_at = Vec::new();
    for tick in 1..=2000i32 {
        hover(&mut game);
        let before = game.get_score();
        assert_eq!(game.step(600), GameState::Playing);
        let after = game.get_score();
        assert!(after == before || after == before + 1);
        if after == before + 1 {
            scored_at.push(tick);
        }
        let passed = game.pipe_manager().pipes.iter().filter(|p| p.passed).count();
        assert!(passed <= 1);
        for pair in positions(&game).windows(2) {
            assert_eq!(pair[1] - pair[0], 640);
        }
        if tick >= 80 {
            let newest = *positions(&game).last().unwrap();
            assert_eq!(newest, 3600 - 8 * (i64::from(tick) % 80 + 1));
        }
    }
    assert_eq!(game.get_score(), 19);
    assert_eq!(scored_at.len(), 19);
    assert_eq!(scored_at[0], 525);
    assert_eq!(scored_at[1], 605);
    assert_eq!(scored_at[18], 525 + 18 * 80);
    assert_eq!(game.get_high_score(), 0);
    assert_eq!(positions(&game), vec![-248, 392, 1032, 1672, 2312, 2952, 3592]);
    let flags: Vec<bool> = game.pipe_manager().pipes.iter().map(|p| p.passed).collect();
    assert_eq!(flags, vec![true, false, false, false, false, false, false]);
}

#[test]
fn the_bird_crashes_into_a_pipe_as_soon_as_it_reaches_it() {
    let mut game = RustyBird::new();
    game.play_game();
    for _ in 0..481 {
        hover(&mut game);
        assert_eq!(game.step(880), GameState::Playing);
    }
    assert_eq!(positions(&game)[0], 384);
    assert_eq!(game.bird().bird_box.right(), 376);
    hover(&mut game);
    assert_eq!(game.step(880), GameState::Over);
    assert_eq!(game.get_time(), 482);
    assert_eq!(positions(&game)[0], 376);
    assert_eq!(game.bird().bird_box.right(), 376);
    assert_eq!(game.bird().bird_box.y, 634);
    assert!(!game.bird().dead);
    assert_eq!(game.get_score(), 0);
    assert_eq!(game.get_high_score(), 0);
    assert!(!game.pipe_manager().pipes[0].passed);
}

#[test]
fn a_pipe_whose_edge_is_reached_in_the_gap_does_not_end_the_game() {
    let mut game = RustyBird::new();
    game.play_game();
    for _ in 0..482 {
        hover(&mut game);
        assert_eq!(game.step(600), GameState::Playing);
    }
    assert_eq!(positions(&game)[0], 376);
    assert_eq!(game.bird().bird_box.right(), 376);
}

#[test]
fn the_high_score_is_the_best_score_at_a_death() {
    let mut game = RustyBird::new();
    game.play_game();
    for _ in 0..700 {
        hover(&mut game);
        game.step(600);
    }
    assert_eq!(game.get_score(), 3);
    assert_eq!(game.get_high_score(), 0);
    while game.get_game_state() == GameState::Playing {
        game.step(600);
    }
    assert_eq!(game.get_score(), 3);
    assert_eq!(game.get_high_score(), 3);

    game.reset_game();
    assert_eq!(game.get_high_score(), 3);
    game.play_game();
    for _ in 0..530 {
        hover(&mut game);
        game.step(600);
    }
    assert_eq!(game.get_score(), 1);
    while game.get_game_state() == GameState::Playing {
        game.step(600);
    }
    assert_eq!(game.get_score(), 1);
    assert_eq!(game.get_high_score(), 3);
}

#[test]
fn reset_leads_back_to_the_start_and_keeps_the_high_score() {
    let mut game = RustyBird::new();
    game.play_game();
    for _ in 0..530 {
        hover(&mut game);
        game.step(600);
    }
    while game.get_game_state() == GameState::Playing {
        game.step(600);
    }
    assert_eq!(game.get_high_score(), 1);
    game.reset_game();
    assert_eq!(game.get_game_state(), GameState::Start);
    assert_eq!(game.get_score(), 0);
    assert_eq!(game.get_time(), 0);
    assert_eq!(game.get_high_score(), 1);
    assert_eq!(*game.bird(), Bird::new());
    assert!(game.pipe_manager().pipes.is_empty());
}

#[test]
fn reset_twice_is_reset_once() {
    let mut game = RustyBird::new();
    game.play_game();
    for _ in 0..530 {
        hover(&mut game);
        game.step(600);
    }
    while game.get_game_state() == GameState::Playing {
        game.step(600);
    }
    game.reset_game();
    let once = (
        game.get_game_state(),
        game.get_score(),
        game.get_high_score(),
        game.get_time(),
        *game.bird(),
        game.pipe_manager().clone(),
    );
    game.reset_game();
    let twice = (
        game.get_game_state(),
        game.get_score(),
        game.get_high_score(),
        game.get_time(),
        *game.bird(),
        game.pipe_manager().clone(),
    );
    assert_eq!(once, twice);
}

#[test]
fn reset_works_in_every_state() {
    let mut game = RustyBird::new();
    game.reset_game();
    assert_eq!(game.get_game_state(), GameState::Start);
    game.play_game();
    game.jump();
    game.step(600);
    game.reset_game();
    assert_eq!(game.get_game_state(), GameState::Start);
    assert_eq!(game.get_time(), 0);
    assert_eq!(*game.bird(), Bird::new());
}

#[test]
fn the_action_key_starts_a_game_and_does_no_more() {
    let mut source = HeightSource::from_seed(3);
    let mut game = RustyBird::new();
    assert_eq!(game.handle(Input::Action, &mut source), GameState::Playing);
    assert_eq!(game.bird().speed, 0);
    assert_eq!(*game.bird(), Bird::new());
    assert_eq!(game.get_time(), 0);
    assert_eq!(game.handle(Input::Action, &mut source), GameState::Playing);
    assert_eq!(game.bird().speed, JUMP);
}

#[test]
fn the_action_key_makes_the_bird_jump_while_playing() {
    let mut source = HeightSource::from_seed(3);
    let mut game = RustyBird::new();
    game.play_game();
    game.step(600);
    assert_eq!(game.bird().speed, 1);
    assert_eq!(game.handle(Input::Action, &mut source), GameState::Playing);
    assert_eq!(game.bird().speed, JUMP);
    assert_eq!(game.get_time(), 1);
}

#[test]
fn the_action_key_leads_from_a_finished_game_to_a_new_one() {
    let mut source = HeightSource::from_seed(3);
    let mut game = RustyBird::new();
    game.play_game();
    while game.get_game_state() == GameState::Playing {
        game.handle(Input::Tick, &mut source);
    }
    assert_eq!(game.get_game_state(), GameState::Over);
    assert_eq!(game.get_time(), 39);
    assert_eq!(game.handle(Input::Action, &mut source), GameState::Start);
    assert_eq!(game.get_time(), 0);
    assert_eq!(*game.bird(), Bird::new());
}

#[test]
fn a_tick_input_is_a_tick() {
    let mut source = HeightSource::from_seed(3);
    let mut game = RustyBird::new();
    assert_eq!(game.handle(Input::Tick, &mut source), GameState::Start);
    assert_eq!(game.get_time(), 0);
    game.handle(Input::Action, &mut source);
    assert_eq!(game.handle(Input::Tick, &mut source), GameState::Playing);
    assert_eq!(game.get_time(), 1);
    assert_eq!(game.bird().speed, 1);
    assert_eq!(game.bird().bird_box.y, 841);
    game.handle(Input::Action, &mut source);
    assert_eq!(game.handle(Input::Tick, &mut source), GameState::Playing);
    assert_eq!(game.get_time(), 2);
    assert_eq!(game.bird().speed, -17);
    assert_eq!(game.bird().bird_box.y, 824);
}

#[test]
fn restart_leads_to_a_new_game_from_every_state() {
    let mut source = HeightSource::from_seed(3);
    let mut game = RustyBird::new();
    assert_eq!(game.handle(Input::Restart, &mut source), GameState::Start);
    game.handle(Input::Action, &mut source);
    game.handle(Input::Tick, &mut source);
    assert_eq!(game.handle(Input::Restart, &mut source), GameState::Start);
    assert_eq!(game.get_time(), 0);
    assert_eq!(*game.bird(), Bird::new());
}

#[test]
fn the_same_seed_gives_the_same_game() {
    let mut first_source = HeightSource::from_seed(99);
    let mut second_source = HeightSource::from_seed(99);
    let mut first = RustyBird::new();
    let mut second = RustyBird::new();
    first.play_game();
    second.play_game();
    for _ in 0..1000 {
        hover(&mut first);
        hover(&mut second);
        assert_eq!(first.update(&mut first_source), second.update(&mut second_source));
        assert_eq!(first.pipe_manager(), second.pipe_manager());
        assert_eq!(first.bird(), second.bird());
        assert_eq!(first.get_score(), second.get_score());
    }
    assert!(first.get_time() >= 80);
}

#[test]
fn a_tick_outside_a_running_game_is_no_tick() {
    let mut source = HeightSource::from_seed(3);
    let mut game = RustyBird::new();
    for _ in 0..100 {
        assert_eq!(game.update(&mut source), GameState::Start);
    }
    assert_eq!(game.get_time(), 0);
    assert!(game.pipe_manager().pipes.is_empty());
}
