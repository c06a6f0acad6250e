use std::collections::VecDeque;

use snake::game::{GameEvent, GameState, RunningState};
use snake::geometry::{in_bounds, Direction, Point};
use snake::player::Player;

#[test]
fn fresh_game_is_paused() {
    let g = GameState::new();
    assert_eq!(g.running_state, RunningState::Paused);
    assert_eq!(g.input_direction, Direction::Right);
    assert_eq!(g.food.location, Point(3, 3));
    assert_eq!(g.player.score, 3);
}

#[test]
fn tick_moves_snake() {
    let mut g = GameState::new();
    g.process_events(GameEvent::TogglePause);
    assert_eq!(g.running_state, RunningState::Running);
    g.update();
    assert_eq!(
        g.player.body,
        VecDeque::from([Point(2, 1), Point(3, 1), Point(4, 1)])
    );
    assert_eq!(g.player.score, 3);
    assert_eq!(g.food.location, Point(3, 3));
    assert_eq!(g.running_state, RunningState::Running);
}

#[test]
fn tick_eats_and_respawns_food() {
    let mut g = GameState::new();
    g.process_events(GameEvent::TogglePause);
    g.food.location = Point(4, 1);
    g.update();
    assert_eq!(
        g.player.body,
        VecDeque::from([Point(1, 1), Point(2, 1), Point(3, 1), Point(4, 1)])
    );
    assert_eq!(g.player.score, 4);
    assert!(!g.player.contains(&g.food.location));
    assert!(in_bounds(&g.food.location));
}

#[test]
fn fatal_tick_exits() {
    let mut g = GameState::new();
    g.process_events(GameEvent::TogglePause);
    g.player = Player {
        body: VecDeque::from([Point(3, 1), Point(2, 1), Point(1, 1)]),
        direction: Direction::Left,
        alive: true,
        score: 3,
    };
    g.process_events(GameEvent::Move(Direction::Left));
    g.update();
    assert!(g.player.is_dead());
    assert_eq!(g.running_state, RunningState::Exit);
}

#[test]
fn directional_input_buffered_only_while_running() {
    let mut g = GameState::new();
    g.process_events(GameEvent::Move(Direction::Up));
    assert_eq!(g.input_direction, Direction::Right);
    g.process_events(GameEvent::TogglePause);
    g.process_events(GameEvent::Move(Direction::Up));
    assert_eq!(g.input_direction, Direction::Up);
}

#[test]
fn no_input_buffered_after_exit() {
    let mut g = GameState::new();
    g.process_events(GameEvent::Quit);
    assert_eq!(g.running_state, RunningState::Exit);
    g.process_events(GameEvent::Move(Direction::Down));
    assert_eq!(g.input_direction, Direction::Right);
}

#[test]
fn quit_works_from_every_state() {
    let mut paused = GameState::new();
    paused.process_events(GameEvent::Quit);
    assert_eq!(paused.running_state, RunningState::Exit);

    let mut running = GameState::new();
    running.process_events(GameEvent::TogglePause);
    running.process_events(GameEvent::Quit);
    assert_eq!(running.running_state, RunningState::Exit);
}

#[test]
fn toggle_switches_and_exit_is_terminal() {
    let mut g = GameState::new();
    g.process_events(GameEvent::TogglePause);
    assert_eq!(g.running_state, RunningState::Running);
    g.process_events(GameEvent::TogglePause);
    assert_eq!(g.running_state, RunningState::Paused);
    g.process_events(GameEvent::Quit);
    g.process_events(GameEvent::TogglePause);
    assert_eq!(g.running_state, RunningState::Exit);
}
