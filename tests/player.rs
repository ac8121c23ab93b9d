use arcade::player::{ai_action, movement_direction, next_game_state, GameState, PlayerInput};
use arcade::walker::{next_walk_state, player_animations, walk, walk_direction, PlayerDir, PlayerState};

#[test]
fn movement_from_keys() {
    assert_eq!(movement_direction(true, false), 1);
    assert_eq!(movement_direction(false, true), -1);
    assert_eq!(movement_direction(true, true), 1);
    assert_eq!(movement_direction(false, false), 0);
}

#[test]
fn ai_follows_mean_of_discs() {
    assert_eq!(ai_action(0, &vec![]), None);
    assert_eq!(ai_action(10, &vec![0, 10]), Some(PlayerInput::Down));
    assert_eq!(ai_action(4, &vec![0, 10]), Some(PlayerInput::Up));
    assert_eq!(ai_action(5, &vec![0, 10]), None);
    assert_eq!(ai_action(1, &vec![1, 2]), Some(PlayerInput::Up));
    assert_eq!(ai_action(i32::MAX, &vec![i32::MAX, i32::MAX, i32::MAX]), None);
}

#[test]
fn pause_toggles() {
    assert_eq!(next_game_state(GameState::InGame, true), GameState::Paused);
    assert_eq!(next_game_state(GameState::Paused, true), GameState::InGame);
    assert_eq!(next_game_state(GameState::Paused, false), GameState::Paused);
    assert_eq!(next_game_state(GameState::InGame, false), GameState::InGame);
}

#[test]
fn walk_direction_cancels_opposites() {
    assert_eq!(walk_direction(true, false, false, false), (1, 0));
    assert_eq!(walk_direction(true, true, true, true), (0, 0));
    assert_eq!(walk_direction(false, true, false, true), (-1, 1));
}

#[test]
fn walk_state_prefers_vertical() {
    let idle_left = (PlayerDir::Left, PlayerState::Idle);
    assert!(next_walk_state(idle_left, (1, 1)) == (PlayerDir::Up, PlayerState::Walk));
    assert!(next_walk_state(idle_left, (-1, -1)) == (PlayerDir::Down, PlayerState::Walk));
    assert!(next_walk_state(idle_left, (1, 0)) == (PlayerDir::Right, PlayerState::Walk));
    assert!(next_walk_state(idle_left, (-1, 0)) == (PlayerDir::Left, PlayerState::Walk));
    let walking_right = (PlayerDir::Right, PlayerState::Walk);
    assert!(next_walk_state(walking_right, (0, 0)) == (PlayerDir::Right, PlayerState::Idle));
}

#[test]
fn walk_moves_and_switches() {
    let mut m = player_animations();
    assert_eq!(walk(&mut m, false, true, false, false), (0, 5));
    assert!(m.current_state == (PlayerDir::Up, PlayerState::Walk));
    assert_eq!(walk(&mut m, false, false, false, true), (-5, 0));
    assert!(m.current_state == (PlayerDir::Left, PlayerState::Walk));
    assert_eq!(walk(&mut m, false, false, false, false), (0, 0));
    assert!(m.current_state == (PlayerDir::Left, PlayerState::Idle));
}
