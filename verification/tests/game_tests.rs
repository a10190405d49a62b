use ddf_bot::game::Game;
use ddf_bot::game::PlayerError;

#[test]
fn add_player_then_duplicate_fails() {
    let mut game = Game::new(1, 2);
    assert_eq!(game.add_player(10, 3), Ok(()));
    assert!(game.contains_player(10));
    // a second enrollment fails and leaves the lives untouched
    assert_eq!(game.add_player(10, 99), Err(PlayerError::PlayerAlreadyAdded(10)));
    let entries = game.members.entries_vec();
    assert_eq!(entries, vec![(10, 3)]);
}

#[test]
fn remove_player_unknown_fails() {
    let mut game = Game::new(1, 2);
    assert_eq!(game.remove_player(7), Err(PlayerError::PlayerNotInGame(7)));
    assert_eq!(game.add_player(7, 3), Ok(()));
    assert_eq!(game.remove_player(7), Ok(()));
    assert!(!game.contains_player(7));
}

#[test]
fn set_player_health_overwrites_any_value() {
    let mut game = Game::new(1, 2);
    assert_eq!(game.set_player_health(5, 4), Err(PlayerError::PlayerNotInGame(5)));
    assert_eq!(game.add_player(5, 3), Ok(()));
    assert_eq!(game.set_player_health(5, -17), Ok(()));
    assert_eq!(game.is_player_dead(5), Ok(true));
    assert_eq!(game.set_player_health(5, 1), Ok(()));
    assert_eq!(game.is_player_dead(5), Ok(false));
}

#[test]
fn is_player_dead_boundaries() {
    let mut game = Game::new(1, 2);
    assert_eq!(game.is_player_dead(9), Err(PlayerError::PlayerNotInGame(9)));
    assert_eq!(game.add_player(9, 0), Ok(()));
    assert_eq!(game.is_player_dead(9), Ok(true));
    assert_eq!(game.is_player_alive(9), Ok(false));
    assert_eq!(game.set_player_health(9, 1), Ok(()));
    assert_eq!(game.is_player_dead(9), Ok(false));
    assert_eq!(game.is_player_alive(9), Ok(true));
}

#[test]
fn roster_keeps_eliminated_until_removed() {
    let mut game = Game::new(1, 2);
    assert_eq!(game.add_player(3, 0), Ok(()));
    // eliminated but still enrolled
    assert!(game.contains_player(3));
    assert_eq!(game.remove_player(3), Ok(()));
    assert!(!game.contains_player(3));
}
