use ddf_bot::checks::author_is_alive;
use ddf_bot::checks::did_not_vote;
use ddf_bot::checks::is_game_moderator;
use ddf_bot::checks::is_in_game;
use ddf_bot::checks::needs_active_game;
use ddf_bot::checks::needs_active_voting;
use ddf_bot::session::add_user;
use ddf_bot::session::create_new_game;
use ddf_bot::session::end_game;
use ddf_bot::session::remove_user;
use ddf_bot::session::set_lives;
use ddf_bot::session::show_game;
use ddf_bot::session::start_game;
use ddf_bot::session::start_voting;
use ddf_bot::session::vote;
use ddf_bot::session::Data;
use ddf_bot::session::GameError;
use ddf_bot::session::StartOutcome;

#[test]
fn start_game_when_idle_starts() {
    let mut data = Data::new();
    assert_eq!(start_game(&mut data, 1, 2), StartOutcome::Started);
    assert!(data.game.is_some());
    assert!(data.voting.is_none());
    let game = data.game.as_ref().unwrap();
    assert_eq!(game.creator, 1);
    assert_eq!(game.moderator, 2);
    assert_eq!(game.members.entries_vec(), vec![]);
}

#[test]
fn override_declined_keeps_roster_identical() {
    let mut data = Data::new();
    assert_eq!(start_game(&mut data, 1, 2), StartOutcome::Started);
    assert_eq!(add_user(&mut data, 2, 10, Some(3)), Ok(()));
    assert_eq!(add_user(&mut data, 2, 11, Some(1)), Ok(()));
    let before = data.game.as_ref().unwrap().members.entries_vec();
    // a second start only asks for confirmation; declining means never
    // committing, so the game is untouched, field for field
    assert_eq!(start_game(&mut data, 5, 6), StartOutcome::ConfirmationRequired);
    let game = data.game.as_ref().unwrap();
    assert_eq!(game.creator, 1);
    assert_eq!(game.moderator, 2);
    assert_eq!(game.members.entries_vec(), before);
}

#[test]
fn confirmed_override_replaces_game_and_clears_voting() {
    let mut data = Data::new();
    assert_eq!(start_game(&mut data, 1, 2), StartOutcome::Started);
    assert_eq!(add_user(&mut data, 2, 10, None), Ok(()));
    assert_eq!(start_voting(&mut data, 2), Ok(StartOutcome::Started));
    assert_eq!(start_game(&mut data, 5, 6), StartOutcome::ConfirmationRequired);
    // the requester confirmed: commit the overwrite
    create_new_game(&mut data, 5, 6);
    let game = data.game.as_ref().unwrap();
    assert_eq!(game.creator, 5);
    assert_eq!(game.moderator, 6);
    assert_eq!(game.members.entries_vec(), vec![]);
    assert!(data.voting.is_none());
}

#[test]
fn end_game_clears_game_and_voting() {
    let mut data = Data::new();
    assert_eq!(end_game(&mut data), Err(GameError::NoActiveGame));
    assert_eq!(start_game(&mut data, 1, 2), StartOutcome::Started);
    assert_eq!(start_voting(&mut data, 2), Ok(StartOutcome::Started));
    assert_eq!(end_game(&mut data), Ok(()));
    assert!(data.game.is_none());
    assert!(data.voting.is_none());
}

#[test]
fn add_user_requires_moderator() {
    let mut data = Data::new();
    assert_eq!(add_user(&mut data, 2, 10, None), Err(GameError::NoActiveGame));
    assert_eq!(start_game(&mut data, 1, 2), StartOutcome::Started);
    assert_eq!(add_user(&mut data, 3, 10, None), Err(GameError::NotModerator(3)));
    assert_eq!(add_user(&mut data, 2, 10, None), Ok(()));
    assert_eq!(add_user(&mut data, 2, 10, None), Err(GameError::AlreadyAdded(10)));
}

#[test]
fn add_user_default_lives_is_three() {
    let mut data = Data::new();
    assert_eq!(start_game(&mut data, 1, 2), StartOutcome::Started);
    assert_eq!(add_user(&mut data, 2, 10, None), Ok(()));
    assert_eq!(add_user(&mut data, 2, 11, Some(7)), Ok(()));
    let entries = data.game.as_ref().unwrap().members.entries_vec();
    assert_eq!(entries, vec![(10, 3), (11, 7)]);
}

#[test]
fn remove_user_requires_membership() {
    let mut data = Data::new();
    assert_eq!(remove_user(&mut data, 2, 10), Err(GameError::NoActiveGame));
    assert_eq!(start_game(&mut data, 1, 2), StartOutcome::Started);
    assert_eq!(remove_user(&mut data, 3, 10), Err(GameError::NotModerator(3)));
    assert_eq!(remove_user(&mut data, 2, 10), Err(GameError::NotInGame(10)));
    assert_eq!(add_user(&mut data, 2, 10, None), Ok(()));
    assert_eq!(remove_user(&mut data, 2, 10), Ok(()));
    assert_eq!(show_game(&data), Ok(vec![]));
}

#[test]
fn set_lives_updates_target_user() {
    let mut data = Data::new();
    assert_eq!(set_lives(&mut data, 2, 10, 5), Err(GameError::NoActiveGame));
    assert_eq!(start_game(&mut data, 1, 2), StartOutcome::Started);
    assert_eq!(set_lives(&mut data, 3, 10, 5), Err(GameError::NotModerator(3)));
    assert_eq!(set_lives(&mut data, 2, 10, 5), Err(GameError::NotInGame(10)));
    assert_eq!(add_user(&mut data, 2, 10, None), Ok(()));
    assert_eq!(set_lives(&mut data, 2, 10, -4), Ok(()));
    assert_eq!(show_game(&data), Ok(vec![(10, -4)]));
}

#[test]
fn show_game_lists_entries() {
    let mut data = Data::new();
    assert_eq!(show_game(&data), Err(GameError::NoActiveGame));
    assert_eq!(start_game(&mut data, 1, 2), StartOutcome::Started);
    assert_eq!(add_user(&mut data, 2, 10, Some(2)), Ok(()));
    assert_eq!(add_user(&mut data, 2, 11, Some(0)), Ok(()));
    assert_eq!(show_game(&data), Ok(vec![(10, 2), (11, 0)]));
}

#[test]
fn checks_report_state() {
    let mut data = Data::new();
    assert_eq!(needs_active_game(&data), Err(GameError::NoActiveGame));
    assert_eq!(needs_active_voting(&data), Err(GameError::NoActiveVoting));
    assert_eq!(start_game(&mut data, 1, 2), StartOutcome::Started);
    assert_eq!(needs_active_game(&data), Ok(true));
    assert_eq!(add_user(&mut data, 2, 10, Some(3)), Ok(()));
    assert_eq!(add_user(&mut data, 2, 11, Some(0)), Ok(()));
    assert_eq!(is_in_game(&data, 10), Ok(true));
    assert_eq!(is_in_game(&data, 99), Err(GameError::NotInGame(99)));
    assert_eq!(is_game_moderator(&data, 2), Ok(true));
    assert_eq!(is_game_moderator(&data, 10), Err(GameError::NotModerator(10)));
    assert_eq!(author_is_alive(&data, 10), Ok(true));
    assert_eq!(author_is_alive(&data, 11), Err(GameError::VoterNotEligible(11)));
    assert_eq!(start_voting(&mut data, 2), Ok(StartOutcome::Started));
    assert_eq!(needs_active_voting(&data), Ok(true));
    assert_eq!(did_not_vote(&data, 10), Ok(true));
    assert_eq!(vote(&mut data, 10, 11), Err(GameError::NomineeEliminated(11)));
    assert_eq!(vote(&mut data, 10, 10), Ok(()));
    assert_eq!(did_not_vote(&data, 10), Err(GameError::AlreadyVoted(10)));
}
