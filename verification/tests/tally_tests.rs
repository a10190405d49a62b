use ddf_bot::assoc::AssocList;
use ddf_bot::session::add_user;
use ddf_bot::session::end_voting;
use ddf_bot::session::remove_user;
use ddf_bot::session::start_game;
use ddf_bot::session::start_voting;
use ddf_bot::session::vote;
use ddf_bot::session::Data;
use ddf_bot::session::GameError;
use ddf_bot::session::StartOutcome;
use ddf_bot::tally::decide_winner;
use ddf_bot::tally::sum_up_votes;
use ddf_bot::tally::VoteOutcome;

fn session_with_players(players: &[(u64, i32)]) -> Data {
    let mut data = Data::new();
    assert_eq!(start_game(&mut data, 1, 2), StartOutcome::Started);
    for &(id, lives) in players {
        assert_eq!(add_user(&mut data, 2, id, Some(lives)), Ok(()));
    }
    data
}

fn lives_of(data: &Data, id: u64) -> i32 {
    data.game.as_ref().unwrap().members.lives_of(id).unwrap()
}

#[test]
fn tally_two_against_one_is_clear_winner_either_order() {
    // ballots {A: X, B: X, C: Y}: X gets two votes, Y one, in any cast order
    let orders: [[(u64, u64); 3]; 2] =
        [[(10, 20), (11, 20), (12, 21)], [(12, 21), (11, 20), (10, 20)]];
    for order in orders {
        let mut ballots: AssocList<u64> = AssocList::new();
        for (voter, nominee) in order {
            assert!(!ballots.contains_key(voter));
            ballots.insert_new(voter, nominee);
        }
        let counts = sum_up_votes(&ballots);
        let outcome = decide_winner(&counts);
        assert_eq!(outcome, VoteOutcome::ClearWinner { user: 20, num_votes: 2 });
    }
}

#[test]
fn tie_two_nominees_deducts_nothing() {
    let mut data = session_with_players(&[(10, 3), (11, 3), (20, 3), (21, 3)]);
    assert_eq!(start_voting(&mut data, 2), Ok(StartOutcome::Started));
    assert_eq!(vote(&mut data, 10, 20), Ok(()));
    assert_eq!(vote(&mut data, 11, 21), Ok(()));
    let summary = end_voting(&mut data, 2).unwrap();
    assert_eq!(
        summary.outcome,
        VoteOutcome::NoClearWinner { members_with_equal_votes_count: 2, max_vote_count: 1 }
    );
    assert!(!summary.eliminated);
    // nobody lost a life
    for id in [10, 11, 20, 21] {
        assert_eq!(lives_of(&data, id), 3);
    }
    assert!(data.voting.is_none());
}

#[test]
fn clear_winner_loses_one_life() {
    let mut data = session_with_players(&[(10, 3), (11, 3), (12, 3)]);
    assert_eq!(start_voting(&mut data, 2), Ok(StartOutcome::Started));
    assert_eq!(vote(&mut data, 10, 12), Ok(()));
    assert_eq!(vote(&mut data, 11, 12), Ok(()));
    let summary = end_voting(&mut data, 2).unwrap();
    assert_eq!(summary.outcome, VoteOutcome::ClearWinner { user: 12, num_votes: 2 });
    assert_eq!(summary.ballots, vec![(10, 12), (11, 12)]);
    assert_eq!(summary.counts, vec![(12, 2)]);
    assert!(!summary.eliminated);
    assert_eq!(lives_of(&data, 12), 2);
    assert!(data.voting.is_none());
}

#[test]
fn elimination_boundary_single_life() {
    // one life left: the deduction lands on zero and eliminates
    let mut data = session_with_players(&[(10, 3), (11, 1)]);
    assert_eq!(start_voting(&mut data, 2), Ok(StartOutcome::Started));
    assert_eq!(vote(&mut data, 10, 11), Ok(()));
    let summary = end_voting(&mut data, 2).unwrap();
    assert_eq!(summary.outcome, VoteOutcome::ClearWinner { user: 11, num_votes: 1 });
    assert!(summary.eliminated);
    assert_eq!(lives_of(&data, 11), 0);
    // and an eliminated participant cannot be nominated next round
    assert_eq!(start_voting(&mut data, 2), Ok(StartOutcome::Started));
    assert_eq!(vote(&mut data, 10, 11), Err(GameError::NomineeEliminated(11)));
}

#[test]
fn end_voting_no_ballots_fails() {
    let mut data = session_with_players(&[(10, 3)]);
    assert_eq!(start_voting(&mut data, 2), Ok(StartOutcome::Started));
    match end_voting(&mut data, 2) {
        Err(GameError::NoBallotsCast) => {},
        other => panic!("unexpected result: {:?}", other),
    }
    // the round stays active
    assert!(data.voting.is_some());
}

#[test]
fn end_voting_requires_round_game_and_moderator() {
    let mut data = Data::new();
    match end_voting(&mut data, 2) {
        Err(GameError::NoActiveVoting) => {},
        other => panic!("unexpected result: {:?}", other),
    }
    let mut data = session_with_players(&[(10, 3), (11, 3)]);
    assert_eq!(start_voting(&mut data, 2), Ok(StartOutcome::Started));
    assert_eq!(vote(&mut data, 10, 11), Ok(()));
    match end_voting(&mut data, 10) {
        Err(GameError::NotModerator(10)) => {},
        other => panic!("unexpected result: {:?}", other),
    }
}

#[test]
fn end_voting_winner_removed_leaves_round_active() {
    let mut data = session_with_players(&[(10, 3), (11, 3), (12, 3)]);
    assert_eq!(start_voting(&mut data, 2), Ok(StartOutcome::Started));
    assert_eq!(vote(&mut data, 10, 12), Ok(()));
    assert_eq!(vote(&mut data, 11, 12), Ok(()));
    // the moderator removes the would-be winner before closing
    assert_eq!(remove_user(&mut data, 2, 12), Ok(()));
    match end_voting(&mut data, 2) {
        Err(GameError::NotInGame(12)) => {},
        other => panic!("unexpected result: {:?}", other),
    }
    assert!(data.voting.is_some());
    assert_eq!(lives_of(&data, 10), 3);
    assert_eq!(lives_of(&data, 11), 3);
}

#[test]
fn full_game_scenario() {
    // start with moderator M = 2; A, B, C with three lives each
    let a: u64 = 10;
    let b: u64 = 11;
    let c: u64 = 12;
    let mut data = session_with_players(&[(a, 3), (b, 3), (c, 3)]);
    assert_eq!(start_voting(&mut data, 2), Ok(StartOutcome::Started));
    assert_eq!(vote(&mut data, a, c), Ok(()));
    assert_eq!(vote(&mut data, b, c), Ok(()));
    let summary = end_voting(&mut data, 2).unwrap();
    assert_eq!(summary.outcome, VoteOutcome::ClearWinner { user: c, num_votes: 2 });
    assert_eq!(lives_of(&data, c), 2);
    assert!(!summary.eliminated);
    // second round: everyone turns on B, B may vote for themselves
    assert_eq!(start_voting(&mut data, 2), Ok(StartOutcome::Started));
    assert_eq!(vote(&mut data, a, b), Ok(()));
    assert_eq!(vote(&mut data, c, b), Ok(()));
    assert_eq!(vote(&mut data, b, b), Ok(()));
    let summary = end_voting(&mut data, 2).unwrap();
    assert_eq!(summary.outcome, VoteOutcome::ClearWinner { user: b, num_votes: 3 });
    assert_eq!(lives_of(&data, b), 2);
    assert!(!summary.eliminated);
    // C's earlier loss must not resurface as an elimination
    assert_eq!(lives_of(&data, c), 2);
    assert_eq!(
        data.game.as_ref().unwrap().members.is_eliminated(c),
        Ok(false)
    );
}
