//! The session coordinator: the single owner of the "current game" and
//! "current voting round" slots.  Every command the transport layer
//! accepts corresponds to one operation here; each operation validates
//! the session state itself and reports a typed error, so a caller that
//! holds the session exclusively can never corrupt it.
//!
//! Overwriting or ending an active game or round is gated behind a
//! yes/no confirmation asked outside this crate: the request operation
//! reports `ConfirmationRequired` (or, for ending, is simply not called)
//! without touching the state, and only the explicit commit operation
//! performs the overwrite.  A declined or timed-out confirmation thus
//! leaves the state exactly as it was.

use vstd::prelude::*;
use crate::assoc::lemma_map_of_dom_len;
use crate::assoc::lemma_map_of_finite;
use crate::assoc::lemma_map_of_index;
use crate::assoc::lemma_val_count_pos;
use crate::assoc::map_of;
use crate::assoc::map_val_count;
use crate::assoc::uniq_keys;
use crate::game::Game;
use crate::roster::DEFAULT_LIVES;
use crate::roster::spec_deduct;
use crate::roster::spec_eliminated;
use crate::tally::VoteOutcome;
use crate::tally::ballots_outcome;
use crate::tally::counts_of;
use crate::tally::decide_winner;
use crate::tally::outcome_matches;
use crate::tally::sum_up_votes;
use crate::voting::Voting;

verus! {

/// The closed set of failures a session operation can report.  Each
/// carries the offending identity where one exists, so the transport
/// layer can render a precise message.
#[derive(Debug, Clone, Copy, PartialEq, Eq, Structural)]
pub enum GameError {
    NoActiveGame,
    NoActiveVoting,
    AlreadyAdded(u64),
    NotInGame(u64),
    AlreadyVoted(u64),
    VoterNotEligible(u64),
    NomineeNotInGame(u64),
    NomineeEliminated(u64),
    NotModerator(u64),
    NoBallotsCast,
}

/// Whether a start request took effect at once, or an active game or
/// round stands in the way and the requester must confirm the overwrite.
#[derive(Debug, Clone, Copy, PartialEq, Eq, Structural)]
pub enum StartOutcome {
    Started,
    ConfirmationRequired,
}

/// Everything the closing of a round produced: the ballots as cast, the
/// per-nominee counts, the decision, and whether a clear winner was
/// eliminated by the life they lost.
#[derive(Debug)]
pub struct VotingSummary {
    pub ballots: Vec<(u64, u64)>,
    pub counts: Vec<(u64, usize)>,
    pub outcome: VoteOutcome,
    pub eliminated: bool,
}

/// The shared session state: at most one game and at most one voting
/// round, the round always scoped to the game.
pub struct Data {
    pub game: Option<Game>,
    pub voting: Option<Voting>,
}

impl Data {
    pub open spec fn wf(self) -> bool {
        (match self.game {
            Some(g) => g.wf(),
            None => true,
        }) && (match self.voting {
            Some(v) => v.wf(),
            None => true,
        })
    }

    pub fn new() -> (d: Data)
        ensures
            d.wf(),
            d.game is None,
            d.voting is None,
    {
        Data { game: None, voting: None }
    }
}

impl Default for Data {
    fn default() -> (d: Data)
        ensures
            d.wf(),
            d.game is None,
            d.voting is None,
    {
        Data::new()
    }
}

/// The slot holds a just-created game: the given creator and moderator,
/// and nobody enrolled yet.
pub open spec fn fresh_game(g: Option<Game>, creator: u64, moderator: u64) -> bool {
    g matches Some(gg) && gg.wf() && gg.creator == creator && gg.moderator == moderator
        && gg.members@ == Map::<u64, i32>::empty() && gg.members.entries() == Seq::<(
        u64,
        i32,
    )>::empty()
}

/// The slot holds a just-opened voting round: the given creator and no
/// ballots yet.
pub open spec fn fresh_voting(v: Option<Voting>, creator: u64) -> bool {
    v matches Some(vv) && vv.wf() && vv.creator == creator && vv@ == Map::<u64, u64>::empty()
        && vv.ballots_seq() == Seq::<(u64, u64)>::empty()
}

/// The lives a participant starts with when the command names none.
pub open spec fn spec_initial_lives(lives: Option<i32>) -> i32 {
    match lives {
        Some(l) => l,
        None => DEFAULT_LIVES,
    }
}

/// Exactly when `add_user` reports the error `e`: the checks run in
/// order, and each error names the first one that failed.
pub open spec fn add_user_error(d: Data, author: u64, user: u64, e: GameError) -> bool {
    ||| (e == GameError::NoActiveGame && d.game is None)
    ||| (d.game matches Some(g) && g.moderator != author && e == GameError::NotModerator(author))
    ||| (d.game matches Some(g) && g.moderator == author && g.members@.dom().contains(user) && e
        == GameError::AlreadyAdded(user))
}

/// Exactly when `remove_user` or `set_lives` reports the error `e`.
pub open spec fn roster_edit_error(d: Data, author: u64, user: u64, e: GameError) -> bool {
    ||| (e == GameError::NoActiveGame && d.game is None)
    ||| (d.game matches Some(g) && g.moderator != author && e == GameError::NotModerator(author))
    ||| (d.game matches Some(g) && g.moderator == author && !g.members@.dom().contains(user) && e
        == GameError::NotInGame(user))
}

/// Exactly when `start_voting` reports the error `e`.
pub open spec fn moderator_gate_error(d: Data, author: u64, e: GameError) -> bool {
    ||| (e == GameError::NoActiveGame && d.game is None)
    ||| (d.game matches Some(g) && g.moderator != author && e == GameError::NotModerator(author))
}

/// Requests a new game.  With no game active it starts one at once;
/// with a game active it changes nothing and asks for confirmation, so
/// a declined or timed-out prompt leaves the old game untouched.
pub fn start_game(data: &mut Data, creator: u64, moderator: u64) -> (r: StartOutcome)
    requires
        old(data).wf(),
    ensures
        final(data).wf(),
        match r {
            StartOutcome::Started => old(data).game is None && fresh_game(
                final(data).game,
                creator,
                moderator,
            ) && final(data).voting is None,
            StartOutcome::ConfirmationRequired => old(data).game is Some
                && *final(data) == *old(data),
        },
{
    if data.game.is_some() {
        StartOutcome::ConfirmationRequired
    } else {
        create_new_game(data, creator, moderator);
        StartOutcome::Started
    }
}

/// Installs a new game over whatever is there: the plain start and the
/// confirmed overwrite alike.  Any active voting round is cleared with
/// the game it belonged to: a round cannot outlive its game.
pub fn create_new_game(data: &mut Data, creator: u64, moderator: u64)
    requires
        old(data).wf(),
    ensures
        final(data).wf(),
        fresh_game(final(data).game, creator, moderator),
        final(data).voting is None,
{
    data.game = Some(Game::new(creator, moderator));
    data.voting = None;
}

/// Ends the active game, discarding it and any active round.  The
/// surrounding flow asks the requester to confirm first; a decline or
/// timeout simply never calls this, and the state also re-validates
/// itself here in case it changed while the prompt was outstanding.
pub fn end_game(data: &mut Data) -> (r: Result<(), GameError>)
    requires
        old(data).wf(),
    ensures
        final(data).wf(),
        match r {
            Ok(()) => old(data).game is Some && final(data).game is None
                && final(data).voting is None,
            Err(e) => e == GameError::NoActiveGame && old(data).game is None && *final(data)
                == *old(data),
        },
{
    if data.game.is_some() {
        data.game = None;
        data.voting = None;
        Ok(())
    } else {
        Err(GameError::NoActiveGame)
    }
}

/// Enrolls a participant in the active game with the given lives, three
/// when none are given.  Only the game's moderator may do so, and a
/// second enrollment of the same id fails and changes nothing.
pub fn add_user(data: &mut Data, author: u64, user: u64, lives: Option<i32>) -> (r: Result<
    (),
    GameError,
>)
    requires
        old(data).wf(),
    ensures
        final(data).wf(),
        final(data).voting == old(data).voting,
        match r {
            Ok(()) => old(data).game matches Some(g) && g.moderator == author
                && !g.members@.dom().contains(user) && (final(data).game matches Some(g2)
                && g2.creator == g.creator && g2.moderator == g.moderator && g2.members@
                == g.members@.insert(user, spec_initial_lives(lives))),
            Err(e) => *final(data) == *old(data) && add_user_error(*old(data), author, user, e),
        },
{
    match &mut data.game {
        None => Err(GameError::NoActiveGame),
        Some(g) => {
            if g.moderator != author {
                return Err(GameError::NotModerator(author));
            }
            let initial: i32 = match lives {
                Some(l) => l,
                None => DEFAULT_LIVES,
            };
            match g.add_player(user, initial) {
                Ok(()) => Ok(()),
                Err(_) => Err(GameError::AlreadyAdded(user)),
            }
        },
    }
}

/// Removes a participant from the active game entirely, eliminated or
/// not.  Only the game's moderator may do so.
pub fn remove_user(data: &mut Data, author: u64, user: u64) -> (r: Result<(), GameError>)
    requires
        old(data).wf(),
    ensures
        final(data).wf(),
        final(data).voting == old(data).voting,
        match r {
            Ok(()) => old(data).game matches Some(g) && g.moderator == author
                && g.members@.dom().contains(user) && (final(data).game matches Some(g2)
                && g2.creator == g.creator && g2.moderator == g.moderator && g2.members@
                == g.members@.remove(user)),
            Err(e) => *final(data) == *old(data) && roster_edit_error(*old(data), author, user, e),
        },
{
    match &mut data.game {
        None => Err(GameError::NoActiveGame),
        Some(g) => {
            if g.moderator != author {
                return Err(GameError::NotModerator(author));
            }
            match g.remove_player(user) {
                Ok(()) => Ok(()),
                Err(_) => Err(GameError::NotInGame(user)),
            }
        },
    }
}

/// Overwrites a participant's life count with any value, negative
/// included; at or below zero they merely count as eliminated.  Only
/// the game's moderator may do so.
pub fn set_lives(data: &mut Data, author: u64, user: u64, amount: i32) -> (r: Result<
    (),
    GameError,
>)
    requires
        old(data).wf(),
    ensures
        final(data).wf(),
        final(data).voting == old(data).voting,
        match r {
            Ok(()) => old(data).game matches Some(g) && g.moderator == author
                && g.members@.dom().contains(user) && (final(data).game matches Some(g2)
                && g2.creator == g.creator && g2.moderator == g.moderator && g2.members@
                == g.members@.insert(user, amount)),
            Err(e) => *final(data) == *old(data) && roster_edit_error(*old(data), author, user, e),
        },
{
    match &mut data.game {
        None => Err(GameError::NoActiveGame),
        Some(g) => {
            if g.moderator != author {
                return Err(GameError::NotModerator(author));
            }
            match g.set_player_health(user, amount) {
                Ok(()) => Ok(()),
                Err(_) => Err(GameError::NotInGame(user)),
            }
        },
    }
}

/// The active game's roster, participant ids paired with their lives in
/// enrollment order, for display.
pub fn show_game(data: &Data) -> (r: Result<Vec<(u64, i32)>, GameError>)
    requires
        data.wf(),
    ensures
        match r {
            Ok(entries) => data.game matches Some(g) && entries@ == g.members.entries(),
            Err(e) => e == GameError::NoActiveGame && data.game is None,
        },
{
    match &data.game {
        Some(g) => Ok(g.members.entries_vec()),
        None => Err(GameError::NoActiveGame),
    }
}

/// Requests a new voting round under the active game.  Only the game's
/// moderator may open one; with a round already active nothing changes
/// and the requester must confirm the overwrite.
pub fn start_voting(data: &mut Data, author: u64) -> (r: Result<StartOutcome, GameError>)
    requires
        old(data).wf(),
    ensures
        final(data).wf(),
        final(data).game == old(data).game,
        match r {
            Ok(s) => old(data).game matches Some(g) && g.moderator == author && (if s
                == StartOutcome::Started {
                old(data).voting is None && fresh_voting(final(data).voting, author)
            } else {
                old(data).voting is Some && *final(data) == *old(data)
            }),
            Err(e) => *final(data) == *old(data) && moderator_gate_error(*old(data), author, e),
        },
{
    match &data.game {
        None => {
            return Err(GameError::NoActiveGame);
        },
        Some(g) => {
            if g.moderator != author {
                return Err(GameError::NotModerator(author));
            }
        },
    }
    if data.voting.is_some() {
        Ok(StartOutcome::ConfirmationRequired)
    } else {
        data.voting = Some(Voting::new(author));
        Ok(StartOutcome::Started)
    }
}

/// Opens a fresh round over whatever round is there: the plain start
/// and the confirmed overwrite alike.  Re-validates that a game is
/// still active, in case it ended while the prompt was outstanding.
pub fn create_new_vote(data: &mut Data, creator: u64) -> (r: Result<(), GameError>)
    requires
        old(data).wf(),
    ensures
        final(data).wf(),
        final(data).game == old(data).game,
        match r {
            Ok(()) => old(data).game is Some && fresh_voting(final(data).voting, creator),
            Err(e) => e == GameError::NoActiveGame && old(data).game is None && *final(data)
                == *old(data),
        },
{
    if data.game.is_none() {
        return Err(GameError::NoActiveGame);
    }
    data.voting = Some(Voting::new(creator));
    Ok(())
}

/// The voter is enrolled in the active game and still has lives left.
pub open spec fn voter_eligible(d: Data, voter: u64) -> bool {
    d.game matches Some(g) && g.members@.dom().contains(voter) && !spec_eliminated(
        g.members@[voter] as int,
    )
}

/// Exactly when `vote` reports the error `e`: the checks run in order,
/// and each error names the first one that failed.
pub open spec fn vote_error(d: Data, author: u64, nominee: u64, e: GameError) -> bool {
    ||| (e == GameError::NoActiveGame && d.game is None)
    ||| (e == GameError::NoActiveVoting && d.game is Some && d.voting is None)
    ||| (e == GameError::VoterNotEligible(author) && d.game is Some && d.voting is Some
        && !voter_eligible(d, author))
    ||| (e == GameError::AlreadyVoted(author) && d.game is Some && (d.voting matches Some(v)
        && voter_eligible(d, author) && v@.dom().contains(author)))
    ||| (e == GameError::NomineeNotInGame(nominee) && (d.game matches Some(g)
        && (d.voting matches Some(v) && voter_eligible(d, author) && !v@.dom().contains(author)
        && !g.members@.dom().contains(nominee))))
    ||| (e == GameError::NomineeEliminated(nominee) && (d.game matches Some(g)
        && (d.voting matches Some(v) && voter_eligible(d, author) && !v@.dom().contains(author)
        && g.members@.dom().contains(nominee) && spec_eliminated(g.members@[nominee] as int))))
}

/// Casts the author's ballot for a nominee.  The voter must be a living
/// participant who has not voted this round; a second vote is rejected,
/// never silently overwritten.  The nominee must be a participant that
/// still has lives left.  A participant may nominate themselves: nothing
/// forbids it, deliberately.
pub fn vote(data: &mut Data, author: u64, nominee: u64) -> (r: Result<(), GameError>)
    requires
        old(data).wf(),
    ensures
        final(data).wf(),
        final(data).game == old(data).game,
        match r {
            Ok(()) => old(data).game matches Some(g) && (old(data).voting matches Some(v)
                && voter_eligible(*old(data), author) && !v@.dom().contains(author)
                && g.members@.dom().contains(nominee) && !spec_eliminated(
                g.members@[nominee] as int,
            ) && (final(data).voting matches Some(v2) && v2.creator == v.creator && v2@
                == v@.insert(author, nominee) && v2.ballots_seq() == v.ballots_seq().push(
                (author, nominee),
            ))),
            Err(e) => *final(data) == *old(data) && vote_error(*old(data), author, nominee, e),
        },
{
    if data.game.is_none() {
        return Err(GameError::NoActiveGame);
    }
    if data.voting.is_none() {
        return Err(GameError::NoActiveVoting);
    }
    let eligible: bool = match &data.game {
        Some(g) => match g.members.lives_of(author) {
            Some(l) => l > 0,
            None => false,
        },
        None => false,
    };
    if !eligible {
        return Err(GameError::VoterNotEligible(author));
    }
    let voted: bool = match &data.voting {
        Some(v) => v.has_voted(author),
        None => false,
    };
    if voted {
        return Err(GameError::AlreadyVoted(author));
    }
    let nominee_lives: Option<i32> = match &data.game {
        Some(g) => g.members.lives_of(nominee),
        None => None,
    };
    match nominee_lives {
        None => {
            return Err(GameError::NomineeNotInGame(nominee));
        },
        Some(l) => {
            if l <= 0 {
                return Err(GameError::NomineeEliminated(nominee));
            }
        },
    }
    match &mut data.voting {
        Some(v) => {
            v.cast(author, nominee);
            Ok(())
        },
        None => {
            proof {
                assert(false);
            }
            Err(GameError::NoActiveVoting)
        },
    }
}

/// A second ballot from the same voter is rejected, never silently
/// overwritten: once a living participant's ballot is recorded, the
/// only answer `vote` has left for them this round is `AlreadyVoted`,
/// whoever they nominate.  `vote`'s own contract rules the success case
/// out in this state and keeps the state unchanged on every error.
pub proof fn lemma_second_vote_rejected(d: Data, author: u64, nominee: u64, e: GameError)
    requires
        d.game is Some,
        voter_eligible(d, author),
        d.voting matches Some(v) && v@.dom().contains(author),
    ensures
        vote_error(d, author, nominee, e) ==> e == GameError::AlreadyVoted(author),
{
}

/// Exactly when `end_voting` reports the error `e`.  The last case is
/// the one race the round cannot rule out: the ballots elect a clear
/// winner whom the moderator removed from the game after the votes were
/// cast; the round is left active and nothing is deducted.
pub open spec fn end_voting_error(d: Data, author: u64, e: GameError) -> bool {
    ||| (e == GameError::NoActiveVoting && d.voting is None)
    ||| (e == GameError::NoActiveGame && d.voting is Some && d.game is None)
    ||| (d.voting is Some && (d.game matches Some(g) && g.moderator != author && e
        == GameError::NotModerator(author)))
    ||| (d.voting matches Some(v) && (d.game matches Some(g) && g.moderator == author
        && v.ballots_seq().len() == 0 && e == GameError::NoBallotsCast))
    ||| (d.voting matches Some(v) && (d.game matches Some(g) && g.moderator == author
        && v.ballots_seq().len() > 0 && (exists|u: u64, k: usize|
        ballots_outcome(v@, VoteOutcome::ClearWinner { user: u, num_votes: k })
            && !g.members@.dom().contains(u) && e == GameError::NotInGame(u))))
}

/// Closes the active round: tallies the ballots, applies the decision
/// to the roster, and discards the round.  A clear winner loses exactly
/// one life; a tie deducts nothing.  Only the game's moderator may
/// close a round, and a round with no ballots has no decision to apply.
pub fn end_voting(data: &mut Data, author: u64) -> (r: Result<VotingSummary, GameError>)
    requires
        old(data).wf(),
    ensures
        final(data).wf(),
        match r {
            Ok(sum) => old(data).voting matches Some(v) && (old(data).game matches Some(g)
                && g.moderator == author && v.ballots_seq().len() > 0 && sum.ballots@
                == v.ballots_seq() && uniq_keys(sum.counts@) && counts_of(v@, map_of(sum.counts@))
                && outcome_matches(map_of(sum.counts@), sum.outcome) && final(data).voting is None
                && (final(data).game matches Some(g2) && g2.creator == g.creator && g2.moderator
                == g.moderator && (match sum.outcome {
                VoteOutcome::ClearWinner { user, num_votes } => g.members@.dom().contains(user)
                    && g2.members@ == g.members@.insert(
                    user,
                    spec_deduct(g.members@[user] as int) as i32,
                ) && sum.eliminated == spec_eliminated(spec_deduct(g.members@[user] as int)),
                VoteOutcome::NoClearWinner { .. } => g2.members@ == g.members@ && !sum.eliminated,
            }))),
            Err(e) => *final(data) == *old(data) && end_voting_error(*old(data), author, e),
        },
{
    if data.voting.is_none() {
        return Err(GameError::NoActiveVoting);
    }
    if data.game.is_none() {
        return Err(GameError::NoActiveGame);
    }
    let moderator_ok: bool = match &data.game {
        Some(g) => g.moderator == author,
        None => false,
    };
    if !moderator_ok {
        return Err(GameError::NotModerator(author));
    }
    let ballots_copy: Vec<(u64, u64)>;
    let counts: crate::assoc::AssocList<usize>;
    match &data.voting {
        Some(v) => {
            if v.num_ballots() == 0 {
                return Err(GameError::NoBallotsCast);
            }
            ballots_copy = v.ballots_vec();
            counts = sum_up_votes(&v.ballots);
        },
        None => {
            proof {
                assert(false);
            }
            return Err(GameError::NoActiveVoting);
        },
    }
    proof {
        // the counts cannot be empty: the first ballot's nominee is in them
        let v = old(data).voting->Some_0;
        let s = v.ballots_seq();
        assert(map_val_count(v@, s[0].1) >= 1) by {
            lemma_map_of_finite(s);
            lemma_map_of_index(s, 0);
            lemma_val_count_pos(v@, s[0].1);
        }
        assert(counts@.dom().contains(s[0].1));
        lemma_map_of_dom_len(counts.entries_seq());
        assert(counts.entries_seq().len() > 0);
        lemma_map_of_finite(counts.entries_seq());
    }
    let outcome = decide_winner(&counts);
    match outcome {
        VoteOutcome::ClearWinner { user, num_votes } => {
            let winner_present: bool = match &data.game {
                Some(g) => g.members.contains_participant(user),
                None => false,
            };
            if !winner_present {
                proof {
                    let v = old(data).voting->Some_0;
                    assert(counts_of(v@, counts@) && counts@.dom().finite() && outcome_matches(
                        counts@,
                        (VoteOutcome::ClearWinner { user, num_votes }),
                    ));
                    assert(ballots_outcome(
                        v@,
                        (VoteOutcome::ClearWinner { user, num_votes }),
                    ));
                }
                return Err(GameError::NotInGame(user));
            }
            let eliminated: bool;
            match &mut data.game {
                Some(g) => {
                    g.members.deduct_life(user);
                    eliminated = match g.members.lives_of(user) {
                        Some(l) => l <= 0,
                        None => false,
                    };
                },
                None => {
                    proof {
                        assert(false);
                    }
                    return Err(GameError::NoActiveGame);
                },
            }
            data.voting = None;
            Ok(
                VotingSummary {
                    ballots: ballots_copy,
                    counts: counts.entries_vec(),
                    outcome,
                    eliminated,
                },
            )
        },
        VoteOutcome::NoClearWinner { .. } => {
            data.voting = None;
            Ok(
                VotingSummary {
                    ballots: ballots_copy,
                    counts: counts.entries_vec(),
                    outcome,
                    eliminated: false,
                },
            )
        },
    }
}

} // verus!
