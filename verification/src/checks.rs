//! Per-command preconditions on the session state, each reporting the
//! precise failure the transport layer shows the user.  They return
//! `Ok(true)` when the command may proceed, mirroring a command-check
//! interface that distinguishes "passed" from a diagnosed refusal.

use vstd::prelude::*;
use crate::roster::spec_eliminated;
use crate::session::Data;
use crate::session::GameError;

verus! {

pub fn needs_active_game(data: &Data) -> (r: Result<bool, GameError>)
    ensures
        match r {
            Ok(b) => b && data.game is Some,
            Err(e) => e == GameError::NoActiveGame && data.game is None,
        },
{
    if data.game.is_some() {
        Ok(true)
    } else {
        Err(GameError::NoActiveGame)
    }
}

pub fn needs_active_voting(data: &Data) -> (r: Result<bool, GameError>)
    ensures
        match r {
            Ok(b) => b && data.voting is Some,
            Err(e) => e == GameError::NoActiveVoting && data.voting is None,
        },
{
    if data.voting.is_some() {
        Ok(true)
    } else {
        Err(GameError::NoActiveVoting)
    }
}

/// This assumes an active voting round.
pub fn did_not_vote(data: &Data, author: u64) -> (r: Result<bool, GameError>)
    requires
        data.voting is Some,
    ensures
        match r {
            Ok(b) => b && (data.voting matches Some(v) && !v@.dom().contains(author)),
            Err(e) => e == GameError::AlreadyVoted(author) && (data.voting matches Some(v)
                && v@.dom().contains(author)),
        },
{
    match &data.voting {
        Some(v) => {
            if v.has_voted(author) {
                Err(GameError::AlreadyVoted(author))
            } else {
                Ok(true)
            }
        },
        None => {
            proof {
                assert(false);
            }
            Err(GameError::NoActiveVoting)
        },
    }
}

/// This assumes an active game.
pub fn is_in_game(data: &Data, author: u64) -> (r: Result<bool, GameError>)
    requires
        data.game is Some,
    ensures
        match r {
            Ok(b) => b && (data.game matches Some(g) && g.members@.dom().contains(author)),
            Err(e) => e == GameError::NotInGame(author) && (data.game matches Some(g)
                && !g.members@.dom().contains(author)),
        },
{
    match &data.game {
        Some(g) => {
            if g.contains_player(author) {
                Ok(true)
            } else {
                Err(GameError::NotInGame(author))
            }
        },
        None => {
            proof {
                assert(false);
            }
            Err(GameError::NoActiveGame)
        },
    }
}

/// This assumes an active game.
pub fn is_game_moderator(data: &Data, author: u64) -> (r: Result<bool, GameError>)
    requires
        data.game is Some,
    ensures
        match r {
            Ok(b) => b && (data.game matches Some(g) && g.moderator == author),
            Err(e) => e == GameError::NotModerator(author) && (data.game matches Some(g)
                && g.moderator != author),
        },
{
    match &data.game {
        Some(g) => {
            if g.moderator == author {
                Ok(true)
            } else {
                Err(GameError::NotModerator(author))
            }
        },
        None => {
            proof {
                assert(false);
            }
            Err(GameError::NoActiveGame)
        },
    }
}

/// This assumes an active game with the author enrolled in it.
pub fn author_is_alive(data: &Data, author: u64) -> (r: Result<bool, GameError>)
    requires
        data.wf(),
        data.game matches Some(g) && g.members@.dom().contains(author),
    ensures
        match r {
            Ok(b) => b && (data.game matches Some(g) && !spec_eliminated(
                g.members@[author] as int,
            )),
            Err(e) => e == GameError::VoterNotEligible(author) && (data.game matches Some(g)
                && spec_eliminated(g.members@[author] as int)),
        },
{
    match &data.game {
        Some(g) => {
            match g.members.lives_of(author) {
                Some(l) => {
                    if l > 0 {
                        Ok(true)
                    } else {
                        Err(GameError::VoterNotEligible(author))
                    }
                },
                None => {
                    proof {
                        assert(false);
                    }
                    Err(GameError::NotInGame(author))
                },
            }
        },
        None => {
            proof {
                assert(false);
            }
            Err(GameError::NoActiveGame)
        },
    }
}

} // verus!
