//! A running game: its creator, its moderator, and the roster of
//! participants with their remaining lives.

use vstd::prelude::*;
use crate::roster::Roster;
use crate::roster::spec_eliminated;

verus! {

/// Membership violations on the roster of a game.
#[derive(Debug, Clone, Copy, PartialEq, Eq, Structural)]
pub enum PlayerError {
    PlayerAlreadyAdded(u64),
    PlayerNotInGame(u64),
}

pub struct Game {
    pub creator: u64,
    pub moderator: u64,
    pub members: Roster,
}

impl Game {
    pub open spec fn wf(self) -> bool {
        self.members.wf()
    }

    pub fn new(creator: u64, moderator: u64) -> (g: Game)
        ensures
            g.wf(),
            g.creator == creator,
            g.moderator == moderator,
            g.members@ == Map::<u64, i32>::empty(),
            g.members.entries() == Seq::<(u64, i32)>::empty(),
    {
        Game { creator, moderator, members: Roster::new() }
    }

    pub fn contains_player(&self, player: u64) -> (b: bool)
        ensures
            b == self.members@.dom().contains(player),
    {
        self.members.contains_participant(player)
    }

    pub fn add_player(&mut self, player: u64, health: i32) -> (r: Result<(), PlayerError>)
        requires
            old(self).wf(),
        ensures
            final(self).wf(),
            final(self).creator == old(self).creator,
            final(self).moderator == old(self).moderator,
            match r {
                Ok(()) => !old(self).members@.dom().contains(player) && final(self).members@ == old(
                    self,
                ).members@.insert(player, health),
                Err(e) => e == PlayerError::PlayerAlreadyAdded(player) && old(
                    self,
                ).members@.dom().contains(player) && *final(self) == *old(self),
            },
    {
        self.members.add_participant(player, health)
    }

    pub fn remove_player(&mut self, player: u64) -> (r: Result<(), PlayerError>)
        requires
            old(self).wf(),
        ensures
            final(self).wf(),
            final(self).creator == old(self).creator,
            final(self).moderator == old(self).moderator,
            match r {
                Ok(()) => old(self).members@.dom().contains(player) && final(self).members@ == old(
                    self,
                ).members@.remove(player),
                Err(e) => e == PlayerError::PlayerNotInGame(player) && !old(
                    self,
                ).members@.dom().contains(player) && *final(self) == *old(self),
            },
    {
        self.members.remove_participant(player)
    }

    pub fn set_player_health(&mut self, player: u64, health: i32) -> (r: Result<(), PlayerError>)
        requires
            old(self).wf(),
        ensures
            final(self).wf(),
            final(self).creator == old(self).creator,
            final(self).moderator == old(self).moderator,
            match r {
                Ok(()) => old(self).members@.dom().contains(player) && final(self).members@ == old(
                    self,
                ).members@.insert(player, health),
                Err(e) => e == PlayerError::PlayerNotInGame(player) && !old(
                    self,
                ).members@.dom().contains(player) && *final(self) == *old(self),
            },
    {
        self.members.set_lives(player, health)
    }

    pub fn is_player_dead(&self, player: u64) -> (r: Result<bool, PlayerError>)
        requires
            self.wf(),
        ensures
            match r {
                Ok(b) => self.members@.dom().contains(player) && b == spec_eliminated(
                    self.members@[player] as int,
                ),
                Err(e) => e == PlayerError::PlayerNotInGame(player) && !self.members@.dom().contains(
                    player,
                ),
            },
    {
        self.members.is_eliminated(player)
    }

    pub fn is_player_alive(&self, player: u64) -> (r: Result<bool, PlayerError>)
        requires
            self.wf(),
        ensures
            match r {
                Ok(b) => self.members@.dom().contains(player) && b == !spec_eliminated(
                    self.members@[player] as int,
                ),
                Err(e) => e == PlayerError::PlayerNotInGame(player) && !self.members@.dom().contains(
                    player,
                ),
            },
    {
        match self.is_player_dead(player) {
            Ok(dead) => Ok(!dead),
            Err(e) => Err(e),
        }
    }
}

} // verus!
