//! The roster of a game: a mapping from participant id to remaining
//! lives.  A participant whose lives have dropped to zero or below is
//! eliminated but stays on the roster until the moderator removes them.

use vstd::prelude::*;
use crate::assoc::AssocList;
use crate::game::PlayerError;

verus! {

/// Lives a participant enrolls with when no count is given.
pub const DEFAULT_LIVES: i32 = 3;

/// The life count after the tally deducts one life.  The deduction is
/// exact everywhere except at the least representable count, where it
/// saturates rather than wrap.
pub open spec fn spec_deduct(lives: int) -> int {
    if lives > i32::MIN {
        lives - 1
    } else {
        lives
    }
}

/// A participant with this life count is eliminated.
pub open spec fn spec_eliminated(lives: int) -> bool {
    lives <= 0
}

/// A well-formed roster never holds two entries for the same
/// participant, whatever sequence of operations built it: every
/// operation requires and preserves well-formedness.
pub proof fn lemma_roster_no_duplicate_keys(r: Roster)
    requires
        r.wf(),
    ensures
        forall|i: int, j: int|
            0 <= i < j < r.entries().len() ==> (#[trigger] r.entries()[i]).0 != (
            #[trigger] r.entries()[j]).0,
{
}

/// The elimination boundary: a participant holding exactly one life is
/// alive before the tally's deduction and eliminated by it, landing on
/// exactly zero lives.
pub proof fn lemma_elimination_boundary(lives: int)
    requires
        lives == 1,
    ensures
        !spec_eliminated(lives),
        spec_deduct(lives) == 0,
        spec_eliminated(spec_deduct(lives)),
{
}

pub struct Roster {
    players: AssocList<i32>,
}

impl View for Roster {
    type V = Map<u64, i32>;

    open spec fn view(&self) -> Map<u64, i32> {
        crate::assoc::map_of(self.entries())
    }
}

impl Roster {
    /// The enrolled participants with their lives, in enrollment order.
    pub closed spec fn entries(self) -> Seq<(u64, i32)> {
        self.players.entries_seq()
    }

    pub open spec fn wf(self) -> bool {
        crate::assoc::uniq_keys(self.entries())
    }

    pub fn new() -> (r: Roster)
        ensures
            r.wf(),
            r@ == Map::<u64, i32>::empty(),
            r.entries() == Seq::<(u64, i32)>::empty(),
    {
        Roster { players: AssocList::new() }
    }

    pub fn contains_participant(&self, id: u64) -> (b: bool)
        ensures
            b == self@.dom().contains(id),
    {
        self.players.contains_key(id)
    }

    /// Enrolls `id` with the given life count; a second enrollment of the
    /// same id fails and changes nothing.
    pub fn add_participant(&mut self, id: u64, lives: i32) -> (r: Result<(), PlayerError>)
        requires
            old(self).wf(),
        ensures
            final(self).wf(),
            match r {
                Ok(()) => !old(self)@.dom().contains(id) && final(self)@ == old(self)@.insert(
                    id,
                    lives,
                ) && final(self).entries() == old(self).entries().push((id, lives)),
                Err(e) => e == PlayerError::PlayerAlreadyAdded(id) && old(self)@.dom().contains(id)
                    && *final(self) == *old(self),
            },
    {
        if self.players.contains_key(id) {
            return Err(PlayerError::PlayerAlreadyAdded(id));
        }
        self.players.insert_new(id, lives);
        Ok(())
    }

    pub fn remove_participant(&mut self, id: u64) -> (r: Result<(), PlayerError>)
        requires
            old(self).wf(),
        ensures
            final(self).wf(),
            match r {
                Ok(()) => old(self)@.dom().contains(id) && final(self)@ == old(self)@.remove(id),
                Err(e) => e == PlayerError::PlayerNotInGame(id) && !old(self)@.dom().contains(id)
                    && *final(self) == *old(self),
            },
    {
        if !self.players.contains_key(id) {
            return Err(PlayerError::PlayerNotInGame(id));
        }
        self.players.remove_key(id);
        Ok(())
    }

    /// Overwrites the life count unconditionally; any value, negative
    /// included, is allowed and merely counts as eliminated once at or
    /// below zero.
    pub fn set_lives(&mut self, id: u64, amount: i32) -> (r: Result<(), PlayerError>)
        requires
            old(self).wf(),
        ensures
            final(self).wf(),
            match r {
                Ok(()) => old(self)@.dom().contains(id) && final(self)@ == old(self)@.insert(
                    id,
                    amount,
                ),
                Err(e) => e == PlayerError::PlayerNotInGame(id) && !old(self)@.dom().contains(id)
                    && *final(self) == *old(self),
            },
    {
        if !self.players.contains_key(id) {
            return Err(PlayerError::PlayerNotInGame(id));
        }
        self.players.update_value(id, amount);
        Ok(())
    }

    pub fn lives_of(&self, id: u64) -> (r: Option<i32>)
        requires
            self.wf(),
        ensures
            r is Some <==> self@.dom().contains(id),
            r matches Some(l) ==> l == self@[id],
    {
        self.players.get_copied(id)
    }

    pub fn is_eliminated(&self, id: u64) -> (r: Result<bool, PlayerError>)
        requires
            self.wf(),
        ensures
            match r {
                Ok(b) => self@.dom().contains(id) && b == spec_eliminated(self@[id] as int),
                Err(e) => e == PlayerError::PlayerNotInGame(id) && !self@.dom().contains(id),
            },
    {
        match self.players.get_copied(id) {
            Some(lives) => Ok(lives <= 0),
            None => Err(PlayerError::PlayerNotInGame(id)),
        }
    }

    /// Takes one life from `id`; the deduction the tally decision calls
    /// for.
    pub fn deduct_life(&mut self, id: u64)
        requires
            old(self).wf(),
            old(self)@.dom().contains(id),
        ensures
            final(self).wf(),
            final(self)@ == old(self)@.insert(id, spec_deduct(old(self)@[id] as int) as i32),
    {
        let lives = match self.players.get_copied(id) {
            Some(l) => l,
            None => {
                proof {
                    assert(false);
                }
                0
            },
        };
        let new_lives: i32 = if lives > i32::MIN {
            lives - 1
        } else {
            lives
        };
        self.players.update_value(id, new_lives);
    }

    /// A copy of the roster entries, for display.
    pub fn entries_vec(&self) -> (r: Vec<(u64, i32)>)
        ensures
            r@ == self.entries(),
    {
        self.players.entries_vec()
    }
}

} // verus!
