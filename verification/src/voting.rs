//! A voting round: who opened it, and one ballot per voter mapping the
//! voter to the nominee they voted for.

use vstd::prelude::*;
use crate::assoc::AssocList;

verus! {

pub struct Voting {
    pub creator: u64,
    pub ballots: AssocList<u64>,
}

impl View for Voting {
    type V = Map<u64, u64>;

    open spec fn view(&self) -> Map<u64, u64> {
        self.ballots@
    }
}

impl Voting {
    /// The ballots in the order they were cast.
    pub open spec fn ballots_seq(self) -> Seq<(u64, u64)> {
        self.ballots.entries_seq()
    }

    pub open spec fn wf(self) -> bool {
        self.ballots.wf()
    }

    pub fn new(creator: u64) -> (v: Voting)
        ensures
            v.wf(),
            v.creator == creator,
            v@ == Map::<u64, u64>::empty(),
            v.ballots_seq() == Seq::<(u64, u64)>::empty(),
    {
        Voting { creator, ballots: AssocList::new() }
    }

    pub fn has_voted(&self, voter: u64) -> (b: bool)
        ensures
            b == self@.dom().contains(voter),
    {
        self.ballots.contains_key(voter)
    }

    /// Records the ballot of a voter who has not voted yet this round.
    pub fn cast(&mut self, voter: u64, nominee: u64)
        requires
            old(self).wf(),
            !old(self)@.dom().contains(voter),
        ensures
            final(self).wf(),
            final(self).creator == old(self).creator,
            final(self)@ == old(self)@.insert(voter, nominee),
            final(self).ballots_seq() == old(self).ballots_seq().push((voter, nominee)),
    {
        self.ballots.insert_new(voter, nominee);
    }

    pub fn num_ballots(&self) -> (n: usize)
        ensures
            n == self.ballots_seq().len(),
    {
        self.ballots.len()
    }

    /// A copy of the ballots, voter paired with nominee, in cast order.
    pub fn ballots_vec(&self) -> (r: Vec<(u64, u64)>)
        ensures
            r@ == self.ballots_seq(),
    {
        self.ballots.entries_vec()
    }
}

} // verus!
