//! The tally engine: a pure computation from the ballots of a closed
//! round to per-nominee vote counts and a decision.  A unique nominee
//! with the most votes is the clear winner and loses one life; several
//! nominees sharing the most votes is a tie, and a tie deliberately
//! eliminates nobody.

use vstd::prelude::*;
use crate::assoc::AssocList;
use crate::assoc::has_key;
use crate::assoc::lemma_map_of_dom;
use crate::assoc::lemma_map_of_dom_len;
use crate::assoc::lemma_map_of_finite;
use crate::assoc::lemma_map_of_index;
use crate::assoc::lemma_map_of_take_step;
use crate::assoc::lemma_seq_map_val_count;
use crate::assoc::lemma_uniq_take;
use crate::assoc::lemma_val_count_insert;
use crate::assoc::lemma_val_count_le;
use crate::assoc::lemma_val_count_pos;
use crate::assoc::lemma_val_count_singleton;
use crate::assoc::lemma_val_count_two;
use crate::assoc::map_of;
use crate::assoc::map_val_count;
use crate::assoc::seq_val_count;

verus! {

/// The decision a closed round's ballots lead to.
#[derive(Debug, Clone, Copy, PartialEq, Eq, Structural)]
pub enum VoteOutcome {
    /// Several nominees share the highest vote count; nobody loses a
    /// life this round.
    NoClearWinner { members_with_equal_votes_count: usize, max_vote_count: usize },
    /// Exactly one nominee has strictly more votes than every other;
    /// they lose one life.
    ClearWinner { user: u64, num_votes: usize },
}

/// `counts` is exactly the per-nominee tally of `ballots`: its keys are
/// the nominees that received at least one vote, each mapped to the
/// number of ballots naming them.
pub open spec fn counts_of(ballots: Map<u64, u64>, counts: Map<u64, usize>) -> bool {
    (forall|n: u64|
        #![trigger counts.dom().contains(n)]
        #![trigger map_val_count(ballots, n)]
        counts.dom().contains(n) <==> map_val_count(ballots, n) >= 1) && (forall|n: u64|
        #[trigger] counts.dom().contains(n) ==> counts[n] == map_val_count(ballots, n))
}

/// `c` is the highest vote count appearing in `counts`.
pub open spec fn is_max_count(counts: Map<u64, usize>, c: usize) -> bool {
    (exists|n: u64| #[trigger] counts.dom().contains(n) && counts[n] == c) && (forall|n: u64|
        #[trigger] counts.dom().contains(n) ==> counts[n] <= c)
}

/// The decision `out` is the one the vote counts `counts` call for.
pub open spec fn outcome_matches(counts: Map<u64, usize>, out: VoteOutcome) -> bool {
    match out {
        VoteOutcome::ClearWinner { user, num_votes } => counts.dom().contains(user)
            && counts[user] == num_votes && (forall|n: u64|
            #[trigger] counts.dom().contains(n) && n != user ==> counts[n] < num_votes),
        VoteOutcome::NoClearWinner { members_with_equal_votes_count, max_vote_count } => is_max_count(
            counts,
            max_vote_count,
        ) && members_with_equal_votes_count == map_val_count(counts, max_vote_count)
            && members_with_equal_votes_count >= 2,
    }
}

/// The decision `out` is the one the ballots call for: it matches some
/// tally of them.
pub open spec fn ballots_outcome(ballots: Map<u64, u64>, out: VoteOutcome) -> bool {
    exists|c: Map<u64, usize>|
        #[trigger] counts_of(ballots, c) && c.dom().finite() && outcome_matches(c, out)
}

/// Sums up the ballots into one vote count per nominee.
pub fn sum_up_votes(ballots: &AssocList<u64>) -> (counts: AssocList<usize>)
    requires
        ballots.wf(),
    ensures
        counts.wf(),
        counts_of(ballots@, counts@),
{
    let entries = ballots.entries_vec();
    let ghost s = ballots.entries_seq();
    let n = entries.len();
    let mut counts = AssocList::<usize>::new();
    proof {
        assert(s.take(0) =~= Seq::<(u64, u64)>::empty());
        assert forall|x: u64| #[trigger] map_val_count(map_of(s.take(0)), x) == 0 by {
            assert(map_of(s.take(0)).dom().filter(|k: u64| map_of(s.take(0))[k] == x)
                =~= Set::<u64>::empty());
        }
    }
    let mut i: usize = 0;
    while i < n
        invariant
            ballots.wf(),
            s == ballots.entries_seq(),
            n == s.len(),
            entries@ == s,
            i <= n,
            counts.wf(),
            counts_of(map_of(s.take(i as int)), counts@),
        decreases n - i,
    {
        let pair = entries[i];
        let voter = pair.0;
        let nominee = pair.1;
        let ghost m0 = map_of(s.take(i as int));
        let ghost m1 = map_of(s.take(i + 1));
        proof {
            lemma_uniq_take(s, i as int);
            lemma_map_of_finite(s.take(i as int));
            lemma_map_of_dom_len(s.take(i as int));
            lemma_map_of_dom(s.take(i as int));
            lemma_map_of_take_step(s, i as int);
            assert(s[i as int] == pair);
            assert(!m0.dom().contains(voter)) by {
                if has_key(s.take(i as int), voter) {
                    let j = choose|j: int|
                        0 <= j < i && (#[trigger] s.take(i as int)[j]).0 == voter;
                    assert(s.take(i as int)[j] == s[j]);
                    assert(s[j].0 == s[i as int].0);
                }
            }
            assert(m1 == m0.insert(voter, nominee));
            assert forall|x: u64| #[trigger]
                map_val_count(m1, x) == map_val_count(m0, x) + if nominee == x {
                    1int
                } else {
                    0int
                } by {
                lemma_val_count_insert(m0, voter, nominee, x);
            }
            lemma_val_count_le(m0, nominee);
        }
        match counts.get_copied(nominee) {
            Some(c) => {
                proof {
                    assert(c == map_val_count(m0, nominee));
                    assert(c <= i);
                }
                counts.update_value(nominee, c + 1);
            },
            None => {
                proof {
                    assert(map_val_count(m0, nominee) == 0);
                }
                counts.insert_new(nominee, 1);
            },
        }
        proof {
            assert forall|x: u64| #[trigger] counts@.dom().contains(x) implies counts@[x]
                == map_val_count(m1, x) by {}
            assert forall|x: u64| #[trigger]
                counts@.dom().contains(x) <==> map_val_count(m1, x) >= 1 by {}
        }
        i += 1;
    }
    proof {
        assert(s.take(n as int) =~= s);
    }
    counts
}

/// Decides from the vote counts whether one nominee has a plurality or
/// the top count is shared.
pub fn decide_winner(counts: &AssocList<usize>) -> (out: VoteOutcome)
    requires
        counts.wf(),
        counts.entries_seq().len() > 0,
    ensures
        outcome_matches(counts@, out),
{
    let entries = counts.entries_vec();
    let ghost s = counts.entries_seq();
    let n = entries.len();
    let mut mx: usize = entries[0].1;
    let mut i: usize = 1;
    while i < n
        invariant
            n == s.len(),
            entries@ == s,
            1 <= i <= n,
            exists|j: int| 0 <= j < i && (#[trigger] s[j]).1 == mx,
            forall|j: int| 0 <= j < i ==> (#[trigger] s[j]).1 <= mx,
        decreases n - i,
    {
        if entries[i].1 > mx {
            mx = entries[i].1;
        }
        i += 1;
    }
    let mut cnt: usize = 0;
    let mut w: u64 = 0;
    let mut k: usize = 0;
    while k < n
        invariant
            n == s.len(),
            entries@ == s,
            k <= n,
            cnt == seq_val_count(s.take(k as int), mx),
            cnt <= k,
            cnt >= 1 ==> exists|j: int| 0 <= j < k && (#[trigger] s[j]) == (w, mx),
        decreases n - k,
    {
        proof {
            assert(s.take(k + 1).drop_last() =~= s.take(k as int));
            assert(s.take(k + 1).last() == s[k as int]);
        }
        if entries[k].1 == mx {
            cnt = cnt + 1;
            w = entries[k].0;
            proof {
                assert(s[k as int] == (w, mx));
            }
        }
        k += 1;
    }
    proof {
        assert(s.take(n as int) =~= s);
        lemma_seq_map_val_count(s, mx);
        lemma_map_of_finite(s);
        lemma_map_of_dom(s);
        assert(cnt == map_val_count(counts@, mx));
        // the maximum over the list is the maximum over the map
        assert forall|x: u64| #[trigger] counts@.dom().contains(x) implies counts@[x] <= mx by {
            let j = choose|j: int| 0 <= j < s.len() && (#[trigger] s[j]).0 == x;
            lemma_map_of_index(s, j);
        }
        let j0 = choose|j: int| 0 <= j < s.len() && (#[trigger] s[j]).1 == mx;
        lemma_map_of_index(s, j0);
        assert(counts@.dom().contains(s[j0].0) && counts@[s[j0].0] == mx);
        lemma_val_count_pos(counts@, mx);
        assert(cnt >= 1);
    }
    if cnt > 1 {
        VoteOutcome::NoClearWinner { members_with_equal_votes_count: cnt, max_vote_count: mx }
    } else {
        proof {
            let jw = choose|j: int| 0 <= j < s.len() && (#[trigger] s[j]) == (w, mx);
            lemma_map_of_index(s, jw);
            assert(counts@.dom().contains(w) && counts@[w] == mx);
            assert forall|x: u64| #[trigger] counts@.dom().contains(x) && x != w implies counts@[x]
                < mx by {
                if counts@[x] == mx {
                    lemma_val_count_two(counts@, x, w, mx);
                }
            }
        }
        VoteOutcome::ClearWinner { user: w, num_votes: mx }
    }
}

/// The decision is unique: any two outcomes matching the same vote
/// counts are equal.
pub proof fn lemma_outcome_unique(c: Map<u64, usize>, o1: VoteOutcome, o2: VoteOutcome)
    requires
        c.dom().finite(),
        outcome_matches(c, o1),
        outcome_matches(c, o2),
    ensures
        o1 == o2,
{
    match (o1, o2) {
        (
            VoteOutcome::ClearWinner { user: u1, num_votes: k1 },
            VoteOutcome::ClearWinner { user: u2, num_votes: k2 },
        ) => {
            if u1 != u2 {
                assert(c[u2] < k1);
                assert(c[u1] < k2);
                assert(false);
            }
        },
        (
            VoteOutcome::ClearWinner { user: u, num_votes: kk },
            VoteOutcome::NoClearWinner { members_with_equal_votes_count: t, max_vote_count: m },
        ) => {
            lemma_clear_winner_max_count(c, u, kk);
            let n0 = choose|n: u64| #[trigger] c.dom().contains(n) && c[n] == m;
            assert(m <= kk && kk <= m);
            assert(false);
        },
        (
            VoteOutcome::NoClearWinner { members_with_equal_votes_count: t, max_vote_count: m },
            VoteOutcome::ClearWinner { user: u, num_votes: kk },
        ) => {
            lemma_clear_winner_max_count(c, u, kk);
            let n0 = choose|n: u64| #[trigger] c.dom().contains(n) && c[n] == m;
            assert(m <= kk && kk <= m);
            assert(false);
        },
        (
            VoteOutcome::NoClearWinner { members_with_equal_votes_count: t1, max_vote_count: m1 },
            VoteOutcome::NoClearWinner { members_with_equal_votes_count: t2, max_vote_count: m2 },
        ) => {
            let n1 = choose|n: u64| #[trigger] c.dom().contains(n) && c[n] == m1;
            let n2 = choose|n: u64| #[trigger] c.dom().contains(n) && c[n] == m2;
            assert(m1 <= m2 && m2 <= m1);
        },
    }
}

/// A clear winner's vote count is the maximum, and exactly one nominee
/// holds it.
proof fn lemma_clear_winner_max_count(c: Map<u64, usize>, u: u64, kk: usize)
    requires
        c.dom().finite(),
        outcome_matches(c, VoteOutcome::ClearWinner { user: u, num_votes: kk }),
    ensures
        is_max_count(c, kk),
        map_val_count(c, kk) == 1,
{
    assert(c.dom().contains(u) && c[u] == kk);
    lemma_val_count_singleton(c, u, kk);
}

/// The decision depends on the ballot mapping alone, never on the order
/// the ballots were cast in: two tallies of the same ballots, and two
/// outcomes matching those tallies, always coincide.
pub proof fn lemma_tally_deterministic(
    ballots: Map<u64, u64>,
    c1: Map<u64, usize>,
    c2: Map<u64, usize>,
    o1: VoteOutcome,
    o2: VoteOutcome,
)
    requires
        c1.dom().finite(),
        counts_of(ballots, c1),
        counts_of(ballots, c2),
        outcome_matches(c1, o1),
        outcome_matches(c2, o2),
    ensures
        o1 == o2,
{
    assert(c1 =~= c2) by {
        assert forall|n: u64| #[trigger] c1.dom().contains(n) implies c2.dom().contains(n)
            && c1[n] == c2[n] by {
            assert(map_val_count(ballots, n) >= 1);
        }
        assert forall|n: u64| #[trigger] c2.dom().contains(n) implies c1.dom().contains(n) by {
            assert(map_val_count(ballots, n) >= 1);
        }
    }
    lemma_outcome_unique(c1, o1, o2);
}

} // verus!
