//! A small verified map from participant ids (`u64`) to values, stored
//! as an association list with pairwise-distinct keys: insertion order
//! is kept, walking the entries is deterministic, and the abstract view
//! is a `Map<u64, V>`.  The module also provides the counting notions
//! the tally is built on: how many entries of a map hold a given value.

use vstd::prelude::*;

verus! {

/// The abstract map described by an association list, later entries
/// taking precedence (irrelevant once keys are unique).
pub open spec fn map_of<V>(s: Seq<(u64, V)>) -> Map<u64, V>
    decreases s.len(),
{
    if s.len() == 0 {
        Map::empty()
    } else {
        map_of(s.drop_last()).insert(s.last().0, s.last().1)
    }
}

/// All keys of the list are pairwise distinct.
pub open spec fn uniq_keys<V>(s: Seq<(u64, V)>) -> bool {
    forall|i: int, j: int|
        0 <= i < j < s.len() ==> (#[trigger] s[i]).0 != (#[trigger] s[j]).0
}

/// Some entry of the list has key `k`.
pub open spec fn has_key<V>(s: Seq<(u64, V)>, k: u64) -> bool {
    exists|i: int| 0 <= i < s.len() && (#[trigger] s[i]).0 == k
}

/// How many keys of `m` are mapped to the value `t`.
pub open spec fn map_val_count<V>(m: Map<u64, V>, t: V) -> nat {
    m.dom().filter(|k: u64| m[k] == t).len()
}

/// How many entries of the list hold the value `t`.
pub open spec fn seq_val_count<V>(s: Seq<(u64, V)>, t: V) -> nat
    decreases s.len(),
{
    if s.len() == 0 {
        0
    } else {
        seq_val_count(s.drop_last(), t) + if s.last().1 == t { 1nat } else { 0nat }
    }
}

pub proof fn lemma_map_of_push<V>(s: Seq<(u64, V)>, k: u64, v: V)
    ensures
        map_of(s.push((k, v))) == map_of(s).insert(k, v),
{
    assert(s.push((k, v)).drop_last() =~= s);
    assert(s.push((k, v)).last() == (k, v));
}

pub proof fn lemma_map_of_dom<V>(s: Seq<(u64, V)>)
    ensures
        forall|k: u64| #[trigger] map_of(s).dom().contains(k) <==> has_key(s, k),
    decreases s.len(),
{
    if s.len() == 0 {
    } else {
        let d = s.drop_last();
        lemma_map_of_dom(d);
        assert(d.len() == s.len() - 1);
        assert forall|k: u64| #[trigger] map_of(s).dom().contains(k) implies has_key(s, k) by {
            if k == s.last().0 {
                assert(s[s.len() - 1].0 == k);
            } else {
                assert(map_of(d).dom().contains(k));
                assert(has_key(d, k));
                let i = choose|i: int| 0 <= i < d.len() && (#[trigger] d[i]).0 == k;
                assert(d[i] == s[i]);
                assert(s[i].0 == k);
            }
        }
        assert forall|k: u64| has_key(s, k) implies #[trigger] map_of(s).dom().contains(k) by {
            let i = choose|i: int| 0 <= i < s.len() && (#[trigger] s[i]).0 == k;
            if i < s.len() - 1 {
                assert(d[i] == s[i]);
                assert(d[i].0 == k);
                assert(has_key(d, k));
                assert(map_of(d).dom().contains(k));
                assert(map_of(s).dom() =~= map_of(d).dom().insert(s.last().0));
            } else {
                assert(k == s.last().0);
            }
        }
    }
}

pub proof fn lemma_map_of_index<V>(s: Seq<(u64, V)>, i: int)
    requires
        uniq_keys(s),
        0 <= i < s.len(),
    ensures
        map_of(s).dom().contains(s[i].0),
        map_of(s)[s[i].0] == s[i].1,
    decreases s.len(),
{
    lemma_map_of_dom(s);
    if i == s.len() - 1 {
    } else {
        let d = s.drop_last();
        assert(d[i] == s[i]);
        lemma_map_of_index(d, i);
        assert(s[i].0 != s.last().0);
    }
}

pub proof fn lemma_map_of_finite<V>(s: Seq<(u64, V)>)
    ensures
        map_of(s).dom().finite(),
    decreases s.len(),
{
    if s.len() == 0 {
    } else {
        lemma_map_of_finite(s.drop_last());
    }
}

pub proof fn lemma_map_of_dom_len<V>(s: Seq<(u64, V)>)
    requires
        uniq_keys(s),
    ensures
        map_of(s).dom().finite(),
        map_of(s).dom().len() == s.len(),
    decreases s.len(),
{
    lemma_map_of_finite(s);
    if s.len() == 0 {
        assert(map_of(s).dom() =~= Set::<u64>::empty());
    } else {
        let d = s.drop_last();
        lemma_map_of_dom_len(d);
        lemma_map_of_dom(d);
        assert(!has_key(d, s.last().0)) by {
            if has_key(d, s.last().0) {
                let i = choose|i: int| 0 <= i < d.len() && (#[trigger] d[i]).0 == s.last().0;
                assert(s[i].0 == s[s.len() - 1].0);
            }
        }
    }
}

pub proof fn lemma_uniq_drop_last<V>(s: Seq<(u64, V)>)
    requires
        uniq_keys(s),
        s.len() > 0,
    ensures
        uniq_keys(s.drop_last()),
        !has_key(s.drop_last(), s.last().0),
{
    let d = s.drop_last();
    assert forall|i: int, j: int| 0 <= i < j < d.len() implies (#[trigger] d[i]).0 != (
    #[trigger] d[j]).0 by {
        assert(d[i] == s[i]);
        assert(d[j] == s[j]);
    }
    if has_key(d, s.last().0) {
        let i = choose|i: int| 0 <= i < d.len() && (#[trigger] d[i]).0 == s.last().0;
        assert(s[i] == d[i]);
        assert(s[i].0 == s[s.len() - 1].0);
    }
}

pub proof fn lemma_uniq_take<V>(s: Seq<(u64, V)>, n: int)
    requires
        uniq_keys(s),
        0 <= n <= s.len(),
    ensures
        uniq_keys(s.take(n)),
{
    let t = s.take(n);
    assert forall|i: int, j: int| 0 <= i < j < t.len() implies (#[trigger] t[i]).0 != (
    #[trigger] t[j]).0 by {
        assert(t[i] == s[i]);
        assert(t[j] == s[j]);
    }
}

pub proof fn lemma_map_of_take_step<V>(s: Seq<(u64, V)>, i: int)
    requires
        0 <= i < s.len(),
    ensures
        map_of(s.take(i + 1)) == map_of(s.take(i)).insert(s[i].0, s[i].1),
{
    assert(s.take(i + 1).drop_last() =~= s.take(i));
    assert(s.take(i + 1).last() == s[i]);
}

pub proof fn lemma_val_count_insert<V>(m: Map<u64, V>, k: u64, v: V, t: V)
    requires
        m.dom().finite(),
        !m.dom().contains(k),
    ensures
        map_val_count(m.insert(k, v), t) == map_val_count(m, t) + if v == t {
            1int
        } else {
            0int
        },
{
    let m2 = m.insert(k, v);
    let f = |x: u64| m[x] == t;
    let f2 = |x: u64| m2[x] == t;
    m.dom().lemma_len_filter(f);
    if v == t {
        assert(m2.dom().filter(f2) =~= m.dom().filter(f).insert(k));
    } else {
        assert(m2.dom().filter(f2) =~= m.dom().filter(f));
    }
}

pub proof fn lemma_val_count_le<V>(m: Map<u64, V>, t: V)
    requires
        m.dom().finite(),
    ensures
        map_val_count(m, t) <= m.dom().len(),
{
    m.dom().lemma_len_filter(|x: u64| m[x] == t);
}

pub proof fn lemma_val_count_pos<V>(m: Map<u64, V>, t: V)
    requires
        m.dom().finite(),
    ensures
        map_val_count(m, t) >= 1 <==> exists|k: u64| #[trigger] m.dom().contains(k) && m[k] == t,
{
    let f = |x: u64| m[x] == t;
    if exists|k: u64| #[trigger] m.dom().contains(k) && m[k] == t {
        let k = choose|k: u64| #[trigger] m.dom().contains(k) && m[k] == t;
        assert(m.dom().filter(f).contains(k));
        m.dom().lemma_len_filter(f);
        if m.dom().filter(f).len() == 0 {
            m.dom().filter(f).lemma_len0_is_empty();
        }
    } else {
        assert(m.dom().filter(f) =~= Set::<u64>::empty());
    }
}

pub proof fn lemma_val_count_singleton<V>(m: Map<u64, V>, k: u64, t: V)
    requires
        m.dom().finite(),
        m.dom().contains(k),
        m[k] == t,
        forall|x: u64| #[trigger] m.dom().contains(x) && x != k ==> m[x] != t,
    ensures
        map_val_count(m, t) == 1,
{
    let f = |x: u64| m[x] == t;
    assert(m.dom().filter(f) =~= Set::<u64>::empty().insert(k));
    assert(Set::<u64>::empty().insert(k).len() == 1);
}

pub proof fn lemma_val_count_two<V>(m: Map<u64, V>, k1: u64, k2: u64, t: V)
    requires
        m.dom().finite(),
        m.dom().contains(k1),
        m.dom().contains(k2),
        k1 != k2,
        m[k1] == t,
        m[k2] == t,
    ensures
        map_val_count(m, t) >= 2,
{
    let f = |x: u64| m[x] == t;
    let pair = Set::<u64>::empty().insert(k1).insert(k2);
    assert(pair.len() == 2);
    m.dom().lemma_len_filter(f);
    vstd::set_lib::lemma_len_subset(pair, m.dom().filter(f));
}

pub proof fn lemma_seq_map_val_count<V>(s: Seq<(u64, V)>, t: V)
    requires
        uniq_keys(s),
    ensures
        map_val_count(map_of(s), t) == seq_val_count(s, t),
    decreases s.len(),
{
    lemma_map_of_finite(s);
    if s.len() == 0 {
        assert(map_of(s).dom().filter(|x: u64| map_of(s)[x] == t) =~= Set::<u64>::empty());
    } else {
        let d = s.drop_last();
        lemma_uniq_drop_last(s);
        lemma_seq_map_val_count(d, t);
        lemma_map_of_dom(d);
        lemma_map_of_finite(d);
        lemma_val_count_insert(map_of(d), s.last().0, s.last().1, t);
    }
}

/// A map from ids to values, with pairwise-distinct keys.
pub struct AssocList<V> {
    entries: Vec<(u64, V)>,
}

impl<V> View for AssocList<V> {
    type V = Map<u64, V>;

    open spec fn view(&self) -> Map<u64, V> {
        map_of(self.entries_seq())
    }
}

impl<V> AssocList<V> {
    /// The entries in insertion order.
    pub closed spec fn entries_seq(self) -> Seq<(u64, V)> {
        self.entries@
    }

    /// Well-formedness: no key occurs twice.
    pub open spec fn wf(self) -> bool {
        uniq_keys(self.entries_seq())
    }

    pub fn new() -> (r: Self)
        ensures
            r.wf(),
            r.entries_seq() == Seq::<(u64, V)>::empty(),
            r@ == Map::<u64, V>::empty(),
    {
        AssocList { entries: Vec::new() }
    }

    pub fn len(&self) -> (n: usize)
        ensures
            n == self.entries_seq().len(),
    {
        self.entries.len()
    }

    fn index_of(&self, k: u64) -> (r: Option<usize>)
        ensures
            match r {
                Some(i) => i < self.entries_seq().len() && self.entries_seq()[i as int].0 == k,
                None => !has_key(self.entries_seq(), k),
            },
    {
        let n = self.entries.len();
        let mut i: usize = 0;
        while i < n
            invariant
                n == self.entries@.len(),
                i <= n,
                forall|j: int| 0 <= j < i ==> (#[trigger] self.entries@[j]).0 != k,
            decreases n - i,
        {
            if self.entries[i].0 == k {
                return Some(i);
            }
            i += 1;
        }
        None
    }

    pub fn contains_key(&self, k: u64) -> (b: bool)
        ensures
            b == self@.dom().contains(k),
    {
        proof {
            lemma_map_of_dom(self.entries_seq());
        }
        self.index_of(k).is_some()
    }

    pub fn insert_new(&mut self, k: u64, v: V)
        requires
            old(self).wf(),
            !old(self)@.dom().contains(k),
        ensures
            final(self).wf(),
            final(self)@ == old(self)@.insert(k, v),
            final(self).entries_seq() == old(self).entries_seq().push((k, v)),
    {
        proof {
            lemma_map_of_dom(self.entries_seq());
            lemma_map_of_push(self.entries_seq(), k, v);
        }
        let ghost s0 = self.entries@;
        self.entries.push((k, v));
        proof {
            let s = self.entries@;
            assert forall|i: int, j: int| 0 <= i < j < s.len() implies (#[trigger] s[i]).0 != (
            #[trigger] s[j]).0 by {
                if j < s.len() - 1 {
                    assert(s[i] == s0[i]);
                    assert(s[j] == s0[j]);
                } else {
                    assert(s[i] == s0[i]);
                    assert(!has_key(s0, k));
                }
            }
        }
    }

    pub fn update_value(&mut self, k: u64, v: V)
        requires
            old(self).wf(),
            old(self)@.dom().contains(k),
        ensures
            final(self).wf(),
            final(self)@ == old(self)@.insert(k, v),
            final(self).entries_seq().len() == old(self).entries_seq().len(),
    {
        proof {
            lemma_map_of_dom(self.entries_seq());
        }
        let i = match self.index_of(k) {
            Some(i) => i,
            None => {
                proof {
                    assert(false);
                }
                0
            },
        };
        proof {
            lemma_map_of_update(self.entries_seq(), i as int, v);
        }
        self.entries.set(i, (k, v));
    }

    pub fn remove_key(&mut self, k: u64)
        requires
            old(self).wf(),
            old(self)@.dom().contains(k),
        ensures
            final(self).wf(),
            final(self)@ == old(self)@.remove(k),
    {
        proof {
            lemma_map_of_dom(self.entries_seq());
        }
        let i = match self.index_of(k) {
            Some(i) => i,
            None => {
                proof {
                    assert(false);
                }
                0
            },
        };
        proof {
            lemma_map_of_remove_idx(self.entries_seq(), i as int);
        }
        self.entries.remove(i);
    }
}

impl<V: Copy> AssocList<V> {
    pub fn get_copied(&self, k: u64) -> (r: Option<V>)
        requires
            self.wf(),
        ensures
            r is Some <==> self@.dom().contains(k),
            r matches Some(v) ==> v == self@[k],
    {
        proof {
            lemma_map_of_dom(self.entries_seq());
        }
        match self.index_of(k) {
            Some(i) => {
                proof {
                    lemma_map_of_index(self.entries_seq(), i as int);
                }
                Some(self.entries[i].1)
            },
            None => None,
        }
    }

    /// A copy of the entries in insertion order.
    pub fn entries_vec(&self) -> (r: Vec<(u64, V)>)
        ensures
            r@ == self.entries_seq(),
    {
        let n = self.entries.len();
        let mut r: Vec<(u64, V)> = Vec::new();
        let mut i: usize = 0;
        while i < n
            invariant
                n == self.entries@.len(),
                i <= n,
                r@ == self.entries@.take(i as int),
            decreases n - i,
        {
            r.push(self.entries[i]);
            proof {
                assert(self.entries@.take(i + 1) =~= self.entries@.take(i as int).push(
                    self.entries@[i as int],
                ));
            }
            i += 1;
        }
        proof {
            assert(self.entries@.take(n as int) =~= self.entries@);
        }
        r
    }
}

pub proof fn lemma_map_of_update<V>(s: Seq<(u64, V)>, i: int, v: V)
    requires
        uniq_keys(s),
        0 <= i < s.len(),
    ensures
        uniq_keys(s.update(i, (s[i].0, v))),
        map_of(s.update(i, (s[i].0, v))) == map_of(s).insert(s[i].0, v),
    decreases s.len(),
{
    let k = s[i].0;
    let s2 = s.update(i, (k, v));
    assert forall|a: int, b: int| 0 <= a < b < s2.len() implies (#[trigger] s2[a]).0 != (
    #[trigger] s2[b]).0 by {
        assert(s[a].0 != s[b].0);
        assert(s2[a].0 == s[a].0);
        assert(s2[b].0 == s[b].0);
    }
    lemma_uniq_drop_last(s);
    if i == s.len() - 1 {
        assert(s2.drop_last() =~= s.drop_last());
        assert(s2.last() == (k, v));
        assert(map_of(s2) == map_of(s.drop_last()).insert(k, v));
        assert(map_of(s).insert(k, v) =~= map_of(s.drop_last()).insert(k, v));
    } else {
        let d = s.drop_last();
        assert(s2.drop_last() =~= d.update(i, (k, v)));
        assert(d[i] == s[i]);
        lemma_map_of_update(d, i, v);
        assert(s2.last() == s.last());
        assert(k != s.last().0) by {
            assert(s[i].0 != s[s.len() - 1].0);
        }
        assert(map_of(s2) == map_of(d).insert(k, v).insert(s.last().0, s.last().1));
        assert(map_of(d).insert(k, v).insert(s.last().0, s.last().1) =~= map_of(d).insert(
            s.last().0,
            s.last().1,
        ).insert(k, v));
    }
}

pub proof fn lemma_map_of_remove_idx<V>(s: Seq<(u64, V)>, i: int)
    requires
        uniq_keys(s),
        0 <= i < s.len(),
    ensures
        uniq_keys(s.remove(i)),
        map_of(s.remove(i)) == map_of(s).remove(s[i].0),
    decreases s.len(),
{
    let k = s[i].0;
    let s2 = s.remove(i);
    assert forall|a: int, b: int| 0 <= a < b < s2.len() implies (#[trigger] s2[a]).0 != (
    #[trigger] s2[b]).0 by {
        let a0 = if a < i {
            a
        } else {
            a + 1
        };
        let b0 = if b < i {
            b
        } else {
            b + 1
        };
        assert(s2[a] == s[a0]);
        assert(s2[b] == s[b0]);
        assert(s[a0].0 != s[b0].0);
    }
    lemma_uniq_drop_last(s);
    lemma_map_of_dom(s.drop_last());
    if i == s.len() - 1 {
        assert(s2 =~= s.drop_last());
        assert(!map_of(s.drop_last()).dom().contains(k));
        assert(map_of(s.drop_last()).insert(k, s[i].1).remove(k) =~= map_of(s.drop_last()));
    } else {
        let d = s.drop_last();
        assert(s2.drop_last() =~= d.remove(i));
        assert(d[i] == s[i]);
        lemma_map_of_remove_idx(d, i);
        assert(s2.last() == s.last());
        assert(k != s.last().0) by {
            assert(s[i].0 != s[s.len() - 1].0);
        }
        assert(map_of(s2) == map_of(d).remove(k).insert(s.last().0, s.last().1));
        assert(map_of(d).remove(k).insert(s.last().0, s.last().1) =~= map_of(d).insert(
            s.last().0,
            s.last().1,
        ).remove(k));
    }
}

} // verus!
