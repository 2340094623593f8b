//! An association table: a vector of key-value pairs with distinct keys,
//! viewed in specifications as a finite `Map`.  Entry order is observable
//! (listing walks entries in insertion order), which the per-chain store
//! relies on for its secondary indices and list queries.

use vstd::laws_eq::obeys_concrete_eq;
use vstd::prelude::*;

verus! {

/// The map described by an association sequence: later entries win.
pub open spec fn assoc_map<K, V>(s: Seq<(K, V)>) -> Map<K, V>
    decreases s.len(),
{
    if s.len() == 0 {
        Map::empty()
    } else {
        assoc_map(s.drop_last()).insert(s.last().0, s.last().1)
    }
}

/// The models of an entry sequence's values, in entry order.
pub open spec fn entry_values_deep<K, V: DeepView>(s: Seq<(K, V)>) -> Seq<V::V> {
    Seq::new(s.len(), |i: int| s[i].1.deep_view())
}

/// No two entries share a key.
pub open spec fn keys_distinct<K, V>(s: Seq<(K, V)>) -> bool {
    forall|i: int, j: int| 0 <= i < j < s.len() ==> s[i].0 != s[j].0
}

pub proof fn lemma_assoc_contains<K, V>(s: Seq<(K, V)>, k: K)
    ensures
        assoc_map(s).contains_key(k) <==> exists|i: int| 0 <= i < s.len() && s[i].0 == k,
    decreases s.len(),
{
    if s.len() > 0 {
        lemma_assoc_contains(s.drop_last(), k);
        if s.last().0 == k {
            assert(s[s.len() - 1].0 == k);
        } else if assoc_map(s).contains_key(k) {
            let i = choose|i: int| 0 <= i < s.drop_last().len() && s.drop_last()[i].0 == k;
            assert(s[i].0 == k);
        } else if exists|i: int| 0 <= i < s.len() && s[i].0 == k {
            let i = choose|i: int| 0 <= i < s.len() && s[i].0 == k;
            assert(s.drop_last()[i].0 == k);
        }
    }
}

pub proof fn lemma_assoc_get<K, V>(s: Seq<(K, V)>, i: int)
    requires
        keys_distinct(s),
        0 <= i < s.len(),
    ensures
        assoc_map(s).contains_key(s[i].0),
        assoc_map(s)[s[i].0] == s[i].1,
    decreases s.len(),
{
    if i < s.len() - 1 {
        lemma_assoc_get(s.drop_last(), i);
        assert(s.drop_last()[i] == s[i]);
        assert(s.last().0 != s[i].0);
    }
}

pub proof fn lemma_assoc_absent<K, V>(s: Seq<(K, V)>, k: K)
    requires
        forall|i: int| 0 <= i < s.len() ==> s[i].0 != k,
    ensures
        !assoc_map(s).contains_key(k),
{
    lemma_assoc_contains(s, k);
}

pub proof fn lemma_assoc_push<K, V>(s: Seq<(K, V)>, k: K, v: V)
    ensures
        assoc_map(s.push((k, v))) == assoc_map(s).insert(k, v),
{
    assert(s.push((k, v)).drop_last() =~= s);
}

pub proof fn lemma_assoc_update<K, V>(s: Seq<(K, V)>, i: int, v: V)
    requires
        keys_distinct(s),
        0 <= i < s.len(),
    ensures
        assoc_map(s.update(i, (s[i].0, v))) == assoc_map(s).insert(s[i].0, v),
    decreases s.len(),
{
    let t = s.update(i, (s[i].0, v));
    if i == s.len() - 1 {
        assert(t.drop_last() =~= s.drop_last());
        assert(t.last() == (s[i].0, v));
    } else {
        assert(t.drop_last() =~= s.drop_last().update(i, (s[i].0, v)));
        assert(s.drop_last()[i] == s[i]);
        lemma_assoc_update(s.drop_last(), i, v);
        assert(t.last() == s.last());
        assert(s.last().0 != s[i].0);
        assert(assoc_map(t) =~= assoc_map(s).insert(s[i].0, v));
    }
}

pub proof fn lemma_assoc_remove<K, V>(s: Seq<(K, V)>, i: int)
    requires
        keys_distinct(s),
        0 <= i < s.len(),
    ensures
        assoc_map(s.remove(i)) == assoc_map(s).remove(s[i].0),
    decreases s.len(),
{
    let t = s.remove(i);
    if i == s.len() - 1 {
        assert(t =~= s.drop_last());
        lemma_assoc_absent(s.drop_last(), s[i].0);
        assert(assoc_map(t) =~= assoc_map(s).remove(s[i].0));
    } else {
        assert(t.drop_last() =~= s.drop_last().remove(i));
        assert(s.drop_last()[i] == s[i]);
        lemma_assoc_remove(s.drop_last(), i);
        assert(t.last() == s.last());
        assert(s.last().0 != s[i].0);
        assert(assoc_map(t) =~= assoc_map(s).remove(s[i].0));
    }
}

pub proof fn lemma_assoc_dom_len<K, V>(s: Seq<(K, V)>)
    requires
        keys_distinct(s),
    ensures
        assoc_map(s).dom().finite(),
        assoc_map(s).dom().len() == s.len(),
    decreases s.len(),
{
    if s.len() > 0 {
        lemma_assoc_dom_len(s.drop_last());
        lemma_assoc_absent(s.drop_last(), s.last().0);
    }
}

/// A finite map held as a vector of entries with distinct keys.
pub struct Table<K, V> {
    entries: Vec<(K, V)>,
}

impl<K, V> View for Table<K, V> {
    type V = Map<K, V>;

    closed spec fn view(&self) -> Map<K, V> {
        assoc_map(self.entries@)
    }
}

impl<K, V> Table<K, V> {
    /// The entries in insertion order.
    pub closed spec fn entries_seq(self) -> Seq<(K, V)> {
        self.entries@
    }

    pub closed spec fn wf(self) -> bool {
        keys_distinct(self.entries@)
    }

    pub proof fn lemma_view_facts(self)
        requires
            self.wf(),
        ensures
            self@ == assoc_map(self.entries_seq()),
            keys_distinct(self.entries_seq()),
            self@.dom().finite(),
            self@.dom().len() == self.entries_seq().len(),
            forall|i: int|
                0 <= i < self.entries_seq().len() ==> {
                    &&& #[trigger] self@.contains_key(self.entries_seq()[i].0)
                    &&& self@[self.entries_seq()[i].0] == self.entries_seq()[i].1
                },
            forall|k: K|
                self@.contains_key(k) <==> exists|i: int|
                    0 <= i < self.entries_seq().len() && (#[trigger] self.entries_seq()[i]).0 == k,
    {
        lemma_assoc_dom_len(self.entries@);
        assert forall|i: int| 0 <= i < self.entries_seq().len() implies {
            &&& #[trigger] self@.contains_key(self.entries_seq()[i].0)
            &&& self@[self.entries_seq()[i].0] == self.entries_seq()[i].1
        } by {
            lemma_assoc_get(self.entries@, i);
        }
        assert forall|k: K|
            self@.contains_key(k) <==> exists|i: int|
                0 <= i < self.entries_seq().len() && (#[trigger] self.entries_seq()[i]).0 == k by {
            lemma_assoc_contains(self.entries@, k);
            if self@.contains_key(k) {
                let i = choose|i: int| 0 <= i < self.entries@.len() && self.entries@[i].0 == k;
                assert(0 <= i < self.entries_seq().len() && self.entries_seq()[i].0 == k);
            } else if exists|i: int|
                0 <= i < self.entries_seq().len() && (#[trigger] self.entries_seq()[i]).0 == k {
                let i = choose|i: int|
                    0 <= i < self.entries_seq().len() && (#[trigger] self.entries_seq()[i]).0 == k;
                assert(self.entries@[i].0 == k);
            }
        }
    }

    pub fn new() -> (t: Table<K, V>)
        ensures
            t@ == Map::<K, V>::empty(),
            t.entries_seq() == Seq::<(K, V)>::empty(),
            t.wf(),
    {
        Table { entries: Vec::new() }
    }

    pub fn len(&self) -> (r: usize)
        ensures
            r == self.entries_seq().len(),
    {
        self.entries.len()
    }

    /// The entry at a position in the entry order.
    pub fn nth(&self, i: usize) -> (r: &(K, V))
        requires
            i < self.entries_seq().len(),
        ensures
            *r == self.entries_seq()[i as int],
    {
        &self.entries[i]
    }

}

impl<K: PartialEq, V> Table<K, V> {
    /// The position of a key among the entries, if present.
    fn position(&self, k: &K) -> (r: Option<usize>)
        requires
            obeys_concrete_eq::<K>(),
            self.wf(),
        ensures
            match r {
                Some(i) => i < self.entries_seq().len() && self.entries_seq()[i as int].0 == *k,
                None => forall|i: int| 0 <= i < self.entries_seq().len() ==> self.entries_seq()[i].0 != *k,
            },
    {
        proof {
            reveal(vstd::laws_eq::obeys_concrete_eq);
        }
        let n = self.entries.len();
        let mut i: usize = 0;
        while i < n
            invariant
                obeys_concrete_eq::<K>(),
                n == self.entries_seq().len(),
                i <= n,
                forall|j: int| 0 <= j < i ==> self.entries_seq()[j].0 != *k,
            decreases n - i,
        {
            proof {
                reveal(vstd::laws_eq::obeys_concrete_eq);
            }
            if self.entries[i].0 == *k {
                return Some(i);
            }
            i = i + 1;
        }
        None
    }

    pub fn contains_key(&self, k: &K) -> (r: bool)
        requires
            obeys_concrete_eq::<K>(),
            self.wf(),
        ensures
            r == self@.contains_key(*k),
    {
        proof {
            self.lemma_view_facts();
        }
        self.position(k).is_some()
    }

    pub fn get(&self, k: &K) -> (r: Option<&V>)
        requires
            obeys_concrete_eq::<K>(),
            self.wf(),
        ensures
            match r {
                Some(v) => self@.contains_key(*k) && self@[*k] == *v,
                None => !self@.contains_key(*k),
            },
    {
        match self.position(k) {
            Some(i) => {
                proof {
                    lemma_assoc_get(self.entries@, i as int);
                }
                Some(&self.entries[i].1)
            },
            None => {
                proof {
                    assert forall|i: int| 0 <= i < self.entries@.len() implies self.entries@[i].0
                        != *k by {
                        assert(self.entries_seq()[i].0 != *k);
                    }
                    lemma_assoc_absent(self.entries@, *k);
                }
                None
            },
        }
    }

    /// Inserts or replaces.  A fresh key goes to the end of the entry order;
    /// an existing key keeps its position.
    pub fn insert(&mut self, k: K, v: V)
        requires
            obeys_concrete_eq::<K>(),
            old(self).wf(),
        ensures
            final(self)@ == old(self)@.insert(k, v),
            final(self).wf(),
            old(self)@.contains_key(k) ==> {
                &&& final(self).entries_seq().len() == old(self).entries_seq().len()
                &&& exists|i: int|
                    0 <= i < old(self).entries_seq().len()
                        && old(self).entries_seq()[i].0 == k
                        && final(self).entries_seq() == old(self).entries_seq().update(i, (k, v))
            },
            !old(self)@.contains_key(k) ==> final(self).entries_seq() == old(
                self,
            ).entries_seq().push((k, v)),
    {
        proof {
            self.lemma_view_facts();
        }
        match self.position(&k) {
            Some(i) => {
                proof {
                    assert(old(self).entries_seq()[i as int].0 == k);
                    lemma_assoc_update(self.entries@, i as int, v);
                }
                self.entries.set(i, (k, v));
            },
            None => {
                proof {
                    lemma_assoc_push(self.entries@, k, v);
                    lemma_assoc_absent(self.entries@, k);
                }
                self.entries.push((k, v));
                proof {
                    let s = self.entries@;
                    assert forall|i: int, j: int| 0 <= i < j < s.len() implies s[i].0 != s[j].0 by {
                        if j == s.len() - 1 {
                            assert(old(self).entries_seq()[i].0 != k);
                        }
                    }
                }
            },
        }
    }

    /// Removes a key, returning its value.  The remaining entry order is kept.
    pub fn remove(&mut self, k: &K) -> (r: Option<V>)
        requires
            obeys_concrete_eq::<K>(),
            old(self).wf(),
        ensures
            final(self)@ == old(self)@.remove(*k),
            final(self).wf(),
            r == if old(self)@.contains_key(*k) {
                Some(old(self)@[*k])
            } else {
                None::<V>
            },
            old(self)@.contains_key(*k) ==> exists|i: int|
                0 <= i < old(self).entries_seq().len()
                    && old(self).entries_seq()[i].0 == *k
                    && final(self).entries_seq() == old(self).entries_seq().remove(i),
            !old(self)@.contains_key(*k) ==> final(self).entries_seq() == old(self).entries_seq(),
    {
        proof {
            self.lemma_view_facts();
        }
        match self.position(k) {
            Some(i) => {
                proof {
                    lemma_assoc_get(self.entries@, i as int);
                    lemma_assoc_remove(self.entries@, i as int);
                    let s = self.entries@.remove(i as int);
                    assert(keys_distinct(s)) by {
                        assert forall|a: int, b: int| 0 <= a < b < s.len() implies s[a].0 != s[b].0
                        by {
                            if b < i as int {
                                assert(s[a] == old(self).entries_seq()[a]);
                                assert(s[b] == old(self).entries_seq()[b]);
                            }
                        }
                    }
                }
                let (_, v) = self.entries.remove(i);
                Some(v)
            },
            None => {
                proof {
                    lemma_assoc_absent(self.entries@, *k);
                    assert(old(self)@.remove(*k) =~= old(self)@);
                }
                None
            },
        }
    }

}

} // verus!
