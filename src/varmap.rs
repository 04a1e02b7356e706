//! A finite map keyed by the members of a variable catalog.
use vstd::prelude::*;

use crate::variable::Variable;

verus! {

/// The keys of a sequence of pairs, in order.
pub open spec fn keys_of<V, X>(s: Seq<(V, X)>) -> Seq<V> {
    s.map_values(|e: (V, X)| e.0)
}

/// The map that a sequence of pairs with distinct keys describes.
pub open spec fn map_of<V, X>(s: Seq<(V, X)>) -> Map<V, X> {
    Map::new(|k: V| keys_of(s).contains(k), |k: V| s[keys_of(s).index_of(k)].1)
}

/// Where the keys are distinct, each pair of the sequence is an entry of its map.
pub proof fn lemma_map_of_at<V, X>(s: Seq<(V, X)>, i: int)
    requires
        keys_of(s).no_duplicates(),
        0 <= i < s.len(),
    ensures
        map_of(s).contains_key(s[i].0),
        map_of(s)[s[i].0] == s[i].1,
{
    let ks = keys_of(s);
    assert(ks[i] == s[i].0);
    let j = ks.index_of(s[i].0);
    assert(ks[j] == ks[i]);
}

/// Each variable at most once, with the value that was inserted last.
pub struct VariableMap<V, X> {
    entries: Vec<(V, X)>,
}

impl<V, X> View for VariableMap<V, X> {
    type V = Map<V, X>;

    closed spec fn view(&self) -> Map<V, X> {
        map_of(self.entries@)
    }
}

impl<V: Variable, X> VariableMap<V, X> {
    /// No variable stands twice among the entries.
    pub closed spec fn wf(&self) -> bool {
        keys_of(self.entries@).no_duplicates()
    }

    /// The empty map.
    pub fn new() -> (r: Self)
        ensures
            r.wf(),
            r@ == Map::<V, X>::empty(),
    {
        let r = VariableMap { entries: Vec::new() };
        assert(r@ =~= Map::<V, X>::empty());
        r
    }

    /// The number of variables in the map.
    pub fn len(&self) -> (r: usize)
        requires
            self.wf(),
        ensures
            self@.dom().finite(),
            r == self@.len(),
    {
        proof {
            let ks = keys_of(self.entries@);
            assert(self@.dom() =~= ks.to_set());
            ks.unique_seq_to_set();
        }
        self.entries.len()
    }

    /// Whether the map holds no variable.
    pub fn is_empty(&self) -> (r: bool)
        requires
            self.wf(),
        ensures
            r == (self@.dom() =~= Set::<V>::empty()),
    {
        if self.entries.len() == 0 {
            assert(self@.dom() =~= Set::<V>::empty());
            true
        } else {
            proof {
                lemma_map_of_at(self.entries@, 0);
            }
            assert(self@.dom().contains(self.entries@[0].0));
            false
        }
    }

    /// Where `k` stands among the entries, if it does.
    fn position(&self, k: &V) -> (r: Option<usize>)
        requires
            self.wf(),
        ensures
            match r {
                Some(i) => i < self.entries@.len() && self.entries@[i as int].0 == *k,
                None => !self@.contains_key(*k),
            },
    {
        let mut i: usize = 0;
        while i < self.entries.len()
            invariant
                i <= self.entries@.len(),
                forall|j: int| 0 <= j < i ==> (#[trigger] self.entries@[j]).0 != *k,
            decreases self.entries@.len() - i,
        {
            if self.entries[i].0.same(k) {
                return Some(i);
            }
            i = i + 1;
        }
        proof {
            let ks = keys_of(self.entries@);
            if ks.contains(*k) {
                let j = ks.index_of(*k);
                assert(self.entries@[j].0 == ks[j]);
            }
        }
        None
    }

    /// The value of `k`, if the map holds it.
    pub fn get(&self, k: &V) -> (r: Option<&X>)
        requires
            self.wf(),
        ensures
            r == if self@.contains_key(*k) {
                Some(&self@[*k])
            } else {
                None::<&X>
            },
    {
        match self.position(k) {
            Some(i) => {
                proof {
                    lemma_map_of_at(self.entries@, i as int);
                }
                Some(&self.entries[i].1)
            },
            None => None,
        }
    }

    /// Whether the map holds `k`.
    pub fn contains_key(&self, k: &V) -> (r: bool)
        requires
            self.wf(),
        ensures
            r == self@.contains_key(*k),
    {
        match self.position(k) {
            Some(i) => {
                proof {
                    lemma_map_of_at(self.entries@, i as int);
                }
                true
            },
            None => false,
        }
    }

    /// Sets the value of `k` to `x`, replacing any value that `k` had.
    pub fn insert(&mut self, k: V, x: X)
        requires
            old(self).wf(),
        ensures
            final(self).wf(),
            final(self)@ == old(self)@.insert(k, x),
    {
        let ghost s0 = self.entries@;
        let ghost ks0 = keys_of(s0);
        match self.position(&k) {
            Some(i) => {
                self.entries.set(i, (k, x));
                let ghost s1 = self.entries@;
                let ghost ks1 = keys_of(s1);
                assert(ks1 =~= ks0);
                assert forall|j: int| 0 <= j < s1.len() implies map_of(s0).insert(k, x).contains_key(
                    s1[j].0,
                ) && map_of(s0).insert(k, x)[s1[j].0] == #[trigger] s1[j].1 by {
                    if j != i {
                        assert(ks0[j] != ks0[i as int]);
                        lemma_map_of_at(s0, j);
                    }
                }
                assert forall|key: V| #[trigger]
                    map_of(s1).contains_key(key) <==> map_of(s0).insert(k, x).contains_key(key) by {
                    if key == k {
                        assert(ks1[i as int] == k);
                    }
                    if ks0.contains(key) {
                        let j = ks0.index_of(key);
                        assert(ks1[j] == key);
                    }
                }
                assert forall|key: V| #[trigger] map_of(s1).contains_key(key) implies map_of(s1)[key]
                    == map_of(s0).insert(k, x)[key] by {
                    let j = ks1.index_of(key);
                    lemma_map_of_at(s1, j);
                }
                assert(map_of(s1) =~= map_of(s0).insert(k, x));
            },
            None => {
                self.entries.push((k, x));
                let ghost s1 = self.entries@;
                let ghost ks1 = keys_of(s1);
                assert(ks1 =~= ks0.push(k));
                assert(!ks0.contains(k));
                assert forall|a: int, b: int|
                    0 <= a < ks1.len() && 0 <= b < ks1.len() && a != b implies ks1[a] != ks1[b] by {
                    if a < ks0.len() && b < ks0.len() {
                        assert(ks1[a] == ks0[a] && ks1[b] == ks0[b]);
                    } else if a < ks0.len() {
                        assert(ks0[a] == ks1[a]);
                    } else {
                        assert(ks0[b] == ks1[b]);
                    }
                }
                assert forall|j: int| 0 <= j < s1.len() implies map_of(s0).insert(k, x).contains_key(
                    s1[j].0,
                ) && map_of(s0).insert(k, x)[s1[j].0] == #[trigger] s1[j].1 by {
                    if j < s0.len() {
                        assert(s1[j] == s0[j]);
                        assert(ks0[j] == s0[j].0);
                        lemma_map_of_at(s0, j);
                    }
                }
                assert forall|key: V| #[trigger]
                    map_of(s1).contains_key(key) <==> map_of(s0).insert(k, x).contains_key(key) by {
                    if key == k {
                        assert(ks1[s0.len() as int] == k);
                    }
                    if ks0.contains(key) {
                        let j = ks0.index_of(key);
                        assert(ks1[j] == key);
                    }
                    if ks1.contains(key) {
                        let j = ks1.index_of(key);
                        if j < s0.len() {
                            assert(ks0[j] == key);
                        }
                    }
                }
                assert forall|key: V| #[trigger] map_of(s1).contains_key(key) implies map_of(s1)[key]
                    == map_of(s0).insert(k, x)[key] by {
                    let j = ks1.index_of(key);
                    lemma_map_of_at(s1, j);
                }
                assert(map_of(s1) =~= map_of(s0).insert(k, x));
            },
        }
    }

    /// The entries of the map, each variable once, in no particular order.
    pub fn entries(&self) -> (r: &Vec<(V, X)>)
        requires
            self.wf(),
        ensures
            r@.len() == self@.len(),
            forall|i: int|
                0 <= i < r@.len() ==> self@.contains_key(#[trigger] r@[i].0) && self@[r@[i].0] == r@[i].1,
            forall|k: V| #[trigger] self@.contains_key(k) ==> exists|i: int| 0 <= i < r@.len() && r@[i].0 == k,
    {
        proof {
            let ks = keys_of(self.entries@);
            assert(self@.dom() =~= ks.to_set());
            ks.unique_seq_to_set();
            assert forall|i: int| 0 <= i < self.entries@.len() implies self@.contains_key(
                #[trigger] self.entries@[i].0,
            ) && self@[self.entries@[i].0] == self.entries@[i].1 by {
                lemma_map_of_at(self.entries@, i);
            }
            assert forall|k: V| #[trigger] self@.contains_key(k) implies exists|i: int|
                0 <= i < self.entries@.len() && self.entries@[i].0 == k by {
                let j = ks.index_of(k);
                assert(self.entries@[j].0 == ks[j]);
            }
        }
        &self.entries
    }
}

} // verus!
