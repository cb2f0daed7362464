//! A small map keyed by byte strings, kept as two parallel vectors in which no
//! key occurs twice.

use vstd::prelude::*;
use crate::bytes::bytes_eq;

verus! {

pub struct ByteMap<V> {
    keys: Vec<Vec<u8>>,
    values: Vec<V>,
}

impl<V: View> View for ByteMap<V> {
    type V = Map<Seq<u8>, V::V>;

    /// The finite map from each stored key to the view of its value.
    closed spec fn view(&self) -> Map<Seq<u8>, V::V> {
        Map::new(
            |key: Seq<u8>| exists|i: int| self.holds_at(key, i),
            |key: Seq<u8>| self.values[self.slot(key)]@,
        )
    }
}

impl<V: View> ByteMap<V> {
    /// Keys and values pair up, and the keys are pairwise distinct.
    pub closed spec fn wf(&self) -> bool {
        &&& self.keys.len() == self.values.len()
        &&& forall|i: int, j: int|
            0 <= i < j < self.keys.len() ==> self.keys[i]@ != self.keys[j]@
    }

    spec fn holds_at(&self, key: Seq<u8>, i: int) -> bool {
        0 <= i < self.keys.len() && self.keys[i]@ == key
    }

    spec fn slot(&self, key: Seq<u8>) -> int {
        choose|i: int| self.holds_at(key, i)
    }

    proof fn lemma_entry(&self, i: int)
        requires
            self.wf(),
            0 <= i < self.keys.len(),
        ensures
            self@.dom().contains(self.keys[i]@),
            self@[self.keys[i]@] == self.values[i]@,
    {
        let key = self.keys[i]@;
        assert(self.holds_at(key, i));
        let j = self.slot(key);
        assert(self.holds_at(key, j));
        assert(i == j);
    }

    /// The view is the one map that agrees with every slot and has no other
    /// key.
    proof fn lemma_view_is(&self, m: Map<Seq<u8>, V::V>)
        requires
            self.wf(),
            forall|i: int|
                0 <= i < self.keys.len() ==> m.dom().contains(#[trigger] self.keys[i]@)
                    && m[self.keys[i]@] == self.values[i]@,
            forall|key: Seq<u8>| #[trigger]
                m.dom().contains(key) ==> exists|i: int| self.holds_at(key, i),
        ensures
            self@ == m,
    {
        assert forall|key: Seq<u8>| self@.dom().contains(key) implies m.dom().contains(key) by {
            let i = choose|i: int| self.holds_at(key, i);
            assert(self.keys[i]@ == key);
        }
        assert forall|key: Seq<u8>| #[trigger]
            self@.dom().contains(key) implies self@[key] == m[key] by {
            let i = choose|i: int| self.holds_at(key, i);
            self.lemma_entry(i);
        }
        assert(self@ =~= m);
    }

    pub fn new() -> (map: ByteMap<V>)
        ensures
            map.wf(),
            map@ == Map::<Seq<u8>, V::V>::empty(),
    {
        let map = ByteMap { keys: Vec::new(), values: Vec::new() };
        proof {
            map.lemma_view_is(Map::empty());
        }
        map
    }

    fn find(&self, key: &[u8]) -> (found: Option<usize>)
        requires
            self.wf(),
        ensures
            match found {
                Some(i) => self.holds_at(key@, i as int),
                None => forall|i: int| !self.holds_at(key@, i),
            },
    {
        let mut i: usize = 0;
        while i < self.keys.len()
            invariant
                i <= self.keys.len(),
                forall|k: int| 0 <= k < i ==> self.keys[k]@ != key@,
            decreases self.keys.len() - i,
        {
            if bytes_eq(self.keys[i].as_slice(), key) {
                return Some(i);
            }
            i = i + 1;
        }
        None
    }

    pub fn contains_key(&self, key: &[u8]) -> (present: bool)
        requires
            self.wf(),
        ensures
            present == self@.dom().contains(key@),
    {
        match self.find(key) {
            Some(i) => {
                proof {
                    self.lemma_entry(i as int);
                }
                true
            },
            None => false,
        }
    }

    pub fn get(&self, key: &[u8]) -> (value: Option<&V>)
        requires
            self.wf(),
        ensures
            match value {
                Some(v) => self@.dom().contains(key@) && v@ == self@[key@],
                None => !self@.dom().contains(key@),
            },
    {
        match self.find(key) {
            Some(i) => {
                proof {
                    self.lemma_entry(i as int);
                }
                Some(&self.values[i])
            },
            None => None,
        }
    }

    /// Stores `value` under `key`, in place of what was stored there.
    pub fn insert(&mut self, key: Vec<u8>, value: V)
        requires
            old(self).wf(),
        ensures
            final(self).wf(),
            final(self)@ == old(self)@.insert(key@, value@),
    {
        let ghost before = *self;
        let ghost target = before@.insert(key@, value@);
        match self.find(key.as_slice()) {
            Some(i) => {
                self.values.set(i, value);
                proof {
                    assert forall|k: int| 0 <= k < self.keys.len() implies target.dom().contains(
                        #[trigger] self.keys[k]@,
                    ) && target[self.keys[k]@] == self.values[k]@ by {
                        before.lemma_entry(k);
                        before.lemma_entry(i as int);
                    }
                    assert forall|q: Seq<u8>| #[trigger] target.dom().contains(q) implies exists|
                        k: int,
                    |
                        self.holds_at(q, k) by {
                        if q == key@ {
                            assert(self.holds_at(q, i as int));
                        } else {
                            let k = choose|k: int| before.holds_at(q, k);
                            assert(self.holds_at(q, k));
                        }
                    }
                    self.lemma_view_is(target);
                }
            },
            None => {
                self.keys.push(key);
                self.values.push(value);
                proof {
                    let n = before.keys.len() as int;
                    assert forall|a: int, b: int| 0 <= a < b < self.keys.len() implies self.keys[a]@
                        != self.keys[b]@ by {
                        if b == n {
                            assert(!before.holds_at(key@, a));
                        }
                    }
                    assert forall|k: int| 0 <= k < self.keys.len() implies target.dom().contains(
                        #[trigger] self.keys[k]@,
                    ) && target[self.keys[k]@] == self.values[k]@ by {
                        if k < n {
                            before.lemma_entry(k);
                            assert(!before.holds_at(key@, k));
                        }
                    }
                    assert forall|q: Seq<u8>| #[trigger] target.dom().contains(q) implies exists|
                        k: int,
                    |
                        self.holds_at(q, k) by {
                        if q == key@ {
                            assert(self.holds_at(q, n));
                        } else {
                            let k = choose|k: int| before.holds_at(q, k);
                            assert(self.holds_at(q, k));
                        }
                    }
                    self.lemma_view_is(target);
                }
            },
        }
    }

    /// Drops the entry under `key`, if there is one, and says whether there
    /// was.
    pub fn remove(&mut self, key: &[u8]) -> (removed: bool)
        requires
            old(self).wf(),
        ensures
            final(self).wf(),
            final(self)@ == old(self)@.remove(key@),
            removed == old(self)@.dom().contains(key@),
    {
        let ghost before = *self;
        let ghost target = before@.remove(key@);
        match self.find(key) {
            Some(i) => {
                self.keys.remove(i);
                self.values.remove(i);
                proof {
                    before.lemma_entry(i as int);
                    let at = i as int;
                    assert forall|k: int| 0 <= k < self.keys.len() implies self.keys[k]
                        == before.keys[if k < at {
                        k
                    } else {
                        k + 1
                    }] && self.values[k] == before.values[if k < at {
                        k
                    } else {
                        k + 1
                    }] by {}
                    assert forall|k: int| 0 <= k < self.keys.len() implies target.dom().contains(
                        #[trigger] self.keys[k]@,
                    ) && target[self.keys[k]@] == self.values[k]@ by {
                        before.lemma_entry(if k < at {
                            k
                        } else {
                            k + 1
                        });
                    }
                    assert forall|q: Seq<u8>| #[trigger] target.dom().contains(q) implies exists|
                        k: int,
                    |
                        self.holds_at(q, k) by {
                        let k = choose|k: int| before.holds_at(q, k);
                        assert(k != at);
                        if k < at {
                            assert(self.holds_at(q, k));
                        } else {
                            assert(self.holds_at(q, k - 1));
                        }
                    }
                    self.lemma_view_is(target);
                }
                true
            },
            None => {
                assert(target =~= before@);
                false
            },
        }
    }
}

} // verus!
