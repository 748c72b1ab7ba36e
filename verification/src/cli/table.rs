//! A map over a small, fixed set of keys, held as one slot per key.
use vstd::prelude::*;

verus! {

/// A key drawn from a fixed, numbered set.
pub trait TableKey: Sized + Copy {
    /// The number of the key.
    spec fn key_index(self) -> nat;

    /// How many keys there are.
    spec fn key_count() -> nat;

    /// Numbers are below the count and tell keys apart.
    proof fn lemma_key_index(k1: Self, k2: Self)
        ensures
            k1.key_index() < Self::key_count(),
            k1.key_index() == k2.key_index() ==> k1 == k2,
    ;

    fn index(&self) -> (r: usize)
        ensures
            r == self.key_index(),
    ;

    fn count() -> (r: usize)
        ensures
            r == Self::key_count(),
    ;
}

/// A map from keys to values.
pub struct KeyTable<K, V> {
    slots: Vec<Option<(K, V)>>,
}

impl<K: TableKey, V> KeyTable<K, V> {
    /// Every slot is at its key's number, and there is one slot per key.
    pub closed spec fn well_formed(self) -> bool {
        &&& self.slots@.len() == K::key_count()
        &&& forall|i: int|
            0 <= i < self.slots@.len() && #[trigger] self.slots@[i] is Some ==> (self.slots@[i]->0).0.key_index()
                == i
    }

    pub closed spec fn view(self) -> Map<K, V> {
        Map::new(
            |k: K| self.slots@[k.key_index() as int] is Some,
            |k: K| (self.slots@[k.key_index() as int]->0).1,
        )
    }

    pub fn new() -> (r: Self)
        ensures
            r.well_formed(),
            r.view() == Map::<K, V>::empty(),
    {
        let n = K::count();
        let mut slots: Vec<Option<(K, V)>> = Vec::new();
        let mut i: usize = 0;
        while i < n
            invariant
                n == K::key_count(),
                i <= n,
                slots@.len() == i,
                forall|j: int| 0 <= j < i ==> #[trigger] slots@[j] is None,
            decreases n - i,
        {
            slots.push(None);
            i = i + 1;
        }
        let r = KeyTable { slots };
        assert forall|k: K| !#[trigger] r.view().dom().contains(k) by {
            K::lemma_key_index(k, k);
        }
        assert(r.view() =~= Map::<K, V>::empty());
        r
    }

    /// Sets the value of `key`, replacing any value it had.
    pub fn insert(&mut self, key: K, value: V)
        requires
            old(self).well_formed(),
        ensures
            final(self).well_formed(),
            final(self).view() == old(self).view().insert(key, value),
    {
        proof {
            K::lemma_key_index(key, key);
        }
        let i = key.index();
        self.slots.set(i, Some((key, value)));
        proof {
            assert forall|k: K| #[trigger] final(self).view().dom().contains(k) == old(self).view().insert(
                key,
                value,
            ).dom().contains(k) by {
                K::lemma_key_index(k, key);
            }
            assert forall|k: K| final(self).view().dom().contains(k) implies #[trigger] final(self).view()[k]
                == old(self).view().insert(key, value)[k] by {
                K::lemma_key_index(k, key);
            }
            assert(final(self).view() =~= old(self).view().insert(key, value));
        }
    }

    /// Takes `key` out of the map.
    pub fn remove(&mut self, key: &K)
        requires
            old(self).well_formed(),
        ensures
            final(self).well_formed(),
            final(self).view() == old(self).view().remove(*key),
    {
        proof {
            K::lemma_key_index(*key, *key);
        }
        let i = key.index();
        self.slots.set(i, None);
        proof {
            assert forall|k: K| #[trigger] final(self).view().dom().contains(k) == old(self).view().remove(
                *key,
            ).dom().contains(k) by {
                K::lemma_key_index(k, *key);
            }
            assert forall|k: K| final(self).view().dom().contains(k) implies #[trigger] final(self).view()[k]
                == old(self).view().remove(*key)[k] by {
                K::lemma_key_index(k, *key);
            }
            assert(final(self).view() =~= old(self).view().remove(*key));
        }
    }

    /// The value of `key`, if it has one.
    pub fn get(&self, key: &K) -> (r: Option<&V>)
        requires
            self.well_formed(),
        ensures
            match r {
                Some(v) => self.view().dom().contains(*key) && *v == self.view()[*key],
                None => !self.view().dom().contains(*key),
            },
    {
        proof {
            K::lemma_key_index(*key, *key);
        }
        match &self.slots[key.index()] {
            Some(entry) => Some(&entry.1),
            None => None,
        }
    }

    /// Whether `key` has a value.
    pub fn contains_key(&self, key: &K) -> (r: bool)
        requires
            self.well_formed(),
        ensures
            r == self.view().dom().contains(*key),
    {
        proof {
            K::lemma_key_index(*key, *key);
        }
        self.slots[key.index()].is_some()
    }

    /// Every key with its value, each key once, in key order.
    pub fn entries(&self) -> (r: Vec<&(K, V)>)
        requires
            self.well_formed(),
        ensures
            forall|j: int|
                0 <= j < r@.len() ==> self.view().dom().contains(#[trigger] r@[j].0) && self.view()[r@[j].0]
                    == r@[j].1,
            forall|k: K| #[trigger] self.view().dom().contains(k) ==> exists|j: int|
                0 <= j < r@.len() && #[trigger] r@[j].0 == k,
            forall|a: int, b: int| 0 <= a < b < r@.len() ==> #[trigger] r@[a].0 != #[trigger] r@[b].0,
    {
        let mut r: Vec<&(K, V)> = Vec::new();
        let mut i: usize = 0;
        while i < self.slots.len()
            invariant
                self.well_formed(),
                i <= self.slots@.len(),
                forall|j: int| 0 <= j < r@.len() ==> (#[trigger] r@[j].0).key_index() < i,
                forall|j: int|
                    0 <= j < r@.len() ==> self.view().dom().contains(#[trigger] r@[j].0)
                        && self.view()[r@[j].0] == r@[j].1,
                forall|k: K|
                    #[trigger] self.view().dom().contains(k) && k.key_index() < i ==> exists|j: int|
                        0 <= j < r@.len() && #[trigger] r@[j].0 == k,
                forall|a: int, b: int|
                    0 <= a < b < r@.len() ==> (#[trigger] r@[a].0).key_index() < (
                    #[trigger] r@[b].0).key_index(),
            decreases self.slots@.len() - i,
        {
            match &self.slots[i] {
                Some(entry) => {
                    proof {
                        assert(self.slots@[i as int] is Some);
                        K::lemma_key_index(entry.0, entry.0);
                    }
                    let ghost old_r = r@;
                    r.push(entry);
                    proof {
                        let last = r@.len() - 1;
                        assert forall|k: K|
                            #[trigger] self.view().dom().contains(k) && k.key_index() < i + 1 implies exists|j: int|
                            0 <= j < r@.len() && #[trigger] r@[j].0 == k by {
                            if k.key_index() == i {
                                K::lemma_key_index(k, entry.0);
                                assert(r@[last].0 == k);
                            } else {
                                let j = choose|j: int| 0 <= j < old_r.len() && #[trigger] old_r[j].0 == k;
                                assert(r@[j] == old_r[j]);
                            }
                        }
                    }
                },
                None => {
                    proof {
                        assert forall|k: K|
                            #[trigger] self.view().dom().contains(k) && k.key_index() < i + 1 implies exists|j: int|
                            0 <= j < r@.len() && #[trigger] r@[j].0 == k by {
                            if k.key_index() < i {
                                assert(self.view().dom().contains(k) && k.key_index() < i);
                                let j = choose|j: int| 0 <= j < r@.len() && #[trigger] r@[j].0 == k;
                                assert(r@[j].0 == k);
                            } else {
                                assert(self.slots@[k.key_index() as int] is Some);
                                assert(self.slots@[i as int] is None);
                                assert(false);
                            }
                        }
                    }
                },
            }
            i = i + 1;
        }
        proof {
            assert forall|k: K| #[trigger] self.view().dom().contains(k) implies exists|j: int|
                0 <= j < r@.len() && #[trigger] r@[j].0 == k by {
                K::lemma_key_index(k, k);
            }
        }
        r
    }
}

} // verus!
