//! An ordered association list with distinct keys, used for the registries
//! of clients, subscriptions, cached file metadata and stored memories,
//! whose keys are strings or client ids.
use vstd::prelude::*;
use crate::client_id::ClientId;

verus! {

/// Keys whose equality is decided on their views.
pub trait RegistryKey: View + Sized {
    /// Whether the two keys are the same key.
    fn key_eq(&self, other: &Self) -> (b: bool)
        ensures
            b == (self@ == other@);
}

impl View for ClientId {
    type V = ClientId;

    open spec fn view(&self) -> ClientId {
        *self
    }
}

impl RegistryKey for ClientId {
    fn key_eq(&self, other: &Self) -> (b: bool) {
        self.0 == other.0
    }
}

impl RegistryKey for String {
    fn key_eq(&self, other: &Self) -> (b: bool) {
        crate::text::str_eq(self.as_str(), other.as_str())
    }
}

/// Entries keyed by distinct keys, in the order they were first inserted.
pub struct Registry<K, V> {
    entries: Vec<(K, V)>,
}

impl<K: RegistryKey, V> Registry<K, V> {
    /// The keys' views, in order.
    pub closed spec fn keys(&self) -> Seq<K::V> {
        self.entries@.map_values(|e: (K, V)| e.0@)
    }

    /// The values, in the order of their keys.
    pub closed spec fn values(&self) -> Seq<V> {
        self.entries@.map_values(|e: (K, V)| e.1)
    }

    /// No key occurs twice.
    pub closed spec fn wf(&self) -> bool {
        forall|i: int, j: int|
            0 <= i < self.entries.len() && 0 <= j < self.entries.len() && i != j
                ==> #[trigger] self.entries@[i].0@ != #[trigger] self.entries@[j].0@
    }

    /// The position of key `k`.
    pub open spec fn position(&self, k: K::V) -> int {
        choose|i: int| 0 <= i < self.keys().len() && self.keys()[i] == k
    }

    /// The entries as a map from key to value.
    pub open spec fn map(&self) -> Map<K::V, V> {
        Map::new(
            |k: K::V| self.keys().contains(k),
            |k: K::V| self.values()[self.position(k)],
        )
    }

    /// In a well-formed registry no key is listed twice.
    pub proof fn lemma_keys_distinct(&self)
        requires
            self.wf(),
        ensures
            self.keys().no_duplicates(),
    {
        assert forall|i: int, j: int| 0 <= i < self.keys().len() && 0 <= j < self.keys().len() && i != j
            implies self.keys()[i] != self.keys()[j] by {
            assert(self.keys()[i] == self.entries@[i].0@);
            assert(self.keys()[j] == self.entries@[j].0@);
        }
    }

    /// In a well-formed registry the position of the key at `i` is `i`.
    pub proof fn lemma_position(&self, i: int)
        requires
            self.wf(),
            0 <= i < self.keys().len(),
        ensures
            self.position(self.keys()[i]) == i,
            self.map().contains_key(self.keys()[i]),
            self.map()[self.keys()[i]] == self.values()[i],
    {
        let k = self.keys()[i];
        assert(self.keys().contains(k));
        let j = self.position(k);
        assert(0 <= j < self.keys().len() && self.keys()[j] == k);
        assert(self.entries@[j].0@ == self.entries@[i].0@);
    }

    /// An empty registry.
    pub fn new() -> (r: Self)
        ensures
            r.wf(),
            r.keys() == Seq::<K::V>::empty(),
            r.map() == Map::<K::V, V>::empty(),
    {
        let r = Registry { entries: Vec::new() };
        assert(r.keys() =~= Seq::<K::V>::empty());
        assert(r.map() =~= Map::<K::V, V>::empty());
        r
    }

    /// The number of entries.
    pub fn len(&self) -> (n: usize)
        ensures
            n == self.keys().len(),
    {
        self.entries.len()
    }

    /// Whether the registry is empty.
    pub fn is_empty(&self) -> (b: bool)
        ensures
            b == (self.keys().len() == 0),
    {
        self.entries.len() == 0
    }

    /// The position of key `k`, if present.
    pub fn find(&self, k: &K) -> (r: Option<usize>)
        requires
            self.wf(),
        ensures
            r is None <==> !self.map().contains_key(k@),
            r matches Some(i) ==> i < self.keys().len() && self.keys()[i as int] == k@,
    {
        let mut i: usize = 0;
        while i < self.entries.len()
            invariant
                i <= self.entries.len(),
                forall|j: int| 0 <= j < i ==> self.keys()[j] != k@,
            decreases self.entries.len() - i,
        {
            if self.entries[i].0.key_eq(k) {
                assert(self.keys()[i as int] == k@);
                assert(self.keys().contains(k@));
                return Some(i);
            }
            i = i + 1;
        }
        assert(!self.keys().contains(k@));
        None
    }

    /// The value stored under `k`.
    pub fn get(&self, k: &K) -> (r: Option<&V>)
        requires
            self.wf(),
        ensures
            r is Some <==> self.map().contains_key(k@),
            r matches Some(v) ==> *v == self.map()[k@],
    {
        match self.find(k) {
            Some(i) => {
                proof {
                    self.lemma_position(i as int);
                }
                Some(&self.entries[i].1)
            },
            None => None,
        }
    }

    /// The key and value at position `i`.
    pub fn entry_at(&self, i: usize) -> (r: (&K, &V))
        requires
            i < self.keys().len(),
        ensures
            r.0@ == self.keys()[i as int],
            *r.1 == self.values()[i as int],
    {
        (&self.entries[i].0, &self.entries[i].1)
    }

    /// Stores `v` under `k`, replacing the value already stored there, which
    /// is returned. A new key goes after the others.
    #[verifier::spinoff_prover]
    pub fn insert(&mut self, k: K, v: V) -> (r: Option<V>)
        requires
            old(self).wf(),
        ensures
            final(self).wf(),
            final(self).map() == old(self).map().insert(k@, v),
            r is Some <==> old(self).map().contains_key(k@),
            r matches Some(o) ==> o == old(self).map()[k@],
            old(self).map().contains_key(k@) ==> final(self).keys() == old(self).keys(),
            !old(self).map().contains_key(k@) ==> final(self).keys() == old(self).keys().push(k@),
    {
        let ghost kv = k@;
        match self.find(&k) {
            Some(i) => {
                proof {
                    self.lemma_position(i as int);
                }
                let ghost old_keys = self.keys();
                let ghost old_map = self.map();
                let (_, ov) = self.entries.remove(i);
                self.entries.insert(i, (k, v));
                proof {
                    assert(self.keys() =~= old_keys);
                    assert(self.wf());
                    assert forall|key: K::V| #[trigger] self.map().contains_key(key)
                        == old_map.insert(kv, v).contains_key(key) by {}
                    assert forall|key: K::V| self.map().contains_key(key)
                        implies self.map()[key] == old_map.insert(kv, v)[key] by {
                        let j = self.position(key);
                        self.lemma_position(j);
                        if key == kv {
                            assert(j == i);
                        } else {
                            old(self).lemma_position(j);
                        }
                    }
                    assert(self.map() =~= old_map.insert(kv, v));
                }
                Some(ov)
            },
            None => {
                let ghost old_keys = self.keys();
                let ghost old_map = self.map();
                self.entries.push((k, v));
                proof {
                    assert(self.keys() =~= old_keys.push(kv));
                    assert(self.wf()) by {
                        assert forall|i: int, j: int|
                            0 <= i < self.entries.len() && 0 <= j < self.entries.len() && i != j
                            implies #[trigger] self.entries@[i].0@ != #[trigger] self.entries@[j].0@ by {
                            if i == self.entries.len() - 1 {
                                assert(old_keys[j] == self.entries@[j].0@);
                            } else if j == self.entries.len() - 1 {
                                assert(old_keys[i] == self.entries@[i].0@);
                            }
                        }
                    }
                    assert forall|key: K::V| #[trigger] self.map().contains_key(key)
                        == old_map.insert(kv, v).contains_key(key) by {
                        if old_keys.contains(key) {
                            let j = choose|j: int| 0 <= j < old_keys.len() && old_keys[j] == key;
                            assert(self.keys()[j] == key);
                        }
                        if self.keys().contains(key) && key != kv {
                            let j = choose|j: int| 0 <= j < self.keys().len() && self.keys()[j] == key;
                            assert(old_keys[j] == key);
                        }
                        assert(self.keys()[self.keys().len() - 1] == kv);
                    }
                    assert forall|key: K::V| self.map().contains_key(key)
                        implies self.map()[key] == old_map.insert(kv, v)[key] by {
                        let j = self.position(key);
                        self.lemma_position(j);
                        if key != kv {
                            old(self).lemma_position(j);
                        }
                    }
                    assert(self.map() =~= old_map.insert(kv, v));
                }
                None
            },
        }
    }

    /// Removes the entry of `k`, returning its value; the other entries keep
    /// their order.
    pub fn remove(&mut self, k: &K) -> (r: Option<V>)
        requires
            old(self).wf(),
        ensures
            final(self).wf(),
            final(self).map() == old(self).map().remove(k@),
            r is Some <==> old(self).map().contains_key(k@),
            r matches Some(o) ==> o == old(self).map()[k@],
            old(self).map().contains_key(k@)
                ==> final(self).keys() == old(self).keys().remove(old(self).position(k@)),
            !old(self).map().contains_key(k@) ==> final(self).keys() == old(self).keys(),
    {
        match self.find(k) {
            Some(i) => {
                proof {
                    self.lemma_position(i as int);
                }
                let ghost old_keys = self.keys();
                let ghost old_map = self.map();
                let (_, ov) = self.entries.remove(i);
                proof {
                    assert(self.keys() =~= old_keys.remove(i as int));
                    assert(self.wf()) by {
                        assert forall|a: int, b: int|
                            0 <= a < self.entries.len() && 0 <= b < self.entries.len() && a != b
                            implies #[trigger] self.entries@[a].0@ != #[trigger] self.entries@[b].0@ by {
                            let a2 = if a < i { a } else { a + 1 };
                            let b2 = if b < i { b } else { b + 1 };
                            assert(self.entries@[a] == old(self).entries@[a2]);
                            assert(self.entries@[b] == old(self).entries@[b2]);
                        }
                    }
                    assert forall|key: K::V| #[trigger] self.map().contains_key(key)
                        == old_map.remove(k@).contains_key(key) by {
                        if self.keys().contains(key) {
                            let j = choose|j: int| 0 <= j < self.keys().len() && self.keys()[j] == key;
                            let j2 = if j < i { j } else { j + 1 };
                            assert(old_keys[j2] == key);
                            assert(key != k@);
                        }
                        if old_keys.contains(key) && key != k@ {
                            let j = choose|j: int| 0 <= j < old_keys.len() && old_keys[j] == key;
                            assert(j != i);
                            let j2 = if j < i { j } else { j - 1 };
                            assert(self.keys()[j2] == key);
                        }
                    }
                    assert forall|key: K::V| self.map().contains_key(key)
                        implies self.map()[key] == old_map.remove(k@)[key] by {
                        let j = self.position(key);
                        self.lemma_position(j);
                        let j2 = if j < i { j } else { j + 1 };
                        assert(self.entries@[j] == old(self).entries@[j2]);
                        old(self).lemma_position(j2);
                    }
                    assert(self.map() =~= old_map.remove(k@));
                }
                Some(ov)
            },
            None => {
                assert(self.map() =~= old(self).map().remove(k@));
                None
            },
        }
    }

    /// Removes every entry, returning them in order.
    pub fn drain(&mut self) -> (r: Vec<(K, V)>)
        requires
            old(self).wf(),
        ensures
            final(self).wf(),
            final(self).map() == Map::<K::V, V>::empty(),
            final(self).keys() == Seq::<K::V>::empty(),
            r@.map_values(|e: (K, V)| e.0@) == old(self).keys(),
            r@.map_values(|e: (K, V)| e.1) == old(self).values(),
    {
        let mut out: Vec<(K, V)> = Vec::new();
        std::mem::swap(&mut out, &mut self.entries);
        assert(self.map() =~= Map::<K::V, V>::empty());
        assert(self.keys() =~= Seq::<K::V>::empty());
        out
    }
}

} // verus!
