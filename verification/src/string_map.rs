//! A map keyed by text that remembers the order in which its keys arrived.
//!
//! The map is modelled by two values: `view()`, a `Map` from the characters of
//! a key to the view of its value, and `key_order()`, the keys in the order of
//! their first insertion. No key occurs twice, so the two always agree.
//!
//! The entries lie in a vector, and a lookup compares keys one after the
//! other: the map is made for the commits and branches of a dataset, which
//! are few next to its files.

use crate::text::same_text;
use vstd::prelude::*;

verus! {

/// An insertion-ordered map from `String` keys to values of type `V`.
#[derive(Debug)]
pub struct StringMap<V> {
    entries: Vec<(String, V)>,
}

/// The keys of a sequence of entries, in its order.
pub open spec fn keys_of<V>(entries: Seq<(String, V)>) -> Seq<Seq<char>> {
    Seq::new(entries.len(), |i: int| entries[i].0@)
}

impl<V> StringMap<V> {
    /// The keys, oldest first.
    pub closed spec fn key_order(&self) -> Seq<Seq<char>> {
        keys_of(self.entries@)
    }

    #[verifier::type_invariant]
    spec fn distinct_keys(&self) -> bool {
        self.key_order().no_duplicates()
    }

    /// A copy of the keys, oldest first.
    pub fn keys(&self) -> (keys: Vec<String>)
        ensures
            keys.deep_view() == self.key_order(),
            self.key_order().no_duplicates(),
    {
        proof {
            use_type_invariant(self);
        }
        let mut keys: Vec<String> = Vec::new();
        let mut i: usize = 0;
        while i < self.entries.len()
            invariant
                i <= self.entries.len(),
                keys.len() == i,
                forall|j: int| 0 <= j < i ==> keys@[j]@ == self.entries@[j].0@,
            decreases self.entries.len() - i,
        {
            keys.push(self.entries[i].0.clone());
            i += 1;
        }
        assert(keys.deep_view() =~= self.key_order());
        keys
    }
}

impl<V: View> View for StringMap<V> {
    type V = Map<Seq<char>, V::V>;

    closed spec fn view(&self) -> Map<Seq<char>, V::V> {
        Map::new(
            |k: Seq<char>| self.key_order().contains(k),
            |k: Seq<char>| self.entries@[self.key_order().index_of(k)].1@,
        )
    }
}

impl<V: View> StringMap<V> {
    /// What ties the two models together: the keys of the view are exactly
    /// the keys of the order, each once.
    pub open spec fn coherent(&self) -> bool {
        &&& self.key_order().no_duplicates()
        &&& self@.dom() =~= self.key_order().to_set()
        &&& self@.dom().finite()
        &&& self@.len() == self.key_order().len()
    }

    proof fn lemma_position(&self, i: int)
        requires
            self.key_order().no_duplicates(),
            0 <= i < self.key_order().len(),
        ensures
            self@.contains_key(self.key_order()[i]),
            self@[self.key_order()[i]] == self.entries@[i].1@,
            self.key_order().index_of(self.key_order()[i]) == i,
    {
        let keys = self.key_order();
        assert(keys.contains(keys[i]));
        let j = keys.index_of(keys[i]);
        assert(0 <= j < keys.len() && keys[j] == keys[i]);
    }

    proof fn lemma_coherent(&self)
        requires
            self.key_order().no_duplicates(),
        ensures
            self.coherent(),
    {
        let keys = self.key_order();
        assert(self@.dom() =~= keys.to_set());
        keys.unique_seq_to_set();
        vstd::seq_lib::seq_to_set_is_finite(keys);
    }

    /// An empty map.
    pub fn new() -> (map: Self)
        ensures
            map@ == Map::<Seq<char>, V::V>::empty(),
            map.key_order() == Seq::<Seq<char>>::empty(),
            map.coherent(),
    {
        let map = StringMap { entries: Vec::new() };
        proof {
            assert(map.key_order() =~= Seq::<Seq<char>>::empty());
            assert(map@ =~= Map::<Seq<char>, V::V>::empty());
            map.lemma_coherent();
        }
        map
    }

    /// The number of entries.
    pub fn len(&self) -> (n: usize)
        ensures
            n == self.key_order().len(),
            n == self@.len(),
            self.coherent(),
    {
        proof {
            use_type_invariant(self);
            self.lemma_coherent();
        }
        self.entries.len()
    }

    /// Where `key` stands in the order, if the map holds it.
    pub fn position(&self, key: &str) -> (found: Option<usize>)
        ensures
            self.coherent(),
            match found {
                Some(i) => i < self.key_order().len() && self.key_order()[i as int] == key@,
                None => !self@.contains_key(key@),
            },
    {
        proof {
            use_type_invariant(self);
            self.lemma_coherent();
        }
        let mut i: usize = 0;
        while i < self.entries.len()
            invariant
                i <= self.entries.len(),
                self.key_order().len() == self.entries.len(),
                self.coherent(),
                forall|j: int| 0 <= j < i ==> self.key_order()[j] != key@,
            decreases self.entries.len() - i,
        {
            if same_text(self.entries[i].0.as_str(), key) {
                return Some(i);
            }
            i += 1;
        }
        None
    }

    /// Whether the map holds `key`.
    pub fn contains_key(&self, key: &str) -> (held: bool)
        ensures
            held == self@.contains_key(key@),
    {
        proof {
            use_type_invariant(self);
        }
        match self.position(key) {
            Some(i) => {
                proof {
                    self.lemma_position(i as int);
                }
                true
            },
            None => false,
        }
    }

    /// The value stored under `key`.
    pub fn get(&self, key: &str) -> (found: Option<&V>)
        ensures
            match found {
                Some(value) => self@.contains_key(key@) && value@ == self@[key@],
                None => !self@.contains_key(key@),
            },
    {
        proof {
            use_type_invariant(self);
        }
        match self.position(key) {
            Some(i) => {
                proof {
                    self.lemma_position(i as int);
                }
                Some(&self.entries[i].1)
            },
            None => None,
        }
    }

    /// The `i`-th entry in insertion order, `None` past the end.
    pub fn entry_at(&self, i: usize) -> (entry: Option<(&String, &V)>)
        ensures
            self.coherent(),
            i < self.key_order().len() <==> entry is Some,
            match entry {
                Some((key, value)) => {
                    &&& key@ == self.key_order()[i as int]
                    &&& self@.contains_key(key@)
                    &&& value@ == self@[key@]
                },
                None => true,
            },
    {
        proof {
            use_type_invariant(self);
            self.lemma_coherent();
        }
        if i < self.entries.len() {
            proof {
                self.lemma_position(i as int);
            }
            Some((&self.entries[i].0, &self.entries[i].1))
        } else {
            None
        }
    }

    /// Stores `value` under `key`. A key that is already held keeps its place
    /// in the order and takes the new value; a new key goes to the end.
    pub fn insert(&mut self, key: String, value: V)
        ensures
            final(self)@ == old(self)@.insert(key@, value@),
            final(self).key_order() == if old(self)@.contains_key(key@) {
                old(self).key_order()
            } else {
                old(self).key_order().push(key@)
            },
            final(self).coherent(),
    {
        proof {
            use_type_invariant(&*self);
        }
        let ghost before = *self;
        let ghost k = key@;
        let ghost v = value@;
        let found = self.position(key.as_str());
        let mut entries: Vec<(String, V)> = Vec::new();
        core::mem::swap(&mut self.entries, &mut entries);
        match found {
            Some(i) => {
                entries.set(i, (key, value));
                proof {
                    assert(keys_of(entries@) =~= before.key_order());
                }
            },
            None => {
                entries.push((key, value));
                proof {
                    assert(keys_of(entries@) =~= before.key_order().push(k));
                    assert(!before.key_order().contains(k));
                }
            },
        }
        self.entries = entries;
        proof {
            match found {
                Some(i) => {
                    before.lemma_position(i as int);
                    assert forall|q: Seq<char>| self@.contains_key(q) implies #[trigger] self@[q]
                        == before@.insert(k, v)[q] by {
                        let j = self.key_order().index_of(q);
                        before.lemma_position(j);
                    }
                },
                None => {
                    assert(self.key_order()[before.key_order().len() as int] == k);
                    assert forall|q: Seq<char>| self@.contains_key(q) implies #[trigger] self@[q]
                        == before@.insert(k, v)[q] by {
                        let j = self.key_order().index_of(q);
                        self.lemma_position(j);
                        if j < before.key_order().len() {
                            before.lemma_position(j);
                        }
                    }
                    assert forall|q: Seq<char>|
                        before@.insert(k, v).contains_key(q) implies self@.contains_key(q) by {
                        if q != k {
                            let j = before.key_order().index_of(q);
                            assert(self.key_order()[j] == q);
                        }
                    }
                },
            }
            assert(self@ =~= before@.insert(k, v));
            self.lemma_coherent();
        }
    }
}

impl<V: View> StringMap<V> {
    /// Takes `key` and its value out of the map. The other keys keep their
    /// order.
    pub fn remove(&mut self, key: &str) -> (taken: Option<V>)
        ensures
            final(self)@ == old(self)@.remove(key@),
            final(self).coherent(),
            match taken {
                Some(value) => {
                    &&& old(self)@.contains_key(key@)
                    &&& value@ == old(self)@[key@]
                    &&& final(self).key_order() == old(self).key_order().remove(
                        old(self).key_order().index_of(key@),
                    )
                },
                None => !old(self)@.contains_key(key@) && final(self).key_order() == old(
                    self,
                ).key_order(),
            },
    {
        proof {
            use_type_invariant(&*self);
        }
        let ghost before = *self;
        let ghost k = key@;
        match self.position(key) {
            Some(i) => {
                let mut entries: Vec<(String, V)> = Vec::new();
                core::mem::swap(&mut self.entries, &mut entries);
                let entry = entries.remove(i);
                proof {
                    before.lemma_position(i as int);
                    assert(keys_of(entries@) =~= before.key_order().remove(i as int));
                    assert forall|a: int, b: int|
                        0 <= a < keys_of(entries@).len() && 0 <= b < keys_of(entries@).len() && a
                            != b implies keys_of(entries@)[a] != keys_of(entries@)[b] by {
                        let a0 = if a < i { a } else { a + 1 };
                        let b0 = if b < i { b } else { b + 1 };
                        assert(keys_of(entries@)[a] == before.key_order()[a0]);
                        assert(keys_of(entries@)[b] == before.key_order()[b0]);
                    }
                }
                self.entries = entries;
                proof {
                    assert forall|q: Seq<char>| self@.contains_key(q) implies {
                        &&& q != k
                        &&& before@.contains_key(q)
                        &&& #[trigger] self@[q] == before@[q]
                    } by {
                        let j = self.key_order().index_of(q);
                        let j0 = if j < i { j } else { j + 1 };
                        assert(self.key_order()[j] == before.key_order()[j0]);
                        self.lemma_position(j);
                        before.lemma_position(j0);
                    }
                    assert forall|q: Seq<char>| before@.contains_key(q) && q != k implies self@.contains_key(
                        q,
                    ) by {
                        let j0 = before.key_order().index_of(q);
                        before.lemma_position(j0);
                        let j = if j0 < i { j0 } else { j0 - 1 };
                        assert(self.key_order()[j] == q);
                    }
                    assert(self@ =~= before@.remove(k));
                    self.lemma_coherent();
                }
                Some(entry.1)
            },
            None => {
                proof {
                    assert(self@ =~= before@.remove(k));
                }
                None
            },
        }
    }

    /// Empties the map.
    pub fn clear(&mut self)
        ensures
            final(self)@ == Map::<Seq<char>, V::V>::empty(),
            final(self).key_order() == Seq::<Seq<char>>::empty(),
            final(self).coherent(),
    {
        let entries: Vec<(String, V)> = Vec::new();
        assert(keys_of(entries@) =~= Seq::<Seq<char>>::empty());
        self.entries = entries;
        proof {
            assert(self@ =~= Map::<Seq<char>, V::V>::empty());
            self.lemma_coherent();
        }
    }
}

/// The entries of a list with keys and values as views.
pub open spec fn entries_view<V: View>(entries: Seq<(String, V)>) -> Seq<(Seq<char>, V::V)> {
    Seq::new(entries.len(), |i: int| (entries[i].0@, entries[i].1@))
}

/// The map that holds the entries of a list. Where a key occurs more than
/// once, its last value counts.
pub open spec fn collected<W>(entries: Seq<(Seq<char>, W)>) -> Map<Seq<char>, W>
    decreases entries.len(),
{
    if entries.len() == 0 {
        Map::empty()
    } else {
        collected(entries.drop_last()).insert(entries.last().0, entries.last().1)
    }
}

/// A list lists a map where it names every key of the map once, with the
/// value that the map holds for it, and names nothing else.
pub open spec fn lists<W>(entries: Seq<(Seq<char>, W)>, map: Map<Seq<char>, W>) -> bool {
    &&& forall|i: int, j: int|
        0 <= i < j < entries.len() ==> (#[trigger] entries[i]).0 != (#[trigger] entries[j]).0
    &&& forall|i: int|
        0 <= i < entries.len() ==> map.contains_key((#[trigger] entries[i]).0) && map[entries[i].0]
            == entries[i].1
    &&& forall|k: Seq<char>|
        map.contains_key(k) ==> exists|i: int| 0 <= i < entries.len() && (#[trigger] entries[i]).0 == k
}

/// Collecting the entries under which a list lists a map gives that map,
/// whatever the order of the list.
pub proof fn lemma_collected_listing<W>(entries: Seq<(Seq<char>, W)>, map: Map<Seq<char>, W>)
    requires
        lists(entries, map),
    ensures
        collected(entries) == map,
    decreases entries.len(),
{
    if entries.len() == 0 {
        assert(collected(entries) =~= map);
    } else {
        let rest = entries.drop_last();
        let last = entries.last();
        let smaller = map.remove(last.0);
        assert(entries[entries.len() - 1] == last);
        assert forall|i: int| 0 <= i < rest.len() implies smaller.contains_key(
            (#[trigger] rest[i]).0,
        ) && smaller[rest[i].0] == rest[i].1 by {
            assert(rest[i] == entries[i]);
        }
        assert forall|k: Seq<char>| smaller.contains_key(k) implies exists|i: int|
            0 <= i < rest.len() && (#[trigger] rest[i]).0 == k by {
            let i = choose|i: int| 0 <= i < entries.len() && (#[trigger] entries[i]).0 == k;
            assert(rest[i] == entries[i]);
        }
        assert forall|i: int, j: int| 0 <= i < j < rest.len() implies (#[trigger] rest[i]).0 != (
        #[trigger] rest[j]).0 by {
            assert(rest[i] == entries[i]);
            assert(rest[j] == entries[j]);
        }
        lemma_collected_listing(rest, smaller);
        assert(collected(entries) =~= map);
    }
}

impl<V: View> StringMap<V> {
    /// The entries, oldest first.
    pub fn entries(&self) -> (list: Vec<(&String, &V)>)
        ensures
            list.len() == self.key_order().len(),
            forall|i: int|
                0 <= i < list.len() ==> {
                    &&& (#[trigger] list[i]).0@ == self.key_order()[i]
                    &&& list[i].1@ == self@[self.key_order()[i]]
                },
            self.coherent(),
    {
        proof {
            use_type_invariant(self);
            self.lemma_coherent();
        }
        let mut list: Vec<(&String, &V)> = Vec::new();
        let mut i: usize = 0;
        while i < self.entries.len()
            invariant
                i <= self.entries.len(),
                self.key_order().len() == self.entries.len(),
                self.key_order().no_duplicates(),
                list.len() == i,
                forall|j: int|
                    0 <= j < i ==> {
                        &&& (#[trigger] list[j]).0@ == self.key_order()[j]
                        &&& list[j].1@ == self@[self.key_order()[j]]
                    },
            decreases self.entries.len() - i,
        {
            proof {
                self.lemma_position(i as int);
            }
            list.push((&self.entries[i].0, &self.entries[i].1));
            i += 1;
        }
        list
    }

    /// The map that holds `entries`. Where a key occurs more than once, its
    /// last value counts. Where no key does, the map has the order of the
    /// list.
    pub fn from_entries(entries: Vec<(String, V)>) -> (map: Self)
        ensures
            map@ == collected(entries_view(entries@)),
            keys_of(entries@).no_duplicates() ==> map.key_order() == keys_of(entries@),
            map.coherent(),
    {
        let ghost all = entries_view(entries@);
        let ghost keys = keys_of(entries@);
        let mut map: StringMap<V> = StringMap::new();
        proof {
            assert(all.subrange(0, 0) =~= Seq::empty());
            assert(keys.subrange(0, 0) =~= Seq::empty());
        }
        for entry in it: entries.into_iter()
            invariant
                all == entries_view(entries@),
                keys == keys_of(entries@),
                it.seq() == entries@,
                map@ == collected(all.subrange(0, it.index() as int)),
                keys.no_duplicates() ==> map.key_order() == keys.subrange(0, it.index() as int),
                map.coherent(),
        {
            proof {
                let n = it.index() as int;
                let next = all.subrange(0, n + 1);
                assert(next.drop_last() =~= all.subrange(0, n));
                assert(next.last() == (entry.0@, entry.1@));
                assert(keys[n] == entry.0@);
                if keys.no_duplicates() {
                    if map@.contains_key(entry.0@) {
                        assert(map.key_order().to_set().contains(entry.0@));
                        let j = map.key_order().index_of(entry.0@);
                        assert(keys.subrange(0, n)[j] == keys[j]);
                    }
                    assert(keys.subrange(0, n + 1) =~= keys.subrange(0, n).push(keys[n]));
                }
            }
            map.insert(entry.0, entry.1);
        }
        proof {
            assert(all.subrange(0, all.len() as int) =~= all);
            assert(keys.subrange(0, keys.len() as int) =~= keys);
        }
        map
    }
}

impl<V: View + Clone> Clone for StringMap<V> {
    /// A copy with the same keys in the same order. Where cloning a `V` keeps
    /// its view, the copy has the same view as this map.
    fn clone(&self) -> (copy: Self)
        ensures
            copy.key_order() == self.key_order(),
            copy.coherent(),
            (forall|a: V, b: V| cloned::<V>(a, b) ==> a@ == b@) ==> copy@ == self@,
    {
        proof {
            use_type_invariant(self);
        }
        let mut entries: Vec<(String, V)> = Vec::new();
        let mut i: usize = 0;
        while i < self.entries.len()
            invariant
                i <= self.entries.len(),
                entries.len() == i,
                forall|j: int| 0 <= j < i ==> entries@[j].0@ == self.entries@[j].0@,
                forall|j: int| 0 <= j < i ==> cloned::<V>(self.entries@[j].1, #[trigger] entries@[j].1),
            decreases self.entries.len() - i,
        {
            let key = self.entries[i].0.clone();
            let value = self.entries[i].1.clone();
            entries.push((key, value));
            i += 1;
        }
        proof {
            assert(keys_of(entries@) =~= self.key_order());
        }
        let copy = StringMap { entries };
        proof {
            copy.lemma_coherent();
            if forall|a: V, b: V| cloned::<V>(a, b) ==> a@ == b@ {
                assert forall|q: Seq<char>| copy@.contains_key(q) implies #[trigger] copy@[q]
                    == self@[q] by {
                    let j = copy.key_order().index_of(q);
                    assert(cloned::<V>(self.entries@[j].1, copy.entries@[j].1));
                }
                assert(copy@ =~= self@);
            }
        }
        copy
    }
}

} // verus!
