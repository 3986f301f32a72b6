//! A map that keeps its entries in the order in which they were added.

use vstd::prelude::*;

verus! {

/// A value that entries can be found by.
pub trait Key: View + Sized {
    fn same(&self, other: &Self) -> (res: bool)
        ensures
            res == (self@ == other@),
    ;
}

impl Key for String {
    fn same(&self, other: &Self) -> (res: bool) {
        self.eq(other)
    }
}

/// Entries under keys that are all different.
#[derive(Debug)]
pub struct AssocMap<K: Key, V: View> {
    entries: Vec<(K, V)>,
}

impl<K: Key, V: View> AssocMap<K, V> {
    /// The keys, in the order in which they were added.
    pub closed spec fn keys(self) -> Seq<K::V> {
        Seq::new(self.entries@.len(), |i: int| self.entries@[i].0@)
    }

    /// The value under a key that is there.
    pub closed spec fn value_of(self, key: K::V) -> V::V {
        self.entries@[self.keys().index_of(key)].1@
    }

    #[verifier::type_invariant]
    spec fn keys_differ(self) -> bool {
        self.keys().no_duplicates()
    }
}

impl<K: Key, V: View> View for AssocMap<K, V> {
    type V = Map<K::V, V::V>;

    open spec fn view(&self) -> Map<K::V, V::V> {
        Map::new(|key: K::V| self.keys().contains(key), |key: K::V| self.value_of(key))
    }
}

impl<K: Key, V: View> AssocMap<K, V> {
    pub fn new() -> (res: Self)
        ensures
            res@ == Map::<K::V, V::V>::empty(),
            res.keys() == Seq::<K::V>::empty(),
    {
        let res = AssocMap { entries: Vec::new() };
        assert(res.keys() =~= Seq::<K::V>::empty());
        assert(res@ =~= Map::<K::V, V::V>::empty());
        res
    }

    pub fn len(&self) -> (res: usize)
        ensures
            res == self.keys().len(),
            self.keys().no_duplicates(),
    {
        proof {
            use_type_invariant(self);
        }
        self.entries.len()
    }

    /// The key of the entry at `index`.
    pub fn key_at(&self, index: usize) -> (res: &K)
        requires
            index < self.keys().len(),
        ensures
            res@ == self.keys()[index as int],
            self@.dom().contains(res@),
    {
        assert(self.keys()[index as int] == self.entries@[index as int].0@);
        assert(self.keys().contains(self.keys()[index as int]));
        &self.entries[index].0
    }

    /// The value of the entry at `index`.
    pub fn value_at(&self, index: usize) -> (res: &V)
        requires
            index < self.keys().len(),
        ensures
            res@ == self@[self.keys()[index as int]],
            self@.dom().contains(self.keys()[index as int]),
    {
        proof {
            use_type_invariant(self);
            let key = self.keys()[index as int];
            assert(self.keys().contains(key));
            let found = self.keys().index_of(key);
            assert(self.keys()[found] == key);
            assert(found == index);
        }
        &self.entries[index].1
    }

    /// The index of the entry under `key`.
    pub fn position(&self, key: &K) -> (res: Option<usize>)
        ensures
            match res {
                Some(i) => i < self.keys().len() && self.keys()[i as int] == key@
                    && self@.dom().contains(key@),
                None => !self@.dom().contains(key@),
            },
    {
        let mut i: usize = 0;
        while i < self.entries.len()
            invariant
                i <= self.entries@.len(),
                forall|j: int| 0 <= j < i ==> #[trigger] self.keys()[j] != key@,
            decreases self.entries.len() - i,
        {
            assert(self.keys()[i as int] == self.entries@[i as int].0@);
            if self.entries[i].0.same(key) {
                assert(self.keys().contains(key@));
                return Some(i);
            }
            i += 1;
        }
        assert(!self.keys().contains(key@));
        None
    }

    pub fn contains_key(&self, key: &K) -> (res: bool)
        ensures
            res == self@.dom().contains(key@),
    {
        self.position(key).is_some()
    }

    pub fn get(&self, key: &K) -> (res: Option<&V>)
        ensures
            match res {
                Some(value) => self@.dom().contains(key@) && value@ == self@[key@],
                None => !self@.dom().contains(key@),
            },
    {
        match self.position(key) {
            Some(i) => Some(self.value_at(i)),
            None => None,
        }
    }

    /// Puts `value` under `key`, in place of what was there.
    pub fn insert(&mut self, key: K, value: V)
        ensures
            final(self)@ == old(self)@.insert(key@, value@),
            final(self).keys() == if old(self)@.dom().contains(key@) {
                old(self).keys()
            } else {
                old(self).keys().push(key@)
            },
    {
        proof {
            use_type_invariant(&*self);
        }
        let found = self.position(&key);
        let mut entries: Vec<(K, V)> = Vec::new();
        let ghost before = *self;
        std::mem::swap(&mut entries, &mut self.entries);
        let ghost kv = key@;
        let ghost vv = value@;
        match found {
            Some(i) => {
                entries.set(i, (key, value));
            },
            None => {
                entries.push((key, value));
            },
        }
        let ghost after = AssocMap { entries };
        proof {
            match found {
                Some(i) => {
                    assert(after.keys() =~= before.keys());
                },
                None => {
                    assert(after.keys() =~= before.keys().push(kv));
                },
            }
            lemma_index(before);
            lemma_index(after);
            assert forall|k: K::V| after.keys().contains(k) <==> (before.keys().contains(k) || k
                == kv) by {
                match found {
                    Some(i) => {
                        assert(before.keys().contains(kv));
                    },
                    None => {
                        if before.keys().contains(k) {
                            let j = before.keys().index_of(k);
                            assert(after.keys()[j] == k);
                        }
                        assert(after.keys()[before.keys().len() as int] == kv);
                    },
                }
            }
            assert(after@ =~= before@.insert(kv, vv)) by {
                assert forall|k: K::V| after.keys().contains(k) implies after.value_of(k)
                    == before@.insert(kv, vv)[k] by {
                    let j = after.keys().index_of(k);
                    assert(after.keys()[j] == k);
                    if k != kv {
                        assert(before.keys()[j] == k);
                        assert(before.keys().index_of(k) == j);
                    }
                }
            }
        }
        self.entries = entries;
    }

    /// Takes out the entry under `key`.
    pub fn remove(&mut self, key: &K) -> (res: Option<V>)
        ensures
            final(self)@ == old(self)@.remove(key@),
            match res {
                Some(value) => old(self)@.dom().contains(key@) && value@ == old(self)@[key@],
                None => !old(self)@.dom().contains(key@),
            },
            !old(self)@.dom().contains(key@) ==> final(self).keys() == old(self).keys(),
            old(self)@.dom().contains(key@) ==> final(self).keys() == old(self).keys().remove(
                old(self).keys().index_of(key@),
            ),
    {
        proof {
            use_type_invariant(&*self);
        }
        let found = self.position(key);
        let ghost before = *self;
        match found {
            None => {
                assert(before@ =~= before@.remove(key@));
                None
            },
            Some(i) => {
                let mut entries: Vec<(K, V)> = Vec::new();
                std::mem::swap(&mut entries, &mut self.entries);
                let (_, value) = entries.remove(i);
                let ghost after = AssocMap { entries };
                proof {
                    assert(before.keys().contains(key@));
                    assert(before.keys().index_of(key@) == i);
                    assert(after.keys() =~= before.keys().remove(i as int));
                    assert forall|a: int, b: int|
                        0 <= a < after.keys().len() && 0 <= b < after.keys().len() && a
                            != b implies after.keys()[a] != after.keys()[b] by {
                        let a0 = if a < i {
                            a
                        } else {
                            a + 1
                        };
                        let b0 = if b < i {
                            b
                        } else {
                            b + 1
                        };
                        assert(after.keys()[a] == before.keys()[a0]);
                        assert(after.keys()[b] == before.keys()[b0]);
                    }
                    assert(after.keys().no_duplicates());
                    lemma_index(before);
                    lemma_index(after);
                    assert forall|k: K::V| after.keys().contains(k) <==> (before.keys().contains(k)
                        && k != key@) by {
                        if after.keys().contains(k) {
                            let a = after.keys().index_of(k);
                            let a0 = if a < i {
                                a
                            } else {
                                a + 1
                            };
                            assert(before.keys()[a0] == k);
                            assert(a0 != i);
                        }
                        if before.keys().contains(k) && k != key@ {
                            let b = before.keys().index_of(k);
                            assert(b != i);
                            let a = if b < i {
                                b
                            } else {
                                b - 1
                            };
                            assert(after.keys()[a] == k);
                        }
                    }
                    assert(after@ =~= before@.remove(key@)) by {
                        assert forall|k: K::V| after.keys().contains(k) implies after.value_of(k)
                            == before@[k] by {
                            let a = after.keys().index_of(k);
                            assert(after.keys()[a] == k);
                            let a0 = if a < i {
                                a
                            } else {
                                a + 1
                            };
                            assert(before.keys()[a0] == k);
                            assert(before.keys().index_of(k) == a0);
                        }
                    }
                }
                self.entries = entries;
                Some(value)
            },
        }
    }
}

/// The index of a key is the only place where it stands.
proof fn lemma_index<K: Key, V: View>(map: AssocMap<K, V>)
    requires
        map.keys().no_duplicates(),
    ensures
        forall|k: K::V, i: int|
            0 <= i < map.keys().len() && #[trigger] map.keys()[i] == k ==> #[trigger] map.keys().index_of(
                k,
            ) == i,
{
    assert forall|k: K::V, i: int|
        0 <= i < map.keys().len() && #[trigger] map.keys()[i] == k implies #[trigger] map.keys().index_of(
        k,
    ) == i by {
        assert(map.keys().contains(k));
        let j = map.keys().index_of(k);
        assert(map.keys()[j] == k);
    }
}

/// One more of some keys is the next one.
pub proof fn lemma_next_key<T>(keys: Seq<T>, count: int)
    requires
        0 <= count < keys.len(),
    ensures
        forall|key: T| #[trigger]
            keys.take(count + 1).contains(key) <==> keys.take(count).contains(key) || key
                == keys[count],
{
    assert forall|key: T| #[trigger] keys.take(count + 1).contains(key) implies keys.take(
        count,
    ).contains(key) || key == keys[count] by {
        let at = keys.take(count + 1).index_of(key);
        if at < count {
            assert(keys.take(count)[at] == key);
        }
    }
    assert forall|key: T|
        keys.take(count).contains(key) || key == keys[count] implies #[trigger] keys.take(
        count + 1,
    ).contains(key) by {
        if keys.take(count).contains(key) {
            let at = keys.take(count).index_of(key);
            assert(keys.take(count + 1)[at] == key);
        } else {
            assert(keys.take(count + 1)[count] == key);
        }
    }
}

/// What is put under a key is found there, what is taken out is not, and other
/// keys are not concerned.
pub proof fn law_map_keeps_what_is_put_in<V: View>(
    put: &mut AssocMap<String, V>,
    taken: &mut AssocMap<String, V>,
    key: String,
    value: V,
    found: Option<&V>,
    out: Option<V>,
    gone: Option<&V>,
    other: Seq<char>,
)
    requires
        call_ensures(AssocMap::<String, V>::insert, (put, key, value), ()),
        call_ensures(AssocMap::<String, V>::get, (final(put), &key), found),
        *old(taken) == *final(put),
        call_ensures(AssocMap::<String, V>::remove, (taken, &key), out),
        call_ensures(AssocMap::<String, V>::get, (final(taken), &key), gone),
    ensures
        found is Some,
        found->0@ == value@,
        out is Some,
        out->0@ == value@,
        gone is None,
        other != key@ ==> (final(taken)@.dom().contains(other) <==> old(put)@.dom().contains(
            other,
        )) && final(taken)@[other] == old(put)@[other],
{
}

} // verus!
