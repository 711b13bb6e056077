use vstd::prelude::*;

use crate::primitives::{Address, Symbol};

verus! {

/// A value that can key a [`Store`]: it can be compared and copied by its view.
pub trait StoreKey: View + Sized {
    fn key_eq(&self, other: &Self) -> (r: bool)
        ensures
            r == (self@ == other@),
    ;

    fn key_clone(&self) -> (r: Self)
        ensures
            r@ == self@,
    ;
}

impl StoreKey for Address {
    fn key_eq(&self, other: &Self) -> (r: bool) {
        self.same_as(other)
    }

    fn key_clone(&self) -> (r: Self) {
        self.clone()
    }
}

impl StoreKey for Symbol {
    fn key_eq(&self, other: &Self) -> (r: bool) {
        self.same_as(other)
    }

    fn key_clone(&self) -> (r: Self) {
        self.clone()
    }
}

impl StoreKey for u64 {
    fn key_eq(&self, other: &Self) -> (r: bool) {
        *self == *other
    }

    fn key_clone(&self) -> (r: Self) {
        *self
    }
}

impl<A: StoreKey, B: StoreKey> StoreKey for (A, B) {
    fn key_eq(&self, other: &Self) -> (r: bool) {
        self.0.key_eq(&other.0) && self.1.key_eq(&other.1)
    }

    fn key_clone(&self) -> (r: Self) {
        (self.0.key_clone(), self.1.key_clone())
    }
}

/// A key-value store: each key, taken by its view, holds at most one value.
///
/// It stands for one kind of entry in a contract's ledger storage.
pub struct Store<K, V> {
    entries: Vec<(K, V)>,
}

/// The index of the entry whose key has view `k`, if `k` is present.
pub open spec fn has_key_at<K: View, V>(e: Seq<(K, V)>, k: K::V, i: int) -> bool {
    0 <= i < e.len() && e[i].0@ == k
}

pub open spec fn keys_distinct<K: View, V>(e: Seq<(K, V)>) -> bool {
    forall|i: int, j: int| 0 <= i < e.len() && 0 <= j < e.len() && i != j ==> e[i].0@ != e[j].0@
}

pub open spec fn map_of<K: View, V>(e: Seq<(K, V)>) -> Map<K::V, V> {
    Map::new(
        |k: K::V| exists|i: int| has_key_at(e, k, i),
        |k: K::V| e[choose|i: int| has_key_at(e, k, i)].1,
    )
}

/// In a sequence with distinct keys, the map of the sequence holds each entry.
proof fn lemma_map_of_at<K: View, V>(e: Seq<(K, V)>, i: int)
    requires
        keys_distinct(e),
        0 <= i < e.len(),
    ensures
        map_of(e).contains_key(e[i].0@),
        map_of(e)[e[i].0@] == e[i].1,
{
    let k = e[i].0@;
    assert(has_key_at(e, k, i));
    let j = choose|j: int| has_key_at(e, k, j);
    assert(has_key_at(e, k, j));
}

impl<K: StoreKey, V> View for Store<K, V> {
    type V = Map<K::V, V>;

    closed spec fn view(&self) -> Map<K::V, V> {
        map_of(self.entries@)
    }
}

impl<K: StoreKey, V> Store<K, V> {
    /// The store's invariant: no key occurs twice.
    pub closed spec fn wf(&self) -> bool {
        keys_distinct(self.entries@)
    }

    /// An empty store.
    pub fn new() -> (r: Self)
        ensures
            r.wf(),
            r@ == Map::<K::V, V>::empty(),
    {
        let r = Store { entries: Vec::new() };
        assert(r@ =~= Map::<K::V, V>::empty());
        r
    }

    fn find(&self, k: &K) -> (r: Option<usize>)
        requires
            self.wf(),
        ensures
            match r {
                Some(i) => has_key_at(self.entries@, k@, i as int),
                None => forall|i: int| !has_key_at(self.entries@, k@, i),
            },
    {
        let mut i: usize = 0;
        while i < self.entries.len()
            invariant
                i <= self.entries@.len(),
                forall|j: int| 0 <= j < i ==> !has_key_at(self.entries@, k@, j),
            decreases self.entries@.len() - i,
        {
            if self.entries[i].0.key_eq(k) {
                return Some(i);
            }
            i = i + 1;
        }
        None
    }

    /// The stored entries, one per key, in no particular order.
    pub fn entries(&self) -> (r: &Vec<(K, V)>)
        requires
            self.wf(),
        ensures
            keys_distinct(r@),
            forall|i: int|
                0 <= i < r@.len() ==> self@.contains_key(#[trigger] r@[i].0@) && self@[r@[i].0@]
                    == r@[i].1,
            forall|k: K::V| #[trigger]
                self@.contains_key(k) ==> exists|i: int| 0 <= i < r@.len() && r@[i].0@ == k,
    {
        proof {
            assert forall|i: int| 0 <= i < self.entries@.len() implies self@.contains_key(
                #[trigger] self.entries@[i].0@,
            ) && self@[self.entries@[i].0@] == self.entries@[i].1 by {
                lemma_map_of_at(self.entries@, i);
            }
            assert forall|k: K::V| #[trigger] self@.contains_key(k) implies exists|i: int|
                0 <= i < self.entries@.len() && self.entries@[i].0@ == k by {
                let i = choose|i: int| has_key_at(self.entries@, k, i);
            }
        }
        &self.entries
    }

    /// Whether `k` holds a value.
    pub fn contains_key(&self, k: &K) -> (r: bool)
        requires
            self.wf(),
        ensures
            r == self@.contains_key(k@),
    {
        match self.find(k) {
            Some(i) => {
                proof {
                    lemma_map_of_at(self.entries@, i as int);
                }
                true
            },
            None => false,
        }
    }

    /// The value that `k` holds, if any.
    pub fn get(&self, k: &K) -> (r: Option<&V>)
        requires
            self.wf(),
        ensures
            match r {
                Some(v) => self@.contains_key(k@) && *v == self@[k@],
                None => !self@.contains_key(k@),
            },
    {
        match self.find(k) {
            Some(i) => {
                proof {
                    lemma_map_of_at(self.entries@, i as int);
                }
                Some(&self.entries[i].1)
            },
            None => None,
        }
    }

    /// Makes `k` hold `v`, replacing any earlier value.
    pub fn insert(&mut self, k: K, v: V)
        requires
            old(self).wf(),
        ensures
            final(self).wf(),
            final(self)@ == old(self)@.insert(k@, v),
    {
        let ghost e0 = self.entries@;
        let ghost kv = k@;
        match self.find(&k) {
            Some(i) => {
                proof {
                    lemma_map_of_at(e0, i as int);
                }
                self.entries.set(i, (k, v));
                let ghost e1 = self.entries@;
                assert(e1 == e0.update(i as int, (e1[i as int].0, v)));
                assert(keys_distinct(e1)) by {
                    assert forall|a: int, b: int|
                        0 <= a < e1.len() && 0 <= b < e1.len() && a != b implies e1[a].0@
                        != e1[b].0@ by {
                        assert(e1[i as int].0@ == e0[i as int].0@);
                    }
                }
                assert(map_of(e1) =~= map_of(e0).insert(kv, v)) by {
                    assert forall|x: K::V| #[trigger]
                        map_of(e1).contains_key(x) == map_of(e0).insert(kv, v).contains_key(x) by {
                        if map_of(e1).contains_key(x) {
                            let j = choose|j: int| has_key_at(e1, x, j);
                            assert(has_key_at(e0, x, j));
                        }
                        if map_of(e0).contains_key(x) {
                            let j = choose|j: int| has_key_at(e0, x, j);
                            assert(has_key_at(e1, x, j));
                        }
                        if x == kv {
                            assert(has_key_at(e1, x, i as int));
                        }
                    }
                    assert forall|x: K::V| #[trigger] map_of(e1).contains_key(x) implies map_of(
                        e1,
                    )[x] == map_of(e0).insert(kv, v)[x] by {
                        let j = choose|j: int| has_key_at(e1, x, j);
                        lemma_map_of_at(e1, j);
                        assert(has_key_at(e0, x, j));
                        lemma_map_of_at(e0, j);
                    }
                }
            },
            None => {
                self.entries.push((k, v));
                let ghost e1 = self.entries@;
                let ghost n = e0.len() as int;
                assert(has_key_at(e1, kv, n));
                assert(keys_distinct(e1)) by {
                    assert forall|a: int, b: int|
                        0 <= a < e1.len() && 0 <= b < e1.len() && a != b implies e1[a].0@
                        != e1[b].0@ by {
                        if a == n {
                            assert(!has_key_at(e0, kv, b));
                        } else if b == n {
                            assert(!has_key_at(e0, kv, a));
                        }
                    }
                }
                assert(map_of(e1) =~= map_of(e0).insert(kv, v)) by {
                    assert forall|x: K::V| #[trigger]
                        map_of(e1).contains_key(x) == map_of(e0).insert(kv, v).contains_key(x) by {
                        if map_of(e1).contains_key(x) && x != kv {
                            let j = choose|j: int| has_key_at(e1, x, j);
                            assert(has_key_at(e0, x, j));
                        }
                        if map_of(e0).contains_key(x) {
                            let j = choose|j: int| has_key_at(e0, x, j);
                            assert(has_key_at(e1, x, j));
                        }
                    }
                    assert forall|x: K::V| #[trigger] map_of(e1).contains_key(x) implies map_of(
                        e1,
                    )[x] == map_of(e0).insert(kv, v)[x] by {
                        let j = choose|j: int| has_key_at(e1, x, j);
                        lemma_map_of_at(e1, j);
                        if j < n {
                            assert(has_key_at(e0, x, j));
                            lemma_map_of_at(e0, j);
                        }
                    }
                }
            },
        }
    }

    /// Removes whatever `k` holds; nothing changes if it holds nothing.
    pub fn remove(&mut self, k: &K)
        requires
            old(self).wf(),
        ensures
            final(self).wf(),
            final(self)@ == old(self)@.remove(k@),
    {
        let ghost e0 = self.entries@;
        let ghost kv = k@;
        match self.find(k) {
            Some(i) => {
                self.entries.remove(i);
                let ghost e1 = self.entries@;
                let ghost ii = i as int;
                assert(e1 == e0.remove(ii));
                assert(keys_distinct(e1)) by {
                    assert forall|a: int, b: int|
                        0 <= a < e1.len() && 0 <= b < e1.len() && a != b implies e1[a].0@
                        != e1[b].0@ by {
                        let a0 = if a < ii {
                            a
                        } else {
                            a + 1
                        };
                        let b0 = if b < ii {
                            b
                        } else {
                            b + 1
                        };
                        assert(e1[a] == e0[a0]);
                        assert(e1[b] == e0[b0]);
                    }
                }
                assert(map_of(e1) =~= map_of(e0).remove(kv)) by {
                    assert forall|x: K::V| #[trigger]
                        map_of(e1).contains_key(x) == map_of(e0).remove(kv).contains_key(x) by {
                        if map_of(e1).contains_key(x) {
                            let j = choose|j: int| has_key_at(e1, x, j);
                            let j0 = if j < ii {
                                j
                            } else {
                                j + 1
                            };
                            assert(e1[j] == e0[j0]);
                            assert(has_key_at(e0, x, j0));
                        }
                        if map_of(e0).contains_key(x) && x != kv {
                            let j = choose|j: int| has_key_at(e0, x, j);
                            assert(j != ii);
                            let j1 = if j < ii {
                                j
                            } else {
                                j - 1
                            };
                            assert(e1[j1] == e0[j]);
                            assert(has_key_at(e1, x, j1));
                        }
                    }
                    assert forall|x: K::V| #[trigger] map_of(e1).contains_key(x) implies map_of(
                        e1,
                    )[x] == map_of(e0).remove(kv)[x] by {
                        let j = choose|j: int| has_key_at(e1, x, j);
                        lemma_map_of_at(e1, j);
                        let j0 = if j < ii {
                            j
                        } else {
                            j + 1
                        };
                        assert(e1[j] == e0[j0]);
                        lemma_map_of_at(e0, j0);
                    }
                }
            },
            None => {
                assert(map_of(e0) =~= map_of(e0).remove(kv));
            },
        }
    }
}

} // verus!
