//! The abstract value of a cache and the meaning of its operations.

use vstd::prelude::*;

verus! {

/// What a cache is, mathematically: a bound, a lookup table, and the keys in
/// order of use, least recently used first.
#[verifier::reject_recursive_types(K)]
pub struct CacheModel<K, V> {
    /// The largest number of entries the cache may hold.
    pub capacity: nat,
    /// The resident entries.
    pub table: Map<K, V>,
    /// The resident keys from least to most recently used.
    pub order: Seq<K>,
}

impl<K, V> CacheModel<K, V> {
    /// The cache with the given bound and no entries.
    pub open spec fn empty(capacity: nat) -> Self {
        CacheModel { capacity, table: Map::empty(), order: Seq::empty() }
    }

    /// The table and the recency sequence describe the same keys, and no key
    /// is listed twice.
    pub open spec fn consistent(self) -> bool {
        &&& self.order.no_duplicates()
        &&& self.table.dom() == self.order.to_set()
    }

    /// The bound is positive, the two parts agree, and the bound is respected.
    pub open spec fn valid(self) -> bool {
        &&& self.capacity > 0
        &&& self.consistent()
        &&& self.order.len() <= self.capacity
    }

    /// The number of resident entries.
    pub open spec fn len(self) -> nat {
        self.order.len()
    }

    /// The value stored under `key`, if any.
    pub open spec fn lookup(self, key: K) -> Option<V> {
        if self.table.contains_key(key) {
            Some(self.table[key])
        } else {
            None
        }
    }

    /// The recency sequence after `key`, which must be resident, has been
    /// used: it leaves its place and goes to the most recently used end.
    pub open spec fn touched(self, key: K) -> Seq<K> {
        self.order.remove(self.order.index_of(key)).push(key)
    }

    /// The cache after a lookup of `key`. A hit counts as a use; a miss
    /// changes nothing.
    pub open spec fn get(self, key: K) -> Self {
        if self.table.contains_key(key) {
            CacheModel { capacity: self.capacity, table: self.table, order: self.touched(key) }
        } else {
            self
        }
    }

    /// The cache after `value` has been stored under `key`.
    ///
    /// A resident key keeps its entry and only becomes the most recently
    /// used. A new key is appended; when the cache is full, the least
    /// recently used entry makes room for it first.
    pub open spec fn put(self, key: K, value: V) -> Self {
        if self.table.contains_key(key) {
            CacheModel {
                capacity: self.capacity,
                table: self.table.insert(key, value),
                order: self.touched(key),
            }
        } else if self.order.len() == self.capacity {
            CacheModel {
                capacity: self.capacity,
                table: self.table.remove(self.order.first()).insert(key, value),
                order: self.order.drop_first().push(key),
            }
        } else {
            CacheModel {
                capacity: self.capacity,
                table: self.table.insert(key, value),
                order: self.order.push(key),
            }
        }
    }

    /// The cache after each entry of `entries` has been stored in turn,
    /// first entry first.
    pub open spec fn put_all(self, entries: Seq<(K, V)>) -> Self
        decreases entries.len(),
    {
        if entries.len() == 0 {
            self
        } else {
            self.put_all(entries.drop_last()).put(entries.last().0, entries.last().1)
        }
    }
}

} // verus!
