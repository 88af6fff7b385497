//! The sequential cache: a lookup table and a recency sequence kept in step.

use crate::error::CacheError;
use crate::key::lawful_key;
use crate::laws::lemma_len_counts_table;
use crate::laws::lemma_put_preserves_valid;
use crate::laws::lemma_touched_permutes;
use crate::model::CacheModel;
use std::collections::HashMap;
use std::collections::VecDeque;
use std::hash::Hash;
use vstd::laws_eq::obeys_concrete_eq;
use vstd::prelude::*;

verus! {

/// A cache owned by one caller at a time.
///
/// `map` holds the entries and `order` the same keys from least to most
/// recently used. Moving a key within `order` scans for it, so a use costs
/// time in proportion to the number of resident entries.
pub struct CacheState<K, V> {
    capacity: usize,
    map: HashMap<K, V>,
    order: VecDeque<K>,
}

impl<K, V> View for CacheState<K, V> {
    type V = CacheModel<K, V>;

    closed spec fn view(&self) -> CacheModel<K, V> {
        CacheModel { capacity: self.capacity as nat, table: self.map@, order: self.order@ }
    }
}

impl<K: Eq + Hash + Clone, V: Clone> CacheState<K, V> {
    /// The key type is lawful and the abstract value is valid.
    pub open spec fn wf(&self) -> bool {
        &&& lawful_key::<K>()
        &&& self@.valid()
    }

    /// Builds an empty cache that holds at most `capacity` entries; a
    /// capacity of zero is refused.
    pub fn new(capacity: usize) -> (result: Result<Self, CacheError>)
        requires
            lawful_key::<K>(),
        ensures
            result is Err <==> capacity == 0,
            result matches Err(e) ==> e == CacheError::InvalidCapacity,
            result matches Ok(state) ==> state.wf() && state@ == CacheModel::<K, V>::empty(
                capacity as nat,
            ),
    {
        if capacity == 0 {
            return Err(CacheError::InvalidCapacity);
        }
        let state = CacheState {
            capacity,
            map: HashMap::with_capacity(capacity),
            order: VecDeque::with_capacity(capacity),
        };
        proof {
            assert(state@.table.dom() =~= state@.order.to_set());
        }
        Ok(state)
    }

    /// The number of resident entries.
    pub fn len(&self) -> (n: usize)
        requires
            self.wf(),
        ensures
            n == self@.len(),
            n <= self@.capacity,
    {
        proof {
            lemma_len_counts_table(self@);
        }
        self.map.len()
    }

    /// Looks `key` up and hands out a clone of its value. A hit makes the key
    /// the most recently used; a miss changes nothing.
    pub fn get(&mut self, key: &K) -> (result: Option<V>)
        requires
            old(self).wf(),
        ensures
            final(self).wf(),
            final(self)@ == old(self)@.get(*key),
            match result {
                Some(value) => old(self)@.table.contains_key(*key) && cloned(
                    old(self)@.table[*key],
                    value,
                ),
                None => !old(self)@.table.contains_key(*key),
            },
    {
        match self.map.get(key).cloned() {
            Some(value) => {
                let used = key.clone();
                assert(cloned(*key, used));
                self.touch(used);
                Some(value)
            },
            None => None,
        }
    }

    /// Stores `value` under `key` and makes the key the most recently used.
    ///
    /// A resident key is overwritten in place. For a new key in a full cache
    /// the least recently used entry is evicted first.
    pub fn put(&mut self, key: K, value: V)
        requires
            old(self).wf(),
        ensures
            final(self).wf(),
            final(self)@ == old(self)@.put(key, value),
    {
        proof {
            lemma_put_preserves_valid(self@, key, value);
            lemma_len_counts_table(self@);
        }
        if self.map.contains_key(&key) {
            let stored = key.clone();
            assert(cloned(key, stored));
            self.map.insert(stored, value);
            assert(self.map@.dom() =~= old(self).map@.dom());
            self.touch(key);
            return ;
        }
        if self.map.len() == self.capacity {
            if let Some(lru_key) = self.order.pop_front() {
                self.map.remove(&lru_key);
            }
        }
        let stored = key.clone();
        assert(cloned(key, stored));
        self.map.insert(stored, value);
        self.order.push_back(key);
        assert(self.order@ =~= old(self)@.put(key, value).order);
    }

    /// The index of `key` in the recency sequence, if it is listed.
    fn position(&self, key: &K) -> (found: Option<usize>)
        requires
            lawful_key::<K>(),
        ensures
            match found {
                Some(i) => {
                    &&& i < self.order@.len()
                    &&& self.order@[i as int] == *key
                    &&& forall|j: int| 0 <= j < i ==> self.order@[j] != *key
                },
                None => !self.order@.contains(*key),
            },
    {
        let mut i: usize = 0;
        while i < self.order.len()
            invariant
                i <= self.order@.len(),
                lawful_key::<K>(),
                forall|j: int| 0 <= j < i ==> self.order@[j] != *key,
            decreases self.order@.len() - i,
        {
            proof {
                reveal(obeys_concrete_eq);
            }
            if self.order[i] == *key {
                return Some(i);
            }
            i += 1;
        }
        None
    }

    /// Moves a resident key to the most recently used end of the sequence.
    fn touch(&mut self, key: K)
        requires
            old(self).wf(),
            old(self)@.table.contains_key(key),
        ensures
            final(self).wf(),
            final(self).capacity == old(self).capacity,
            final(self).map == old(self).map,
            final(self).order@ == old(self)@.touched(key),
    {
        proof {
            lemma_touched_permutes(self@, key);
        }
        if let Some(pos) = self.position(&key) {
            self.order.remove(pos);
        }
        self.order.push_back(key);
    }
}

} // verus!
