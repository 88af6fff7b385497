//! The shared cache: one sequential cache behind one lock.

use crate::error::CacheError;
use crate::key::lawful_key;
use crate::state::CacheState;
use std::hash::Hash;
use vstd::prelude::*;
use vstd::rwlock::RwLock;
use vstd::rwlock::RwLockPredicate;

verus! {

/// What the lock promises of the state it guards, whoever held it last: the
/// state is well formed and bounded by `capacity`.
struct Guarded {
    capacity: usize,
}

impl<K: Eq + Hash + Clone, V: Clone> RwLockPredicate<CacheState<K, V>> for Guarded {
    closed spec fn inv(self, state: CacheState<K, V>) -> bool {
        &&& state.wf()
        &&& state@.capacity == self.capacity
    }
}

/// A cache that any number of threads may use through a shared reference.
///
/// Every operation takes the one lock exclusively, works on the guarded
/// [`CacheState`], and gives the lock back, so the operations of all threads
/// take effect one after another. What a single call observes therefore
/// depends on the calls that came before it from every thread; the meaning
/// of one operation on a given state is the contract of the method of the
/// same name on [`CacheState`].
pub struct LruCache<K: Eq + Hash + Clone, V: Clone> {
    capacity: usize,
    inner: RwLock<CacheState<K, V>, Guarded>,
}

impl<K: Eq + Hash + Clone, V: Clone> LruCache<K, V> {
    #[verifier::type_invariant]
    spec fn bound_is_guarded(&self) -> bool {
        &&& self.capacity > 0
        &&& self.inner.pred().capacity == self.capacity
    }

    /// The bound this cache was built with.
    pub closed spec fn capacity(&self) -> nat {
        self.capacity as nat
    }

    /// Builds an empty shared cache that holds at most `capacity` entries; a
    /// capacity of zero is refused.
    pub fn new(capacity: usize) -> (result: Result<Self, CacheError>)
        requires
            lawful_key::<K>(),
        ensures
            result is Err <==> capacity == 0,
            result matches Err(e) ==> e == CacheError::InvalidCapacity,
            result matches Ok(cache) ==> cache.capacity() == capacity,
    {
        match CacheState::new(capacity) {
            Ok(state) => Ok(
                LruCache { capacity, inner: RwLock::new(state, Ghost(Guarded { capacity })) },
            ),
            Err(e) => Err(e),
        }
    }

    /// Looks `key` up in the state as it is when the lock is obtained and
    /// hands out a clone of the value found; a hit makes the key the most
    /// recently used.
    ///
    /// No postcondition ties the result to earlier calls on this cache:
    /// between any two calls another thread may have stored or evicted the
    /// key. On the state it finds, the call does what [`CacheState::get`]
    /// states.
    pub fn get(&self, key: &K) -> (result: Option<V>) {
        let (mut state, handle) = self.inner.acquire_write();
        let result = state.get(key);
        handle.release_write(state);
        result
    }

    /// Stores `value` under `key` in the state as it is when the lock is
    /// obtained, evicting the least recently used entry if a new key finds
    /// the cache full.
    ///
    /// No postcondition says the entry is still resident afterwards: another
    /// thread may evict it at once. On the state it finds, the call does
    /// what [`CacheState::put`] states.
    pub fn put(&self, key: K, value: V) {
        let (mut state, handle) = self.inner.acquire_write();
        state.put(key, value);
        handle.release_write(state);
    }

    /// The number of resident entries at the moment the lock is held. It
    /// never exceeds the capacity, whatever other threads are doing.
    pub fn len(&self) -> (n: usize)
        ensures
            n <= self.capacity(),
    {
        proof {
            use_type_invariant(self);
        }
        let (state, handle) = self.inner.acquire_write();
        let n = state.len();
        handle.release_write(state);
        n
    }
}

} // verus!
