//! A fixed-capacity key-value cache with least-recently-used eviction.
//!
//! [`CacheState`] is the sequential core: a lookup table paired with a
//! recency sequence. Each of its operations has an exact contract over the
//! abstract [`CacheModel`], and the module [`laws`] proves what follows from
//! those definitions for every input.
//!
//! [`LruCache`] shares one `CacheState` between threads. All of its
//! operations take the same lock exclusively, and the lock's invariant keeps
//! the guarded state well formed and within its capacity at every moment at
//! which the lock is free.

pub mod cache;
pub mod error;
pub mod key;
pub mod laws;
pub mod model;
pub mod state;

pub use cache::LruCache;
pub use error::CacheError;
pub use key::lawful_key;
pub use model::CacheModel;
pub use state::CacheState;
