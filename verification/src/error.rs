//! The error that building a cache can end in.

use vstd::prelude::*;

verus! {

/// Why a cache could not be built.
#[derive(Debug, Clone, Copy, PartialEq, Eq, Structural)]
pub enum CacheError {
    /// The requested capacity was zero; a cache must hold at least one entry.
    InvalidCapacity,
}

} // verus!
