//! What the cache assumes of its key type.

use std::hash::Hash;
use vstd::laws_eq::obeys_concrete_eq;
use vstd::prelude::*;
use vstd::std_specs::hash::obeys_key_model;

verus! {

/// A key type the cache can work with: it hashes deterministically, its `==`
/// decides whether two keys are the same value, and a clone of a key is that
/// key again.
pub open spec fn lawful_key<K: Eq + Hash + Clone>() -> bool {
    &&& obeys_key_model::<K>()
    &&& obeys_concrete_eq::<K>()
    &&& forall|a: K, b: K| #[trigger] cloned(a, b) ==> a == b
}

/// The integer types and `bool` are lawful key types.
pub proof fn lemma_primitive_keys_are_lawful()
    ensures
        lawful_key::<bool>(),
        lawful_key::<u8>(),
        lawful_key::<u16>(),
        lawful_key::<u32>(),
        lawful_key::<u64>(),
        lawful_key::<u128>(),
        lawful_key::<usize>(),
        lawful_key::<i8>(),
        lawful_key::<i16>(),
        lawful_key::<i32>(),
        lawful_key::<i64>(),
        lawful_key::<i128>(),
        lawful_key::<isize>(),
{
}

} // verus!
