//! What holds of the abstract cache operations, proved once for all inputs.

use crate::model::CacheModel;
use vstd::prelude::*;

verus! {

/// In a consistent cache the table has exactly as many entries as the
/// recency sequence has keys.
pub proof fn lemma_len_counts_table<K, V>(m: CacheModel<K, V>)
    requires
        m.consistent(),
    ensures
        m.table.dom().finite(),
        m.table.dom().len() == m.len(),
{
    m.order.unique_seq_to_set();
    vstd::seq_lib::seq_to_set_is_finite(m.order);
}

/// In a consistent cache a key is resident exactly when the recency sequence
/// lists it, and the sequence lists it at one place only.
pub proof fn lemma_resident_keys_listed_once<K, V>(m: CacheModel<K, V>, key: K)
    requires
        m.consistent(),
    ensures
        m.table.contains_key(key) <==> m.order.contains(key),
        forall|i: int, j: int|
            0 <= i < m.order.len() && 0 <= j < m.order.len() && m.order[i] == key && m.order[j]
                == key ==> i == j,
{
}

/// Using a resident key permutes the recency sequence: the same keys remain,
/// each once, and the used key ends up most recently used.
pub proof fn lemma_touched_permutes<K, V>(m: CacheModel<K, V>, key: K)
    requires
        m.consistent(),
        m.table.contains_key(key),
    ensures
        m.touched(key).no_duplicates(),
        m.touched(key).to_set() == m.order.to_set(),
        m.touched(key).len() == m.order.len(),
        m.touched(key).last() == key,
{
    let s = m.order;
    assert(s.contains(key));
    let i = s.index_of(key);
    let r = s.remove(i);
    let t = m.touched(key);
    assert(t == r.push(key));
    assert forall|a: int, b: int| 0 <= a < t.len() && 0 <= b < t.len() && a != b implies t[a]
        != t[b] by {
        let sa = if a < i { a } else if a < r.len() { a + 1 } else { i };
        let sb = if b < i { b } else if b < r.len() { b + 1 } else { i };
        assert(t[a] == s[sa]);
        assert(t[b] == s[sb]);
    }
    assert forall|k: K| t.contains(k) <==> s.contains(k) by {
        if t.contains(k) {
            let a = choose|a: int| 0 <= a < t.len() && t[a] == k;
            let sa = if a < i { a } else if a < r.len() { a + 1 } else { i };
            assert(s[sa] == k);
        }
        if s.contains(k) {
            let b = choose|b: int| 0 <= b < s.len() && s[b] == k;
            let tb = if b < i { b } else if b == i { r.len() as int } else { b - 1 };
            assert(t[tb] == k);
        }
    }
    assert(t.to_set() =~= s.to_set());
}

/// A lookup leaves a valid cache valid, with the same entries and bound.
pub proof fn lemma_get_preserves_valid<K, V>(m: CacheModel<K, V>, key: K)
    requires
        m.valid(),
    ensures
        m.get(key).valid(),
        m.get(key).table == m.table,
        m.get(key).capacity == m.capacity,
        m.get(key).len() == m.len(),
{
    if m.table.contains_key(key) {
        lemma_touched_permutes(m, key);
    }
}

/// A store leaves a valid cache valid: the table and the recency sequence
/// still list the same keys, each once, and the bound still holds.
pub proof fn lemma_put_preserves_valid<K, V>(m: CacheModel<K, V>, key: K, value: V)
    requires
        m.valid(),
    ensures
        m.put(key, value).valid(),
        m.put(key, value).capacity == m.capacity,
        m.put(key, value).len() <= m.capacity,
{
    let after = m.put(key, value);
    let s = m.order;
    if m.table.contains_key(key) {
        lemma_touched_permutes(m, key);
        assert(after.table.dom() =~= m.table.dom());
    } else {
        assert(!s.contains(key));
        if s.len() == m.capacity {
            let rest = s.drop_first();
            let t = rest.push(key);
            assert(after.order == t);
            assert forall|a: int, b: int| 0 <= a < t.len() && 0 <= b < t.len() && a != b implies t[a]
                != t[b] by {
                if a < rest.len() {
                    assert(t[a] == s[a + 1]);
                }
                if b < rest.len() {
                    assert(t[b] == s[b + 1]);
                }
            }
            assert forall|k: K| t.contains(k) <==> after.table.dom().contains(k) by {
                if t.contains(k) {
                    let a = choose|a: int| 0 <= a < t.len() && t[a] == k;
                    if a < rest.len() {
                        assert(t[a] == s[a + 1]);
                        assert(s.contains(k));
                    }
                }
                if after.table.dom().contains(k) && k != key {
                    assert(s.contains(k));
                    let b = choose|b: int| 0 <= b < s.len() && s[b] == k;
                    assert(t[b - 1] == k);
                }
                if k == key {
                    assert(t[t.len() - 1] == k);
                }
            }
            assert(after.table.dom() =~= t.to_set());
        } else {
            let t = s.push(key);
            assert forall|k: K| t.contains(k) <==> after.table.dom().contains(k) by {
                if t.contains(k) {
                    let a = choose|a: int| 0 <= a < t.len() && t[a] == k;
                    if a < s.len() {
                        assert(s[a] == k);
                        assert(s.contains(k));
                    }
                }
                if after.table.dom().contains(k) && k != key {
                    assert(s.contains(k));
                    let b = choose|b: int| 0 <= b < s.len() && s[b] == k;
                    assert(t[b] == k);
                }
                if k == key {
                    assert(t[t.len() - 1] == k);
                }
            }
            assert(after.table.dom() =~= t.to_set());
        }
    }
}

/// Any run of stores leaves a valid cache valid; in particular the number of
/// entries never exceeds the capacity.
pub proof fn lemma_put_all_preserves_valid<K, V>(m: CacheModel<K, V>, entries: Seq<(K, V)>)
    requires
        m.valid(),
    ensures
        m.put_all(entries).valid(),
        m.put_all(entries).capacity == m.capacity,
        m.put_all(entries).len() <= m.capacity,
    decreases entries.len(),
{
    if entries.len() > 0 {
        lemma_put_all_preserves_valid(m, entries.drop_last());
        lemma_put_preserves_valid(
            m.put_all(entries.drop_last()),
            entries.last().0,
            entries.last().1,
        );
    }
}

/// The capacity bound holds after every single store of a run, not only at
/// its end.
pub proof fn lemma_capacity_holds_after_each_put<K, V>(m: CacheModel<K, V>, entries: Seq<(K, V)>)
    requires
        m.valid(),
    ensures
        forall|n: int|
            0 <= n <= entries.len() ==> (#[trigger] m.put_all(entries.take(n))).len()
                <= m.capacity,
{
    assert forall|n: int| 0 <= n <= entries.len() implies (#[trigger] m.put_all(
        entries.take(n),
    )).len() <= m.capacity by {
        lemma_put_all_preserves_valid(m, entries.take(n));
    }
}

/// Storing under a resident key replaces its value and evicts nothing: the
/// same keys stay resident and every other key keeps its value.
pub proof fn lemma_update_does_not_evict<K, V>(m: CacheModel<K, V>, key: K, value: V)
    requires
        m.valid(),
        m.table.contains_key(key),
    ensures
        m.put(key, value).len() == m.len(),
        m.put(key, value).table.dom() == m.table.dom(),
        m.put(key, value).lookup(key) == Some(value),
        forall|other: K| other != key ==> m.put(key, value).lookup(other) == m.lookup(other),
{
    lemma_touched_permutes(m, key);
    assert(m.put(key, value).table.dom() =~= m.table.dom());
}

/// A lookup that misses is no use of the cache: the state is unchanged, and
/// so is everything that later stores will do to it.
pub proof fn lemma_miss_changes_nothing<K, V>(m: CacheModel<K, V>, key: K, entries: Seq<(K, V)>)
    requires
        !m.table.contains_key(key),
    ensures
        m.lookup(key) is None,
        m.get(key) == m,
        m.get(key).len() == m.len(),
        m.get(key).put_all(entries) == m.put_all(entries),
{
}

/// A store evicts at most one entry, and only ever the least recently used
/// one, and only to make room for a new key in a full cache. Every entry
/// that stays keeps its value.
pub proof fn lemma_put_evicts_only_least_recent<K, V>(m: CacheModel<K, V>, key: K, value: V)
    requires
        m.valid(),
    ensures
        forall|other: K|
            m.table.contains_key(other) && !(#[trigger] m.put(key, value).table.contains_key(
                other,
            )) ==> other == m.order.first() && m.len() == m.capacity && !m.table.contains_key(
                key,
            ),
        forall|other: K|
            other != key && #[trigger] m.put(key, value).table.contains_key(other)
                ==> m.put(key, value).lookup(other) == m.lookup(other),
        !m.table.contains_key(key) && m.len() == m.capacity ==> !m.put(
            key,
            value,
        ).table.contains_key(m.order.first()),
{
    if !m.table.contains_key(key) && m.len() == m.capacity {
        assert(m.order.contains(m.order.first()));
    }
}

/// After a store the key is resident with the stored value and is the most
/// recently used.
pub proof fn lemma_put_makes_most_recent<K, V>(m: CacheModel<K, V>, key: K, value: V)
    requires
        m.valid(),
    ensures
        m.put(key, value).lookup(key) == Some(value),
        m.put(key, value).order.last() == key,
{
    if m.table.contains_key(key) {
        lemma_touched_permutes(m, key);
    }
}

/// After a lookup that hits, the key is the most recently used and the
/// other keys keep their relative order.
pub proof fn lemma_hit_makes_most_recent<K, V>(m: CacheModel<K, V>, key: K)
    requires
        m.valid(),
        m.table.contains_key(key),
    ensures
        m.get(key).order.last() == key,
        m.get(key).order.drop_last() == m.order.remove(m.order.index_of(key)),
{
    lemma_touched_permutes(m, key);
    assert(m.get(key).order.drop_last() =~= m.order.remove(m.order.index_of(key)));
}

} // verus!
