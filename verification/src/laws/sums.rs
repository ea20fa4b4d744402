//! How the byte total of a table changes with its rows.

use vstd::prelude::*;

use crate::model::{bytes_at, sound, total_bytes, Cache, CachedRow};

verus! {

/// Removing a row takes its size off the total.
pub proof fn lemma_total_remove(cache: Cache, key: Seq<char>)
    requires
        cache.dom().finite(),
        cache.contains_key(key),
    ensures
        total_bytes(cache) == cache[key].bytes + total_bytes(cache.remove(key)),
    decreases cache.dom().len(),
{
    let first = cache.dom().choose();
    assert(cache.dom().contains(key));
    assert(cache.dom().len() > 0);
    assert(cache.dom().contains(first));
    if first != key {
        let rest = cache.remove(first);
        assert(rest.dom() =~= cache.dom().remove(first));
        assert(rest.contains_key(key));
        lemma_total_remove(rest, key);
        let others = cache.remove(key);
        assert(others.dom() =~= cache.dom().remove(key));
        assert(others.contains_key(first));
        lemma_total_remove(others, first);
        assert(rest.remove(key) =~= others.remove(first));
    }
}

/// Storing a row changes the total by its size less that of the row it replaces.
pub proof fn lemma_total_insert(cache: Cache, key: Seq<char>, row: CachedRow)
    requires
        cache.dom().finite(),
    ensures
        total_bytes(cache.insert(key, row)) == total_bytes(cache) + row.bytes - bytes_at(cache, key),
{
    let stored = cache.insert(key, row);
    lemma_total_remove(stored, key);
    if cache.contains_key(key) {
        lemma_total_remove(cache, key);
        assert(stored.remove(key) =~= cache.remove(key));
    } else {
        assert(stored.remove(key) =~= cache);
    }
}

/// The total of a sound table is not negative.
pub proof fn lemma_total_nonnegative(cache: Cache)
    requires
        sound(cache),
    ensures
        total_bytes(cache) >= 0,
    decreases cache.dom().len(),
{
    if cache.dom().len() > 0 {
        let key = cache.dom().choose();
        assert(cache.contains_key(key));
        let rest = cache.remove(key);
        assert(rest.dom() =~= cache.dom().remove(key));
        assert(sound(rest));
        lemma_total_nonnegative(rest);
    }
}

/// No row of a sound table is bigger than the table.
pub proof fn lemma_bytes_within_total(cache: Cache, key: Seq<char>)
    requires
        sound(cache),
    ensures
        0 <= bytes_at(cache, key) <= total_bytes(cache),
{
    lemma_total_nonnegative(cache);
    if cache.contains_key(key) {
        lemma_total_remove(cache, key);
        let rest = cache.remove(key);
        assert(sound(rest));
        lemma_total_nonnegative(rest);
    }
}

/// A part of a sound table is no bigger than the table.
pub proof fn lemma_total_part(part: Cache, cache: Cache)
    requires
        sound(cache),
        part.submap_of(cache),
    ensures
        part.dom().finite(),
        total_bytes(part) <= total_bytes(cache),
    decreases cache.dom().len(),
{
    assert(part.dom().subset_of(cache.dom()));
    vstd::set_lib::lemma_len_subset(part.dom(), cache.dom());
    if part =~= cache {
    } else {
        let key = choose|key: Seq<char>| #[trigger]
            cache.contains_key(key) && !part.contains_key(key);
        if !(exists|key: Seq<char>| #[trigger] cache.contains_key(key) && !part.contains_key(key)) {
            assert(part.dom() =~= cache.dom());
            assert(part =~= cache);
        }
        let rest = cache.remove(key);
        assert(rest.dom() =~= cache.dom().remove(key));
        lemma_total_remove(cache, key);
        assert(sound(rest));
        assert(part.submap_of(rest));
        lemma_total_part(part, rest);
    }
}

} // verus!
