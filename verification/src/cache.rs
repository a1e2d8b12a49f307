//! The bounded store of ring contexts, least recently used out first.
//!
//! The store is `lru::LruCache`, keyed by ring size. Its contents are told as
//! a sequence of entries, most recently used first; each entry is the key,
//! then the reference string and the ring size of the context kept under it.

use vstd::prelude::*;
use std::num::NonZeroUsize;
use lru::LruCache;
use crate::backend::RingContext;

verus! {

/// The hasher that `lru::LruCache` is built with where none is named.
#[verifier::external_type_specification]
#[verifier::external_body]
pub struct ExDefaultHasher(lru::DefaultHasher);

/// The cache of the `lru` crate.
#[verifier::external_type_specification]
#[verifier::external_body]
#[verifier::reject_recursive_types(K)]
#[verifier::reject_recursive_types(V)]
#[verifier::reject_recursive_types(S)]
pub struct ExLruCache<K, V, S>(LruCache<K, V, S>);

/// What the cache holds, most recently used first: for each entry its key,
/// and the reference string and ring size of its context.
pub uninterp spec fn cache_entries(cache: LruCache<usize, RingContext>) -> Seq<
    (usize, Seq<u8>, usize),
>;

/// The number of entries that the cache was made to hold.
pub uninterp spec fn cache_capacity(cache: LruCache<usize, RingContext>) -> nat;

/// Some entry has the key.
pub open spec fn has_key(entries: Seq<(usize, Seq<u8>, usize)>, key: usize) -> bool {
    exists|i: int| 0 <= i < entries.len() && (#[trigger] entries[i]).0 == key
}

/// Where the entry with the key stands.
pub open spec fn key_position(entries: Seq<(usize, Seq<u8>, usize)>, key: usize) -> int {
    choose|i: int| 0 <= i < entries.len() && (#[trigger] entries[i]).0 == key
}

/// No two entries share a key.
pub open spec fn keys_distinct(entries: Seq<(usize, Seq<u8>, usize)>) -> bool {
    forall|i: int, j: int|
        0 <= i < j < entries.len() ==> (#[trigger] entries[i]).0 != (#[trigger] entries[j]).0
}

/// The entries after the one at `position` was used: it moves to the front.
pub open spec fn promoted(entries: Seq<(usize, Seq<u8>, usize)>, position: int) -> Seq<
    (usize, Seq<u8>, usize),
> {
    seq![entries[position]] + entries.remove(position)
}

/// The entries after one with a new key was put in: it stands in front, and
/// the last entry has left if the cache was full.
pub open spec fn admitted(
    entries: Seq<(usize, Seq<u8>, usize)>,
    entry: (usize, Seq<u8>, usize),
    capacity: nat,
) -> Seq<(usize, Seq<u8>, usize)> {
    if entries.len() == capacity {
        seq![entry] + entries.drop_last()
    } else {
        seq![entry] + entries
    }
}

/// Calls `LruCache::unbounded` and then `LruCache::resize`: an empty cache
/// of the given capacity. No room is set aside before an entry comes, so
/// any capacity but zero can be asked for.
#[verifier::external_body]
pub(crate) fn cache_new(capacity: usize) -> (cache: LruCache<usize, RingContext>)
    requires
        0 < capacity,
    ensures
        cache_entries(cache) == Seq::<(usize, Seq<u8>, usize)>::empty(),
        cache_capacity(cache) == capacity,
{
    let mut cache = LruCache::unbounded();
    cache.resize(NonZeroUsize::new(capacity).unwrap());
    cache
}

/// Calls `LruCache::get` and copies what it found. A key that is there moves
/// to the front and its context is handed out; otherwise nothing changes.
#[verifier::external_body]
pub(crate) fn cache_get(cache: &mut LruCache<usize, RingContext>, ring_size: usize) -> (found:
    Option<RingContext>)
    requires
        keys_distinct(cache_entries(*old(cache))),
    ensures
        cache_capacity(*final(cache)) == cache_capacity(*old(cache)),
        found is Some <==> has_key(cache_entries(*old(cache)), ring_size),
        found is Some ==> {
            let position = key_position(cache_entries(*old(cache)), ring_size);
            &&& found.unwrap().reference() == cache_entries(*old(cache))[position].1
            &&& found.unwrap().ring_size() == cache_entries(*old(cache))[position].2
            &&& cache_entries(*final(cache)) == promoted(cache_entries(*old(cache)), position)
        },
        found is None ==> cache_entries(*final(cache)) == cache_entries(*old(cache)),
{
    cache.get(&ring_size).cloned()
}

/// Calls `LruCache::put`. A key that is there gets the new context and moves
/// to the front; a new key goes to the front, and the entry at the back is
/// dropped if the cache was full.
#[verifier::external_body]
pub(crate) fn cache_put(
    cache: &mut LruCache<usize, RingContext>,
    ring_size: usize,
    context: RingContext,
)
    requires
        keys_distinct(cache_entries(*old(cache))),
    ensures
        cache_capacity(*final(cache)) == cache_capacity(*old(cache)),
        cache_entries(*final(cache)) == ({
            let entries = cache_entries(*old(cache));
            let entry = (ring_size, context.reference(), context.ring_size());
            if has_key(entries, ring_size) {
                seq![entry] + entries.remove(key_position(entries, ring_size))
            } else {
                admitted(entries, entry, cache_capacity(*old(cache)))
            }
        }),
{
    cache.put(ring_size, context);
}

/// Calls `LruCache::iter` and copies the keys it walks, most recently used
/// first.
#[verifier::external_body]
pub(crate) fn cache_keys(cache: &LruCache<usize, RingContext>) -> (keys: Vec<usize>)
    ensures
        keys@.len() == cache_entries(*cache).len(),
        forall|i: int| 0 <= i < keys@.len() ==> keys@[i] == (#[trigger] cache_entries(*cache)[i]).0,
{
    cache.iter().map(|entry| *entry.0).collect()
}

} // verus!
