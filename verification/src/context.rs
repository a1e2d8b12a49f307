//! The environment that proving and verifying run in: the reference
//! parameters and a bounded cache of the ring contexts derived from them.
//!
//! A context is costly to build and cheap to copy. The environment builds the
//! context of a ring size on the first request, keeps it, and hands out a copy
//! on every request; when the cache is full the context that was used least
//! recently makes room. A context is built while the environment is borrowed
//! for writing, so a caller that asks for a size that is not yet there holds
//! the environment for as long as the construction takes.

use vstd::prelude::*;
use lru::LruCache;
use crate::backend::build_ring_context;
use crate::backend::parse_reference_parameters;
use crate::backend::srs_decodes;
use crate::backend::ReferenceParameters;
use crate::backend::RingContext;
use crate::cache::admitted;
use crate::cache::cache_capacity;
use crate::cache::cache_entries;
use crate::cache::cache_get;
use crate::cache::cache_keys;
use crate::cache::cache_new;
use crate::cache::cache_put;
use crate::cache::has_key;
use crate::cache::key_position;
use crate::cache::keys_distinct;
use crate::cache::promoted;
use crate::srs::frame_counts;
use crate::srs::ring_size_supported;
use crate::srs::srs_framed;
use crate::srs::MAX_RING_SIZE;

verus! {

/// Number of ring sizes whose contexts an environment keeps by default.
pub const RING_CONTEXT_CACHE_CAPACITY: usize = 10;

/// Why no ring context could be had.
#[derive(Debug, Clone, Copy, PartialEq, Eq)]
pub enum RingContextError {
    /// The reference string does not decode, or does not serve the ring size.
    SrsCreationError,
    /// The lock that guards a shared environment was poisoned.
    CacheLockError,
}

impl RingContextError {
    /// The error in words.
    pub open spec fn text(&self) -> Seq<char> {
        match *self {
            RingContextError::SrsCreationError => "Failed to create SRS"@,
            RingContextError::CacheLockError => "Failed to lock cache"@,
        }
    }

    /// The error in words.
    pub fn message(&self) -> (text: &'static str)
        ensures
            text@ == self.text(),
    {
        match self {
            RingContextError::SrsCreationError => "Failed to create SRS",
            RingContextError::CacheLockError => "Failed to lock cache",
        }
    }
}

/// Whether a byte string is a reference string: framed, and decoded by the
/// curve library.
pub open spec fn is_reference_string(srs: Seq<u8>) -> bool {
    srs_framed(srs) && srs_decodes(srs)
}

/// Parses a reference string. Fails with `SrsCreationError` exactly on the
/// strings that are no reference strings.
///
/// Every point of the string is checked: a string with a point that is off
/// its curve or outside the subgroup of prime order is refused. Commitments
/// and proofs are sums of multiples of these points, and that they decode
/// again rests on this check.
pub fn reference_parameters(srs: &[u8]) -> (parsed: Result<ReferenceParameters, RingContextError>)
    ensures
        parsed is Ok <==> is_reference_string(srs@),
        parsed is Ok ==> parsed.unwrap()@ == srs@,
        parsed matches Err(error) ==> error == RingContextError::SrsCreationError,
{
    if frame_counts(srs).is_none() {
        return Err(RingContextError::SrsCreationError);
    }
    match parse_reference_parameters(srs) {
        Some(parameters) => Ok(parameters),
        None => Err(RingContextError::SrsCreationError),
    }
}

/// The ring sizes in use after `ring_size` was asked for: it stands in
/// front, the others keep their order, and where it is new and the cache was
/// full the last one has left.
pub open spec fn touched(sizes: Seq<usize>, ring_size: usize, capacity: nat) -> Seq<usize> {
    if sizes.contains(ring_size) {
        seq![ring_size] + sizes.remove(sizes.index_of(ring_size))
    } else if sizes.len() == capacity {
        seq![ring_size] + sizes.drop_last()
    } else {
        seq![ring_size] + sizes
    }
}

/// The keys of a sequence of cache entries.
pub open spec fn entry_keys(entries: Seq<(usize, Seq<u8>, usize)>) -> Seq<usize> {
    entries.map_values(|entry: (usize, Seq<u8>, usize)| entry.0)
}

/// Reference parameters and the ring contexts derived from them.
pub struct CryptoEnvironment {
    params: ReferenceParameters,
    cache: LruCache<usize, RingContext>,
}

impl CryptoEnvironment {
    /// What holds of every environment: the cache is within its capacity,
    /// holds each ring size once, and holds under each ring size the context
    /// of the environment's reference string and that size.
    pub closed spec fn wf(&self) -> bool {
        let entries = cache_entries(self.cache);
        &&& 0 < cache_capacity(self.cache)
        &&& entries.len() <= cache_capacity(self.cache)
        &&& keys_distinct(entries)
        &&& forall|i: int|
            0 <= i < entries.len() ==> {
                &&& (#[trigger] entries[i]).1 == self.params@
                &&& entries[i].2 == entries[i].0
                &&& ring_size_supported(self.params@, entries[i].0)
            }
    }

    /// The reference string that the environment was made from.
    pub closed spec fn reference(&self) -> Seq<u8> {
        self.params@
    }

    /// The number of contexts that the environment keeps at most.
    pub closed spec fn capacity(&self) -> nat {
        cache_capacity(self.cache)
    }

    /// The ring sizes whose contexts are kept, most recently used first.
    pub closed spec fn cached_sizes(&self) -> Seq<usize> {
        entry_keys(cache_entries(self.cache))
    }

    /// An environment with an empty cache of the default capacity.
    pub fn new(params: ReferenceParameters) -> (environment: CryptoEnvironment)
        ensures
            environment.wf(),
            environment.reference() == params@,
            environment.capacity() == RING_CONTEXT_CACHE_CAPACITY,
            environment.cached_sizes() == Seq::<usize>::empty(),
    {
        CryptoEnvironment::with_capacity(params, RING_CONTEXT_CACHE_CAPACITY)
    }

    /// An environment with an empty cache that keeps up to `capacity`
    /// contexts.
    pub fn with_capacity(params: ReferenceParameters, capacity: usize) -> (environment:
        CryptoEnvironment)
        requires
            0 < capacity,
        ensures
            environment.wf(),
            environment.reference() == params@,
            environment.capacity() == capacity,
            environment.cached_sizes() == Seq::<usize>::empty(),
    {
        let cache = cache_new(capacity);
        assert(entry_keys(cache_entries(cache)) =~= Seq::<usize>::empty());
        CryptoEnvironment { params, cache }
    }

    /// The cache of an environment is within its capacity and holds each
    /// ring size once.
    pub proof fn lemma_cached_sizes(&self)
        requires
            self.wf(),
        ensures
            0 < self.capacity(),
            self.cached_sizes().len() <= self.capacity(),
            self.cached_sizes().no_duplicates(),
    {
        let entries = cache_entries(self.cache);
        assert forall|i: int, j: int|
            0 <= i < self.cached_sizes().len() && 0 <= j < self.cached_sizes().len() && i
                != j implies self.cached_sizes()[i] != self.cached_sizes()[j] by {
            if i < j {
                assert(entries[i].0 != entries[j].0);
            } else {
                assert(entries[j].0 != entries[i].0);
            }
        }
    }

    /// The ring sizes whose contexts are kept, most recently used first.
    pub fn sizes(&self) -> (sizes: Vec<usize>)
        requires
            self.wf(),
        ensures
            sizes@ == self.cached_sizes(),
            sizes@.len() <= self.capacity(),
            sizes@.no_duplicates(),
            forall|i: int|
                0 <= i < sizes@.len() ==> ring_size_supported(self.reference(), #[trigger] sizes@[i]),
    {
        let sizes = cache_keys(&self.cache);
        assert(sizes@ =~= entry_keys(cache_entries(self.cache)));
        sizes
    }
}

/// With distinct keys, the key's place among the keys is its entry's place.
proof fn lemma_key_position(entries: Seq<(usize, Seq<u8>, usize)>, key: usize)
    requires
        keys_distinct(entries),
        has_key(entries, key),
    ensures
        0 <= key_position(entries, key) < entries.len(),
        entries[key_position(entries, key)].0 == key,
        entry_keys(entries).contains(key),
        entry_keys(entries).index_of(key) == key_position(entries, key),
{
    let position = key_position(entries, key);
    let keys = entry_keys(entries);
    assert(keys[position] == key);
    let place = keys.index_of(key);
    assert(0 <= place < keys.len() && keys[place] == key);
    assert(entries[place].0 == key);
    if place < position {
        assert(entries[place].0 != entries[position].0);
    } else if position < place {
        assert(entries[position].0 != entries[place].0);
    }
}

/// A key is among the keys exactly when an entry has it.
proof fn lemma_has_key(entries: Seq<(usize, Seq<u8>, usize)>, key: usize)
    ensures
        has_key(entries, key) <==> entry_keys(entries).contains(key),
{
    let keys = entry_keys(entries);
    if has_key(entries, key) {
        let i = choose|i: int| 0 <= i < entries.len() && (#[trigger] entries[i]).0 == key;
        assert(keys[i] == key);
    }
    if keys.contains(key) {
        let i = choose|i: int| 0 <= i < keys.len() && keys[i] == key;
        assert(entries[i].0 == key);
    }
}

/// Hands out the context for a ring size, from the cache where it is there,
/// else freshly built and then kept.
///
/// Succeeds exactly on the ring sizes that the reference string serves; the
/// context is then the one of the environment's reference string and the
/// ring size, whatever the cache held. A ring size that is not served fails
/// with `SrsCreationError` and leaves the cache as it was.
pub fn ring_context(environment: &mut CryptoEnvironment, ring_size: usize) -> (context: Result<
    RingContext,
    RingContextError,
>)
    requires
        old(environment).wf(),
    ensures
        final(environment).wf(),
        final(environment).reference() == old(environment).reference(),
        final(environment).capacity() == old(environment).capacity(),
        context is Ok <==> ring_size_supported(old(environment).reference(), ring_size),
        context is Ok ==> {
            &&& context.unwrap().reference() == old(environment).reference()
            &&& context.unwrap().ring_size() == ring_size
            &&& final(environment).cached_sizes() == touched(
                old(environment).cached_sizes(),
                ring_size,
                old(environment).capacity(),
            )
        },
        context matches Err(error) ==> {
            &&& error == RingContextError::SrsCreationError
            &&& final(environment).cached_sizes() == old(environment).cached_sizes()
        },
{
    let ghost entries = cache_entries(environment.cache);
    let ghost capacity = cache_capacity(environment.cache);
    proof {
        lemma_has_key(entries, ring_size);
        if has_key(entries, ring_size) {
            lemma_key_position(entries, ring_size);
            let position = key_position(entries, ring_size);
            assert(entry_keys(promoted(entries, position)) =~= touched(
                entry_keys(entries),
                ring_size,
                capacity,
            ));
            lemma_promoted_well_formed(entries, position);
        }
    }
    match cache_get(&mut environment.cache, ring_size) {
        Some(context) => Ok(context),
        None => {
            if ring_size > MAX_RING_SIZE {
                return Err(RingContextError::SrsCreationError);
            }
            match build_ring_context(&environment.params, ring_size) {
                Some(context) => {
                    let kept = context.clone();
                    proof {
                        let entry = (ring_size, kept.reference(), kept.ring_size());
                        lemma_admitted_well_formed(entries, entry, capacity);
                        assert(entry_keys(admitted(entries, entry, capacity)) =~= touched(
                            entry_keys(entries),
                            ring_size,
                            capacity,
                        ));
                    }
                    cache_put(&mut environment.cache, ring_size, kept);
                    Ok(context)
                },
                None => Err(RingContextError::SrsCreationError),
            }
        },
    }
}

/// Moving an entry to the front keeps the keys distinct and the entries as
/// they were.
proof fn lemma_promoted_well_formed(entries: Seq<(usize, Seq<u8>, usize)>, position: int)
    requires
        keys_distinct(entries),
        0 <= position < entries.len(),
    ensures
        keys_distinct(promoted(entries, position)),
        promoted(entries, position).len() == entries.len(),
        forall|i: int|
            0 <= i < entries.len() ==> entries.contains(#[trigger] promoted(entries, position)[i]),
{
    let after = promoted(entries, position);
    assert forall|i: int| 0 <= i < after.len() implies entries.contains(#[trigger] after[i]) by {
        if i == 0 {
            assert(after[i] == entries[position]);
        } else if i <= position {
            assert(after[i] == entries[i - 1]);
        } else {
            assert(after[i] == entries[i]);
        }
    }
    assert forall|i: int, j: int| 0 <= i < j < after.len() implies (#[trigger] after[i]).0 != (
    #[trigger] after[j]).0 by {
        let origin_i = if i == 0 {
            position
        } else if i <= position {
            i - 1
        } else {
            i
        };
        let origin_j = if j <= position {
            j - 1
        } else {
            j
        };
        assert(after[i] == entries[origin_i]);
        assert(after[j] == entries[origin_j]);
        if origin_i < origin_j {
            assert(entries[origin_i].0 != entries[origin_j].0);
        } else {
            assert(origin_j < origin_i);
            assert(entries[origin_j].0 != entries[origin_i].0);
        }
    }
}

/// Putting an entry with a new key in front keeps the keys distinct and the
/// count within the capacity.
proof fn lemma_admitted_well_formed(
    entries: Seq<(usize, Seq<u8>, usize)>,
    entry: (usize, Seq<u8>, usize),
    capacity: nat,
)
    requires
        keys_distinct(entries),
        !has_key(entries, entry.0),
        0 < capacity,
        entries.len() <= capacity,
    ensures
        keys_distinct(admitted(entries, entry, capacity)),
        admitted(entries, entry, capacity).len() <= capacity,
        forall|i: int|
            0 <= i < admitted(entries, entry, capacity).len() ==> {
                ||| (#[trigger] admitted(entries, entry, capacity)[i]) == entry
                ||| entries.contains(admitted(entries, entry, capacity)[i])
            },
{
    let after = admitted(entries, entry, capacity);
    assert forall|i: int| 0 <= i < after.len() implies {
        ||| (#[trigger] after[i]) == entry
        ||| entries.contains(after[i])
    } by {
        if i > 0 {
            assert(after[i] == entries[i - 1]);
        }
    }
    assert forall|i: int, j: int| 0 <= i < j < after.len() implies (#[trigger] after[i]).0 != (
    #[trigger] after[j]).0 by {
        assert(after[j] == entries[j - 1]);
        if i == 0 {
            assert(after[i] == entry);
        } else {
            assert(after[i] == entries[i - 1]);
            assert(entries[i - 1].0 != entries[j - 1].0);
        }
    }
}

} // verus!
