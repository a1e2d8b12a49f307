//! Rings made from a run of encoded keys.
//!
//! The keys stand side by side, 32 bytes each. A slot whose bytes are no
//! public key (zeroed, malformed, or cut short at the end of the run) is
//! filled with the padding point, so the ring keeps its size. The choice is
//! made slot by slot: what stands in one slot never depends on another.
//!
//! A ring may hold any public key but the neutral point: over a ring that
//! holds it no commitment and no proof can be made. A ring is made as it is
//! given; whoever commits to it or signs in it tests it first.

use vstd::prelude::*;
use vstd::slice::slice_subrange;
use crate::backend::all_ring_keys;
use crate::backend::padding_point;
use crate::backend::ring_keys;
use crate::backend::RingContext;
use crate::codec::is_public_key;
use crate::codec::is_ring_key;
use crate::codec::Public;
use crate::codec::PUBLIC_KEY_SIZE;
use crate::points::padding_encoding;

verus! {

/// Whether every key of a ring can stand in it: none is the neutral point.
pub fn ring_is_sound(ring: &Vec<Public>) -> (sound: bool)
    ensures
        sound == all_ring_keys(ring_keys(ring@)),
{
    let mut at: usize = 0;
    while at < ring.len()
        invariant
            at <= ring@.len(),
            forall|i: int| 0 <= i < at ==> is_ring_key(#[trigger] ring_keys(ring@)[i]),
        decreases ring@.len() - at,
    {
        if !ring[at].is_ring_member() {
            assert(!is_ring_key(ring_keys(ring@)[at as int]));
            return false;
        }
        at += 1;
    }
    true
}

/// The number of slots in a run of `len` bytes; a rest of fewer than 32
/// bytes is a slot of its own.
pub open spec fn slot_count(len: nat) -> nat {
    (len + PUBLIC_KEY_SIZE - 1) as nat / PUBLIC_KEY_SIZE as nat
}

/// Where slot `i` ends in a run of `len` bytes.
pub open spec fn slot_end(len: nat, i: int) -> int {
    if (i + 1) * PUBLIC_KEY_SIZE <= len {
        (i + 1) * PUBLIC_KEY_SIZE
    } else {
        len as int
    }
}

/// The bytes of slot `i`.
pub open spec fn key_slot(public_keys: Seq<u8>, i: int) -> Seq<u8> {
    public_keys.subrange(i * PUBLIC_KEY_SIZE, slot_end(public_keys.len(), i))
}

/// The key that stands at place `i` of the ring: the slot's own bytes where
/// they are a public key, the padding point where they are not.
pub open spec fn ring_slot(public_keys: Seq<u8>, padding: Seq<u8>, i: int) -> Seq<u8> {
    if is_public_key(key_slot(public_keys, i)) {
        key_slot(public_keys, i)
    } else {
        padding
    }
}

/// The ring that a run of encoded keys gives.
pub open spec fn padded_ring(public_keys: Seq<u8>, padding: Seq<u8>) -> Seq<Seq<u8>> {
    Seq::new(slot_count(public_keys.len()), |i: int| ring_slot(public_keys, padding, i))
}

/// The padding point of a ring context: the fixed public point that stands
/// in for a missing key in rings of the context's size.
pub fn padding_key(context: &RingContext) -> (padding: Public)
    ensures
        padding@ == padding_encoding(),
{
    Public::from_encoding(padding_point(context))
}

/// Makes a ring from a run of encoded keys, with the padding point in every
/// slot that holds no public key.
pub fn ring_from_bytes(public_keys: &[u8], padding: &Public) -> (ring: Vec<Public>)
    ensures
        ring_keys(ring@) == padded_ring(public_keys@, padding@),
        ring@.len() == slot_count(public_keys@.len()),
{
    let len = public_keys.len();
    let mut ring: Vec<Public> = Vec::new();
    let mut start: usize = 0;
    while start < len
        invariant
            len == public_keys@.len(),
            start <= len,
            start < len ==> start == ring@.len() * PUBLIC_KEY_SIZE,
            start == len ==> ring@.len() == slot_count(len as nat),
            forall|i: int|
                0 <= i < ring@.len() ==> (#[trigger] ring@[i])@ == ring_slot(
                    public_keys@,
                    padding@,
                    i,
                ),
        decreases len - start,
    {
        let end = if len - start >= PUBLIC_KEY_SIZE {
            start + PUBLIC_KEY_SIZE
        } else {
            len
        };
        let slot = slice_subrange(public_keys, start, end);
        let ghost place = ring@.len() as int;
        assert(slot@ == key_slot(public_keys@, place));
        let key = match Public::from_bytes(slot) {
            Some(key) => key,
            None => padding.clone(),
        };
        ring.push(key);
        start = end;
    }
    assert(ring_keys(ring@) =~= padded_ring(public_keys@, padding@));
    ring
}

/// Every slot of the run holds a public key, and the run ends with a whole
/// slot.
pub open spec fn all_keys_valid(public_keys: Seq<u8>) -> bool {
    &&& public_keys.len() % PUBLIC_KEY_SIZE as nat == 0
    &&& forall|i: int|
        0 <= i < slot_count(public_keys.len()) ==> is_public_key(#[trigger] key_slot(public_keys, i))
}

/// The ring of a run of keys in which every slot holds a public key: the
/// slots in their order.
pub open spec fn strict_ring(public_keys: Seq<u8>) -> Seq<Seq<u8>> {
    Seq::new(slot_count(public_keys.len()), |i: int| key_slot(public_keys, i))
}

/// Makes a ring from a run of encoded keys, with no padding: a ring comes
/// back exactly where every slot holds a public key.
pub fn ring_from_valid_keys(public_keys: &[u8]) -> (ring: Option<Vec<Public>>)
    ensures
        ring is Some <==> all_keys_valid(public_keys@),
        ring matches Some(keys) ==> {
            &&& ring_keys(keys@) == strict_ring(public_keys@)
            &&& keys@.len() == public_keys@.len() / PUBLIC_KEY_SIZE as nat
        },
{
    let len = public_keys.len();
    if len % PUBLIC_KEY_SIZE != 0 {
        return None;
    }
    let mut ring: Vec<Public> = Vec::new();
    let mut start: usize = 0;
    while start < len
        invariant
            len == public_keys@.len(),
            len % PUBLIC_KEY_SIZE == 0,
            start <= len,
            start == ring@.len() * PUBLIC_KEY_SIZE,
            forall|i: int|
                0 <= i < ring@.len() ==> {
                    &&& (#[trigger] ring@[i])@ == key_slot(public_keys@, i)
                    &&& is_public_key(key_slot(public_keys@, i))
                },
        decreases len - start,
    {
        let slot = slice_subrange(public_keys, start, start + PUBLIC_KEY_SIZE);
        let ghost place = ring@.len() as int;
        assert(slot@ == key_slot(public_keys@, place));
        match Public::from_bytes(slot) {
            Some(key) => {
                ring.push(key);
            },
            None => {
                assert(0 <= place < slot_count(len as nat));
                assert(!is_public_key(key_slot(public_keys@, place)));
                return None;
            },
        }
        start = start + PUBLIC_KEY_SIZE;
    }
    assert(ring@.len() == slot_count(len as nat));
    assert forall|i: int| 0 <= i < slot_count(len as nat) implies is_public_key(
        #[trigger] key_slot(public_keys@, i),
    ) by {
        assert(ring@[i]@ == key_slot(public_keys@, i));
    }
    assert(ring_keys(ring@) =~= strict_ring(public_keys@));
    Some(ring)
}

} // verus!
