//! The sums that an anonymous proof runs through, and the test that none of
//! them is the neutral point.
//!
//! The prover of a ring proof adds up points in a fixed order. It starts
//! from the accumulator base and adds the point that stands at the signer's
//! position. Then it goes through the bits of the blinding scalar, from the
//! lowest up, with the blinding base at hand: where a bit is set it adds the
//! point at hand to the sum, and after every bit it doubles the point at
//! hand. The curve library cannot lay out a sum that is the neutral point,
//! so signing walks through the same sums first.

use vstd::prelude::*;
use vstd::slice::slice_to_vec;
use crate::backend::point_add;
use crate::backend::point_sum_of;
use crate::codec::is_point;
use crate::codec::point_decodes;
use crate::codec::point_is_neutral;
use crate::codec::point_neutral;
use crate::codec::SECRET_KEY_SIZE;
use crate::points::accumulator_base;
use crate::points::accumulator_base_encoding;
use crate::points::blinding_base;
use crate::points::blinding_base_encoding;
use crate::srs::SCALAR_BITS;

verus! {

/// The point that stands at a position of the key column: the ring's key
/// there, or the padding point past the ring's end.
pub open spec fn prover_slot(keys: Seq<Seq<u8>>, position: int, padding: Seq<u8>) -> Seq<u8> {
    if 0 <= position < keys.len() {
        keys[position]
    } else {
        padding
    }
}

/// Two to the power `bits`, for the bits of one byte.
pub open spec fn byte_modulus(bits: int) -> int {
    if bits <= 0 {
        1
    } else if bits == 1 {
        2
    } else if bits == 2 {
        4
    } else if bits == 3 {
        8
    } else if bits == 4 {
        16
    } else if bits == 5 {
        32
    } else if bits == 6 {
        64
    } else {
        128
    }
}

/// Whether a bit of a scalar is set. The scalar is encoded least
/// significant byte first, and bit 0 is the lowest bit of the first byte.
pub open spec fn bit_is_set(scalar: Seq<u8>, bit: int) -> bool {
    (scalar[bit / 8] as int / byte_modulus(bit % 8)) % 2 == 1
}

/// The sum after a bit of the blinding scalar: the point at hand is added
/// where the bit is set.
pub open spec fn sum_after_bit(sum: Seq<u8>, at_hand: Seq<u8>, blinding: Seq<u8>, bit: int) -> Seq<
    u8,
> {
    if bit_is_set(blinding, bit) {
        point_sum_of(sum, at_hand)
    } else {
        sum
    }
}

/// None of the sums from `bit` on is the neutral point, for the sum so far
/// and the point at hand.
pub open spec fn sums_clear_from(sum: Seq<u8>, at_hand: Seq<u8>, blinding: Seq<u8>, bit: int) -> bool
    decreases SCALAR_BITS - bit,
{
    if bit >= SCALAR_BITS {
        true
    } else {
        &&& !point_is_neutral(sum_after_bit(sum, at_hand, blinding, bit))
        &&& sums_clear_from(
            sum_after_bit(sum, at_hand, blinding, bit),
            point_sum_of(at_hand, at_hand),
            blinding,
            bit + 1,
        )
    }
}

/// None of the prover's sums is the neutral point: not the one after the
/// point alone, and not one after any bit of the blinding scalar.
pub open spec fn accumulation_clear(point: Seq<u8>, blinding: Seq<u8>) -> bool {
    &&& is_point(accumulator_base_encoding())
    &&& is_point(blinding_base_encoding())
    &&& !point_is_neutral(point_sum_of(accumulator_base_encoding(), point))
    &&& sums_clear_from(
        point_sum_of(accumulator_base_encoding(), point),
        blinding_base_encoding(),
        blinding,
        0,
    )
}

/// Two to the power `bits`, for the bits of one byte.
pub fn modulus_of_bits(bits: usize) -> (modulus: u8)
    ensures
        modulus == byte_modulus(bits as int),
{
    if bits == 0 {
        1
    } else if bits == 1 {
        2
    } else if bits == 2 {
        4
    } else if bits == 3 {
        8
    } else if bits == 4 {
        16
    } else if bits == 5 {
        32
    } else if bits == 6 {
        64
    } else {
        128
    }
}

/// Reads a bit of an encoded scalar.
pub fn scalar_bit(scalar: &[u8], bit: usize) -> (set: bool)
    requires
        bit < 8 * scalar@.len(),
    ensures
        set == bit_is_set(scalar@, bit as int),
{
    (scalar[bit / 8] / modulus_of_bits(bit % 8)) % 2 == 1
}

/// Walks through every sum that the prover would run through for a point
/// and a blinding scalar, and tells whether none is the neutral point.
pub fn accumulation_is_clear(point: &[u8], blinding: &[u8]) -> (clear: bool)
    requires
        is_point(point@),
        blinding@.len() == SECRET_KEY_SIZE,
    ensures
        clear == accumulation_clear(point@, blinding@),
{
    let base = accumulator_base();
    let blinding_base = blinding_base();
    if !point_decodes(base.as_slice()) || !point_decodes(blinding_base.as_slice()) {
        return false;
    }
    let mut sum = point_add(base.as_slice(), point);
    if point_neutral(sum.as_slice()) {
        return false;
    }
    let mut at_hand = slice_to_vec(blinding_base.as_slice());
    let mut bit: usize = 0;
    while bit < SCALAR_BITS
        invariant
            bit <= SCALAR_BITS,
            blinding@.len() == SECRET_KEY_SIZE,
            is_point(sum@),
            is_point(at_hand@),
            !point_is_neutral(sum@),
            accumulation_clear(point@, blinding@) == sums_clear_from(
                sum@,
                at_hand@,
                blinding@,
                bit as int,
            ),
        decreases SCALAR_BITS - bit,
    {
        if scalar_bit(blinding, bit) {
            sum = point_add(sum.as_slice(), at_hand.as_slice());
            if point_neutral(sum.as_slice()) {
                return false;
            }
        }
        at_hand = point_add(at_hand.as_slice(), at_hand.as_slice());
        bit += 1;
    }
    true
}

} // verus!
