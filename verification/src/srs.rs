//! The layout of a structured reference string and the ring sizes it serves.
//!
//! A reference string is a count of G1 points, the points themselves, a count
//! of G2 points and those points, all uncompressed. The counts are read and
//! held against the length of the string before the points are decoded, so
//! that a string that promises more than it holds is turned away at once.

use vstd::prelude::*;

verus! {

/// Length of a point count: a 64-bit integer, least significant byte first.
pub const SRS_COUNT_SIZE: usize = 8;

/// Length of an uncompressed G1 point of BLS12-381.
pub const SRS_G1_SIZE: usize = 96;

/// Length of an uncompressed G2 point of BLS12-381.
pub const SRS_G2_SIZE: usize = 192;

/// Bits of a Bandersnatch scalar.
pub const SCALAR_BITS: usize = 253;

/// Rows that a ring proof needs beside the keys and the scalar bits: three
/// for blinding and one that stays unconstrained.
pub const EXTRA_ROWS: usize = 4;

/// G2 powers that verification needs.
pub const REQUIRED_G2_POWERS: usize = 2;

/// The largest ring size for which the domain sizes fit a 32-bit word.
pub const MAX_RING_SIZE: usize = 0x3fff_feff;

/// The integer that eight bytes hold, least significant byte first.
pub open spec fn le_u64(bytes: Seq<u8>) -> nat
    recommends
        bytes.len() == 8,
{
    (bytes[0] as nat) + 0x100 * (bytes[1] as nat) + 0x1_0000 * (bytes[2] as nat) + 0x100_0000 * (
    bytes[3] as nat) + 0x1_0000_0000 * (bytes[4] as nat) + 0x100_0000_0000 * (bytes[5] as nat)
        + 0x1_0000_0000_0000 * (bytes[6] as nat) + 0x100_0000_0000_0000 * (bytes[7] as nat)
}

/// The count of G1 powers that the string announces.
pub open spec fn srs_g1_count(srs: Seq<u8>) -> nat {
    le_u64(srs.subrange(0, SRS_COUNT_SIZE as int))
}

/// Where the count of G2 powers stands.
pub open spec fn srs_g2_offset(srs: Seq<u8>) -> int {
    SRS_COUNT_SIZE + SRS_G1_SIZE * srs_g1_count(srs)
}

/// The count of G2 powers that the string announces.
pub open spec fn srs_g2_count(srs: Seq<u8>) -> nat {
    le_u64(srs.subrange(srs_g2_offset(srs), srs_g2_offset(srs) + SRS_COUNT_SIZE))
}

/// The string holds both counts and as many points as they announce.
pub open spec fn srs_framed(srs: Seq<u8>) -> bool {
    &&& srs.len() >= SRS_COUNT_SIZE
    &&& srs_g2_offset(srs) + SRS_COUNT_SIZE <= srs.len()
    &&& srs_g2_offset(srs) + SRS_COUNT_SIZE + SRS_G2_SIZE * srs_g2_count(srs) <= srs.len()
}

/// How far `power` is below `n`.
pub open spec fn shortfall(power: nat, n: nat) -> nat {
    if power < n {
        (n - power) as nat
    } else {
        0
    }
}

/// The least power of two that is at least `n`, looked for from `power` up.
pub open spec fn power_of_two_from(power: nat, n: nat) -> nat
    decreases shortfall(power, n),
{
    if 0 < power && power < n {
        power_of_two_from(2 * power, n)
    } else {
        power
    }
}

/// The least power of two that is at least `n`.
pub open spec fn next_power_of_two(n: nat) -> nat {
    power_of_two_from(1, n)
}

/// Rows of the proof's domain for a ring of `ring_size` keys.
pub open spec fn piop_domain_size(ring_size: nat) -> nat {
    next_power_of_two(ring_size + EXTRA_ROWS as nat + SCALAR_BITS as nat)
}

/// G1 powers that proving for a ring of `ring_size` keys takes.
pub open spec fn pcs_domain_size(ring_size: nat) -> nat {
    3 * piop_domain_size(ring_size) + 1
}

/// Keys that the proof's domain has room for, for a ring of `ring_size`
/// keys: the rows that neither the scalar bits nor the extra rows take. It is
/// never less than the ring size.
pub open spec fn key_room(ring_size: nat) -> int {
    piop_domain_size(ring_size) - (EXTRA_ROWS + SCALAR_BITS)
}

/// Whether a reference string serves rings of `ring_size` keys: it holds the
/// G1 powers that the size takes and two G2 powers.
pub open spec fn ring_size_supported(srs: Seq<u8>, ring_size: usize) -> bool {
    &&& ring_size <= MAX_RING_SIZE
    &&& pcs_domain_size(ring_size as nat) <= srs_g1_count(srs)
    &&& srs_g2_count(srs) >= REQUIRED_G2_POWERS
}

/// Computes the rows of the proof's domain for a ring of `ring_size` keys.
pub fn domain_rows(ring_size: usize) -> (rows: usize)
    requires
        ring_size <= MAX_RING_SIZE,
    ensures
        rows == piop_domain_size(ring_size as nat),
        rows >= ring_size + EXTRA_ROWS + SCALAR_BITS,
{
    let needed: usize = ring_size + EXTRA_ROWS + SCALAR_BITS;
    let mut power: usize = 1;
    while power < needed
        invariant
            0 < power,
            needed <= 0x4000_0000,
            power_of_two_from(power as nat, needed as nat) == next_power_of_two(needed as nat),
        decreases shortfall(power as nat, needed as nat),
    {
        power = 2 * power;
    }
    power
}

/// Computes the keys that the proof's domain has room for.
pub fn key_room_of(ring_size: usize) -> (room: usize)
    requires
        ring_size <= MAX_RING_SIZE,
    ensures
        room == key_room(ring_size as nat),
        room >= ring_size,
{
    domain_rows(ring_size) - (EXTRA_ROWS + SCALAR_BITS)
}

/// Reads a point count at `offset`.
pub fn read_count(srs: &[u8], offset: usize) -> (count: u64)
    requires
        offset + SRS_COUNT_SIZE <= srs@.len(),
    ensures
        count == le_u64(srs@.subrange(offset as int, offset + SRS_COUNT_SIZE)),
{
    let b0 = srs[offset] as u64;
    let b1 = srs[offset + 1] as u64;
    let b2 = srs[offset + 2] as u64;
    let b3 = srs[offset + 3] as u64;
    let b4 = srs[offset + 4] as u64;
    let b5 = srs[offset + 5] as u64;
    let b6 = srs[offset + 6] as u64;
    let b7 = srs[offset + 7] as u64;
    b0 + 0x100 * b1 + 0x1_0000 * b2 + 0x100_0000 * b3 + 0x1_0000_0000 * b4 + 0x100_0000_0000 * b5
        + 0x1_0000_0000_0000 * b6 + 0x100_0000_0000_0000 * b7
}

/// Reads both point counts and holds them against the string's length.
/// Gives the counts exactly when the string is framed.
pub fn frame_counts(srs: &[u8]) -> (counts: Option<(usize, usize)>)
    ensures
        counts is Some <==> srs_framed(srs@),
        counts is Some ==> {
            &&& counts.unwrap().0 == srs_g1_count(srs@)
            &&& counts.unwrap().1 == srs_g2_count(srs@)
        },
{
    let len = srs.len();
    if len < 2 * SRS_COUNT_SIZE {
        return None;
    }
    let g1_count = read_count(srs, 0);
    let g1_room = (len - 2 * SRS_COUNT_SIZE) / SRS_G1_SIZE;
    if g1_count > g1_room as u64 {
        return None;
    }
    let g1_powers = g1_count as usize;
    let g2_offset = SRS_COUNT_SIZE + SRS_G1_SIZE * g1_powers;
    let g2_count = read_count(srs, g2_offset);
    let g2_room = (len - g2_offset - SRS_COUNT_SIZE) / SRS_G2_SIZE;
    if g2_count > g2_room as u64 {
        return None;
    }
    Some((g1_powers, g2_count as usize))
}

} // verus!
