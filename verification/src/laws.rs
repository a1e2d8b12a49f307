//! What holds of the library as a whole, proved from the contracts of its
//! functions.

use vstd::prelude::*;
use crate::backend::input_point_of;
use crate::backend::output_hash_of;
use crate::backend::output_point_of;
use crate::backend::ring_commitment_of;
use crate::codec::is_public_key;
use crate::codec::signature_output;
use crate::codec::truncated_hash;
use crate::commitment::commitment_verify_outcome;
use crate::commitment::Error;
use crate::context::touched;
use crate::ring::key_slot;
use crate::ring::padded_ring;
use crate::ring::ring_slot;
use crate::ring::slot_count;
use crate::ring_prover::ietf_sign_outcome;
use crate::ring_prover::vrf_output_of;
use crate::ring_verifier::ietf_verify_outcome;
use crate::ring_verifier::ring_verify_outcome;
use crate::ring_verifier::VerifierError;
use crate::srs::key_room;
use crate::srs::pcs_domain_size;
use crate::srs::piop_domain_size;
use crate::srs::power_of_two_from;
use crate::srs::ring_size_supported;
use crate::srs::shortfall;
use crate::srs::srs_g1_count;
use crate::srs::srs_g2_count;
use crate::srs::REQUIRED_G2_POWERS;

verus! {

/// The hash that verifying a signature hands out where it accepts: the
/// first 32 bytes of the hash of the signature's output point.
pub open spec fn signature_hash(signature: Seq<u8>) -> Seq<u8> {
    truncated_hash(output_hash_of(signature_output(signature)))
}

/// The error of the verifier with keys, as the verifier without keys names
/// it.
pub open spec fn as_commitment_error(error: VerifierError) -> Error {
    match error {
        VerifierError::DeserializationError => Error::DeserializationError,
        VerifierError::VrfInputPointError => Error::VrfInputPointError,
        VerifierError::RingContextError(inner) => Error::RingContextError(inner),
        VerifierError::VerificationFailed => Error::SignatureVerificationFailed,
        VerifierError::InvalidSignerKeyIndex => Error::SignatureVerificationFailed,
    }
}

/// A non-anonymous signature starts with the output point of the secret key
/// on the input data, whatever the auxiliary data: two signatures over the
/// same input carry the same output point and so the same hash.
pub proof fn law_ietf_output_ignores_aux(
    secret: Seq<u8>,
    vrf_input_data: Seq<u8>,
    aux_one: Seq<u8>,
    aux_two: Seq<u8>,
)
    requires
        ietf_sign_outcome(secret, vrf_input_data, aux_one) is Ok,
        ietf_sign_outcome(secret, vrf_input_data, aux_two) is Ok,
    ensures
        Some(signature_output(ietf_sign_outcome(secret, vrf_input_data, aux_one)->Ok_0))
            == vrf_output_of(secret, vrf_input_data),
        signature_output(ietf_sign_outcome(secret, vrf_input_data, aux_one)->Ok_0)
            == signature_output(ietf_sign_outcome(secret, vrf_input_data, aux_two)->Ok_0),
        signature_hash(ietf_sign_outcome(secret, vrf_input_data, aux_one)->Ok_0) == signature_hash(
            ietf_sign_outcome(secret, vrf_input_data, aux_two)->Ok_0,
        ),
{
    let input = input_point_of(vrf_input_data).unwrap();
    let output = output_point_of(secret, input);
    let one = ietf_sign_outcome(secret, vrf_input_data, aux_one)->Ok_0;
    let two = ietf_sign_outcome(secret, vrf_input_data, aux_two)->Ok_0;
    assert(signature_output(one) =~= output);
    assert(signature_output(two) =~= output);
}

/// An anonymous and a non-anonymous signature of one secret key over the
/// same input data carry the same output point, so verifying either hands
/// out the same hash, whatever auxiliary data each was bound to.
pub proof fn law_modes_share_output(
    secret: Seq<u8>,
    vrf_input_data: Seq<u8>,
    ietf_aux: Seq<u8>,
    ring_signature: Seq<u8>,
)
    requires
        ietf_sign_outcome(secret, vrf_input_data, ietf_aux) is Ok,
        Some(signature_output(ring_signature)) == vrf_output_of(secret, vrf_input_data),
    ensures
        signature_hash(ring_signature) == signature_hash(
            ietf_sign_outcome(secret, vrf_input_data, ietf_aux)->Ok_0,
        ),
{
    law_ietf_output_ignores_aux(secret, vrf_input_data, ietf_aux, ietf_aux);
}

/// Two anonymous signatures of one secret key over the same input data
/// carry the same output point, whatever their proofs and the auxiliary data
/// they were bound to: where a verifier accepts both, it hands out the same
/// hash for both.
pub proof fn law_ring_signatures_share_hash(
    srs: Seq<u8>,
    ring_size: usize,
    commitment: Seq<u8>,
    secret: Seq<u8>,
    vrf_input_data: Seq<u8>,
    aux_one: Seq<u8>,
    aux_two: Seq<u8>,
    one: Seq<u8>,
    two: Seq<u8>,
)
    requires
        Some(signature_output(one)) == vrf_output_of(secret, vrf_input_data),
        Some(signature_output(two)) == vrf_output_of(secret, vrf_input_data),
    ensures
        signature_output(one) == signature_output(two),
        signature_hash(one) == signature_hash(two),
        ring_verify_outcome(srs, ring_size, commitment, vrf_input_data, aux_one, one) is Ok
            && ring_verify_outcome(srs, ring_size, commitment, vrf_input_data, aux_two, two) is Ok
            ==> ring_verify_outcome(srs, ring_size, commitment, vrf_input_data, aux_one, one)
            == ring_verify_outcome(srs, ring_size, commitment, vrf_input_data, aux_two, two),
{
}

/// Where a verifier accepts a signature that carries the output point of a
/// secret key on the input data, the hash it hands out is the one derived
/// directly from the secret key and the input data.
pub proof fn law_accepted_hash_is_derived(
    srs: Seq<u8>,
    ring_size: usize,
    commitment: Seq<u8>,
    secret: Seq<u8>,
    vrf_input_data: Seq<u8>,
    aux_data: Seq<u8>,
    signature: Seq<u8>,
)
    requires
        Some(signature_output(signature)) == vrf_output_of(secret, vrf_input_data),
        ring_verify_outcome(srs, ring_size, commitment, vrf_input_data, aux_data, signature) is Ok,
    ensures
        ring_verify_outcome(srs, ring_size, commitment, vrf_input_data, aux_data, signature)
            == Ok::<Seq<u8>, VerifierError>(
            truncated_hash(
                output_hash_of(
                    output_point_of(secret, input_point_of(vrf_input_data).unwrap()),
                ),
            ),
        ),
{
}

/// A non-anonymous signature that a verifier accepts gives the hash derived
/// directly from the secret key and the input data, too.
pub proof fn law_accepted_ietf_hash_is_derived(
    ring: Seq<Seq<u8>>,
    secret: Seq<u8>,
    vrf_input_data: Seq<u8>,
    aux_data: Seq<u8>,
    signature: Seq<u8>,
    signer_key_index: usize,
)
    requires
        Some(signature_output(signature)) == vrf_output_of(secret, vrf_input_data),
        ietf_verify_outcome(ring, vrf_input_data, aux_data, signature, signer_key_index) is Ok,
    ensures
        ietf_verify_outcome(ring, vrf_input_data, aux_data, signature, signer_key_index) == Ok::<
            Seq<u8>,
            VerifierError,
        >(
            truncated_hash(
                output_hash_of(
                    output_point_of(secret, input_point_of(vrf_input_data).unwrap()),
                ),
            ),
        ),
{
}

/// The verifier that holds a ring and the verifier that holds only the
/// ring's commitment and size agree on every input: both accept with the
/// same hash, or both refuse with the same kind of error.
pub proof fn law_commitment_equivalence(
    srs: Seq<u8>,
    ring: Seq<Seq<u8>>,
    vrf_input_data: Seq<u8>,
    aux_data: Seq<u8>,
    signature: Seq<u8>,
)
    requires
        ring.len() <= usize::MAX,
    ensures
        commitment_verify_outcome(
            srs,
            ring.len() as usize,
            ring_commitment_of(srs, ring),
            vrf_input_data,
            aux_data,
            signature,
        ) == (match ring_verify_outcome(
            srs,
            ring.len() as usize,
            ring_commitment_of(srs, ring),
            vrf_input_data,
            aux_data,
            signature,
        ) {
            Ok(hash) => Ok::<Seq<u8>, Error>(hash),
            Err(error) => Err::<Seq<u8>, Error>(as_commitment_error(error)),
        }),
{
}

/// What stands in a slot of a ring depends on that slot's bytes alone: the
/// bytes themselves where they are a public key, the padding point where
/// they are not.
pub proof fn law_padding_is_slotwise(public_keys: Seq<u8>, padding: Seq<u8>, i: int)
    requires
        0 <= i < slot_count(public_keys.len()),
    ensures
        padded_ring(public_keys, padding).len() == slot_count(public_keys.len()),
        padded_ring(public_keys, padding)[i] == (if is_public_key(key_slot(public_keys, i)) {
            key_slot(public_keys, i)
        } else {
            padding
        }),
{
}

/// Two runs of keys of one length that hold the same key wherever either
/// holds a key, and no key elsewhere, give the same ring and so the same
/// commitment: the padding is put in the same slots on both sides.
pub proof fn law_same_padding_same_commitment(
    srs: Seq<u8>,
    one: Seq<u8>,
    other: Seq<u8>,
    padding: Seq<u8>,
)
    requires
        one.len() == other.len(),
        forall|i: int|
            0 <= i < slot_count(one.len()) ==> {
                ||| #[trigger] key_slot(one, i) == key_slot(other, i)
                ||| (!is_public_key(key_slot(one, i)) && !is_public_key(key_slot(other, i)))
            },
    ensures
        padded_ring(one, padding) == padded_ring(other, padding),
        ring_commitment_of(srs, padded_ring(one, padding)) == ring_commitment_of(
            srs,
            padded_ring(other, padding),
        ),
{
    assert forall|i: int| 0 <= i < slot_count(one.len()) implies ring_slot(one, padding, i)
        == ring_slot(other, padding, i) by {
        assert(key_slot(one, i) == key_slot(other, i) || (!is_public_key(key_slot(one, i))
            && !is_public_key(key_slot(other, i))));
    }
    assert(padded_ring(one, padding) =~= padded_ring(other, padding));
}

/// Two runs of keys give different rings as soon as one slot differs in
/// what stands there after padding: a key in a slot of one and the padding
/// point in the same slot of the other, say.
pub proof fn law_different_slot_different_ring(
    one: Seq<u8>,
    other: Seq<u8>,
    padding: Seq<u8>,
    i: int,
)
    requires
        one.len() == other.len(),
        0 <= i < slot_count(one.len()),
        ring_slot(one, padding, i) != ring_slot(other, padding, i),
    ensures
        padded_ring(one, padding) != padded_ring(other, padding),
{
    assert(padded_ring(one, padding)[i] == ring_slot(one, padding, i));
    assert(padded_ring(other, padding)[i] == ring_slot(other, padding, i));
}

/// After a ring size was asked for it is the most recently used one, the
/// cache is within its capacity, and no other size has moved relative to
/// the others.
pub proof fn law_touched_within_capacity(sizes: Seq<usize>, ring_size: usize, capacity: nat)
    requires
        0 < capacity,
        sizes.len() <= capacity,
        sizes.no_duplicates(),
    ensures
        touched(sizes, ring_size, capacity).len() <= capacity,
        touched(sizes, ring_size, capacity)[0] == ring_size,
        touched(sizes, ring_size, capacity).no_duplicates(),
        touched(touched(sizes, ring_size, capacity), ring_size, capacity) == touched(
            sizes,
            ring_size,
            capacity,
        ),
{
    let after = touched(sizes, ring_size, capacity);
    if sizes.contains(ring_size) {
        let place = sizes.index_of(ring_size);
        let rest = sizes.remove(place);
        assert forall|i: int, j: int| 0 <= i < j < after.len() implies after[i] != after[j] by {
            let origin_j = if j - 1 < place {
                j - 1
            } else {
                j
            };
            assert(after[j] == sizes[origin_j]);
            if i == 0 {
                assert(origin_j != place);
            } else {
                let origin_i = if i - 1 < place {
                    i - 1
                } else {
                    i
                };
                assert(after[i] == sizes[origin_i]);
            }
        }
    } else {
        assert forall|i: int, j: int| 0 <= i < j < after.len() implies after[i] != after[j] by {
            assert(after[j] == sizes[j - 1]);
            if i > 0 {
                assert(after[i] == sizes[i - 1]);
            }
        }
    }
    assert(after[0] == ring_size);
    assert(after.contains(ring_size));
    assert(after.index_of(ring_size) == 0) by {
        let place = after.index_of(ring_size);
        if place != 0 {
            assert(after[0] != after[place]);
        }
    }
    assert(after.remove(0) =~= after.subrange(1, after.len() as int));
    assert(seq![ring_size] + after.remove(0) =~= after);
}

/// The search for a power of two never ends below where it started, nor
/// below what was asked for.
pub proof fn lemma_power_of_two_from_reaches(power: nat, n: nat)
    requires
        0 < power,
    ensures
        power_of_two_from(power, n) >= power,
        power_of_two_from(power, n) >= n,
    decreases shortfall(power, n),
{
    if power < n {
        lemma_power_of_two_from_reaches(2 * power, n);
    }
}

/// Asking for more never gives a smaller power of two.
pub proof fn lemma_power_of_two_from_monotone(power: nat, low: nat, high: nat)
    requires
        0 < power,
        low <= high,
    ensures
        power_of_two_from(power, low) <= power_of_two_from(power, high),
    decreases shortfall(power, high),
{
    if power < low {
        lemma_power_of_two_from_monotone(2 * power, low, high);
    } else if power < high {
        lemma_power_of_two_from_reaches(2 * power, high);
    }
}

/// The proof has room for every key of the ring: a prover whose index names
/// a key of the ring is never turned away for its place.
pub proof fn law_ring_fits_the_room(ring_size: nat, prover_idx: nat)
    requires
        prover_idx < ring_size,
    ensures
        prover_idx < key_room(ring_size),
{
    lemma_power_of_two_from_reaches(1, ring_size + 257);
}

/// A reference string that serves a ring size serves every smaller one.
pub proof fn law_smaller_rings_are_served(srs: Seq<u8>, ring_size: usize, smaller: usize)
    requires
        ring_size_supported(srs, ring_size),
        smaller <= ring_size,
    ensures
        ring_size_supported(srs, smaller),
{
    lemma_power_of_two_from_monotone(1, (smaller + 257) as nat, (ring_size + 257) as nat);
}

/// A ring size is refused as soon as its domain takes more G1 powers than
/// the reference string holds, and so is every larger one: nothing is cut
/// down to fit.
pub proof fn law_larger_rings_are_refused(srs: Seq<u8>, ring_size: usize, larger: usize)
    requires
        !ring_size_supported(srs, ring_size),
        ring_size <= larger,
    ensures
        !ring_size_supported(srs, larger),
{
    if ring_size_supported(srs, larger) {
        law_smaller_rings_are_served(srs, larger, ring_size);
    }
}

/// The domain of a ring of up to 255 keys has 512 rows, and a ring of 256
/// keys already takes 1024.
pub proof fn law_smallest_domain()
    ensures
        forall|ring_size: nat| ring_size <= 255 ==> #[trigger] piop_domain_size(ring_size) == 512,
        piop_domain_size(256) == 1024,
        pcs_domain_size(255) == 1537,
        pcs_domain_size(256) == 3073,
{
    reveal_with_fuel(power_of_two_from, 12);
    assert(piop_domain_size(256) == 1024);
    assert(piop_domain_size(255) == 512);
    assert forall|ring_size: nat| ring_size <= 255 implies #[trigger] piop_domain_size(ring_size)
        == 512 by {
        lemma_power_of_two_from_monotone(1, (ring_size + 257) as nat, 512);
        lemma_power_of_two_from_monotone(1, 257, (ring_size + 257) as nat);
        assert(power_of_two_from(1, 257) == 512);
        assert(power_of_two_from(1, 512) == 512);
    }
}

/// A reference string of 6145 G1 powers and two G2 powers, the size of the
/// common 2^11 setup, serves exactly the ring sizes up to 1791.
pub proof fn law_common_setup_boundary(srs: Seq<u8>, ring_size: usize)
    requires
        srs_g1_count(srs) == 6145,
        srs_g2_count(srs) >= REQUIRED_G2_POWERS,
    ensures
        ring_size_supported(srs, ring_size) <==> ring_size <= 1791,
{
    reveal_with_fuel(power_of_two_from, 14);
    assert(power_of_two_from(1, 2048) == 2048);
    assert(power_of_two_from(1, 2049) == 4096);
    if ring_size <= 1791 {
        lemma_power_of_two_from_monotone(1, (ring_size + 257) as nat, 2048);
    } else {
        lemma_power_of_two_from_monotone(1, 2049, (ring_size + 257) as nat);
    }
}

} // verus!
