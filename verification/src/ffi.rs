//! The surface that a foreign caller reaches, in plain values.
//!
//! Each function takes the byte strings that the caller's buffers hold and
//! gives back what is to be written into the caller's buffers, or nothing:
//! at this surface every error is no more than a failure. The caller hands
//! over exactly as many bytes as each value has.

use vstd::prelude::*;
use vstd::slice::slice_subrange;
use vstd::slice::slice_to_vec;
use crate::backend::all_ring_keys;
use crate::backend::input_point_of;
use crate::points::padding_encoding;
use crate::backend::public_of_secret;
use crate::backend::ring_commitment_of;
use crate::backend::ring_keys;
use crate::backend::secret_of_seed;
use crate::codec::is_commitment;
use crate::codec::is_ring_signature;
use crate::codec::is_secret_key;
use crate::codec::serialize_key_pair;
use crate::codec::RingCommitment;
use crate::codec::Secret;
use crate::codec::COMMITMENT_SIZE;
use crate::codec::PUBLIC_KEY_SIZE;
use crate::codec::RING_SIGNATURE_SIZE;
use crate::codec::SECRET_KEY_SIZE;
use crate::commitment::commitment_verify_outcome;
use crate::commitment::Commitment;
use crate::context::ring_context;
use crate::context::touched;
use crate::context::CryptoEnvironment;
use crate::laws::law_touched_within_capacity;
use crate::ring::padded_ring;
use crate::ring::padding_key;
use crate::ring::all_keys_valid;
use crate::ring::ring_from_bytes;
use crate::ring::ring_from_valid_keys;
use crate::ring::ring_is_sound;
use crate::ring::strict_ring;
use crate::ring_prover::ietf_sign_outcome;
use crate::ring_prover::ring_sign_refusal;
use crate::ring_prover::vrf_output_of;
use crate::ring_prover::new_secret_from_seed;
use crate::ring_prover::secret_to_public;
use crate::ring_prover::Prover;
use crate::ring_verifier::ietf_verify_outcome;
use crate::ring_verifier::ring_verify_asks_context;
use crate::ring_verifier::ring_verify_outcome;
use crate::ring_verifier::Verifier;
use crate::codec::signature_output;
use crate::srs::ring_size_supported;

verus! {

/// The number of whole keys in a run of encoded keys.
pub open spec fn key_count(public_keys: Seq<u8>) -> usize {
    (public_keys.len() / PUBLIC_KEY_SIZE as nat) as usize
}

/// Makes a verifier from a run of encoded keys; a slot that holds no public
/// key gets the padding point of the ring's size.
///
/// Succeeds exactly where the run is a whole number of keys, the reference
/// string serves that number, and no key of the ring is the neutral point.
pub fn new_ring_vrf_verifier(environment: &mut CryptoEnvironment, public_keys: &[u8]) -> (verifier:
    Option<Verifier>)
    requires
        old(environment).wf(),
    ensures
        final(environment).wf(),
        final(environment).reference() == old(environment).reference(),
        final(environment).capacity() == old(environment).capacity(),
        verifier is Some <==> {
            &&& public_keys@.len() % PUBLIC_KEY_SIZE as nat == 0
            &&& ring_size_supported(old(environment).reference(), key_count(public_keys@))
            &&& all_ring_keys(padded_ring(public_keys@, padding_encoding()))
        },
        verifier matches Some(made) ==> {
            let ring = padded_ring(public_keys@, padding_encoding());
            &&& made.ring_view() == ring
            &&& made.reference() == old(environment).reference()
            &&& made.commitment_view() == ring_commitment_of(old(environment).reference(), ring)
        },
        final(environment).cached_sizes() == (if ring_size_supported(
            old(environment).reference(),
            key_count(public_keys@),
        ) {
            touched(
                old(environment).cached_sizes(),
                key_count(public_keys@),
                old(environment).capacity(),
            )
        } else {
            old(environment).cached_sizes()
        }),
{
    let num_keys = public_keys.len() / PUBLIC_KEY_SIZE;
    proof {
        environment.lemma_cached_sizes();
        law_touched_within_capacity(
            environment.cached_sizes(),
            num_keys,
            environment.capacity(),
        );
    }
    let padding = match ring_context(environment, num_keys) {
        Ok(context) => padding_key(&context),
        Err(_) => {
            return None;
        },
    };
    let ring = ring_from_bytes(public_keys, &padding);
    if ring.len() != num_keys || !ring_is_sound(&ring) {
        return None;
    }
    match Verifier::new(environment, ring) {
        Ok(verifier) => Some(verifier),
        Err(_) => None,
    }
}

/// Makes a prover from an encoded secret key, a run of encoded public keys
/// and the prover's place among them; a slot that holds no public key gets
/// the padding point.
///
/// Succeeds exactly where the secret key decodes and the reference string
/// serves the number of whole keys in the run.
pub fn new_ring_vrf_prover(
    environment: &mut CryptoEnvironment,
    secret: &[u8],
    public_keys: &[u8],
    prover_idx: usize,
) -> (prover: Option<Prover>)
    requires
        old(environment).wf(),
    ensures
        final(environment).wf(),
        final(environment).reference() == old(environment).reference(),
        final(environment).capacity() == old(environment).capacity(),
        prover is Some <==> {
            &&& is_secret_key(secret@)
            &&& ring_size_supported(old(environment).reference(), key_count(public_keys@))
        },
        prover matches Some(made) ==> {
            &&& made.secret@ == secret@
            &&& made.prover_idx == prover_idx
            &&& ring_keys(made.ring@) == padded_ring(
                public_keys@,
                padding_encoding(),
            )
        },
        final(environment).cached_sizes() == (if prover is Some {
            touched(
                old(environment).cached_sizes(),
                key_count(public_keys@),
                old(environment).capacity(),
            )
        } else {
            old(environment).cached_sizes()
        }),
{
    let secret = match Secret::from_bytes(secret) {
        Some(secret) => secret,
        None => {
            return None;
        },
    };
    let padding = match ring_context(environment, public_keys.len() / PUBLIC_KEY_SIZE) {
        Ok(context) => padding_key(&context),
        Err(_) => {
            return None;
        },
    };
    let ring = ring_from_bytes(public_keys, &padding);
    Some(Prover::new(ring, secret, prover_idx))
}

/// Signs anonymously. A signature comes back exactly where
/// `ring_sign_refusal` names no error; it is 784 bytes that decode, and
/// starts with the output point of the prover's secret key on the input
/// data.
pub fn vrf_sign(
    environment: &mut CryptoEnvironment,
    prover: &Prover,
    vrf_input_data: &[u8],
    aux_data: &[u8],
) -> (signature: Option<Vec<u8>>)
    requires
        old(environment).wf(),
    ensures
        final(environment).wf(),
        final(environment).reference() == old(environment).reference(),
        final(environment).capacity() == old(environment).capacity(),
        final(environment).cached_sizes() == (if input_point_of(vrf_input_data@) is Some
            && ring_size_supported(old(environment).reference(), prover.ring@.len() as usize) {
            touched(
                old(environment).cached_sizes(),
                prover.ring@.len() as usize,
                old(environment).capacity(),
            )
        } else {
            old(environment).cached_sizes()
        }),
        signature is Some <==> ring_sign_refusal(
            old(environment).reference(),
            ring_keys(prover.ring@),
            prover.prover_idx,
            prover.secret@,
            vrf_input_data@,
            aux_data@,
        ) is None,
        signature matches Some(bytes) ==> {
            &&& bytes@.len() == RING_SIGNATURE_SIZE
            &&& is_ring_signature(bytes@)
            &&& Some(signature_output(bytes@)) == vrf_output_of(prover.secret@, vrf_input_data@)
        },
{
    match prover.ring_vrf_sign(environment, vrf_input_data, aux_data) {
        Ok(signature) => Some(signature),
        Err(_) => None,
    }
}

/// Signs non-anonymously: the signature that `ietf_sign_outcome` gives, or
/// nothing where it gives an error.
pub fn ietf_vrf_sign(prover: &Prover, vrf_input_data: &[u8], aux_data: &[u8]) -> (signature: Option<
    Vec<u8>,
>)
    ensures
        match signature {
            Some(bytes) => ietf_sign_outcome(prover.secret@, vrf_input_data@, aux_data@) == Ok::<
                Seq<u8>,
                crate::ring_prover::ProverError,
            >(bytes@),
            None => ietf_sign_outcome(prover.secret@, vrf_input_data@, aux_data@) is Err,
        },
{
    match prover.ietf_vrf_sign(vrf_input_data, aux_data) {
        Ok(signature) => Some(signature),
        Err(_) => None,
    }
}

/// Checks an anonymous signature: the hash that `ring_verify_outcome`
/// gives, or nothing where it gives an error.
pub fn vrf_verify(
    environment: &mut CryptoEnvironment,
    verifier: &Verifier,
    vrf_input_data: &[u8],
    aux_data: &[u8],
    signature: &[u8],
) -> (hash: Option<[u8; 32]>)
    requires
        old(environment).wf(),
    ensures
        final(environment).wf(),
        final(environment).reference() == old(environment).reference(),
        final(environment).capacity() == old(environment).capacity(),
        final(environment).cached_sizes() == (if ring_verify_asks_context(
            vrf_input_data@,
            signature@,
        ) && ring_size_supported(
            old(environment).reference(),
            verifier.ring_view().len() as usize,
        ) {
            touched(
                old(environment).cached_sizes(),
                verifier.ring_view().len() as usize,
                old(environment).capacity(),
            )
        } else {
            old(environment).cached_sizes()
        }),
        match hash {
            Some(bytes) => ring_verify_outcome(
                old(environment).reference(),
                verifier.ring_view().len() as usize,
                verifier.commitment_view(),
                vrf_input_data@,
                aux_data@,
                signature@,
            ) == Ok::<Seq<u8>, crate::ring_verifier::VerifierError>(bytes@),
            None => ring_verify_outcome(
                old(environment).reference(),
                verifier.ring_view().len() as usize,
                verifier.commitment_view(),
                vrf_input_data@,
                aux_data@,
                signature@,
            ) is Err,
        },
{
    match verifier.ring_vrf_verify(environment, vrf_input_data, aux_data, signature) {
        Ok(hash) => Some(hash),
        Err(_) => None,
    }
}

/// Checks a non-anonymous signature against the key at `signer_key_index`:
/// the hash that `ietf_verify_outcome` gives, or nothing where it gives an
/// error.
pub fn ietf_vrf_verify(
    verifier: &Verifier,
    vrf_input_data: &[u8],
    aux_data: &[u8],
    signature: &[u8],
    signer_key_index: usize,
) -> (hash: Option<[u8; 32]>)
    ensures
        match hash {
            Some(bytes) => ietf_verify_outcome(
                verifier.ring_view(),
                vrf_input_data@,
                aux_data@,
                signature@,
                signer_key_index,
            ) == Ok::<Seq<u8>, crate::ring_verifier::VerifierError>(bytes@),
            None => ietf_verify_outcome(
                verifier.ring_view(),
                vrf_input_data@,
                aux_data@,
                signature@,
                signer_key_index,
            ) is Err,
        },
{
    match verifier.ietf_vrf_verify(vrf_input_data, aux_data, signature, signer_key_index) {
        Ok(hash) => Some(hash),
        Err(_) => None,
    }
}

/// The verifier's commitment, encoded: 144 bytes.
pub fn vrf_get_commitment(verifier: &Verifier) -> (commitment: Option<Vec<u8>>)
    ensures
        commitment is Some,
        commitment.unwrap()@ == verifier.commitment_view(),
        commitment.unwrap()@ == ring_commitment_of(verifier.reference(), verifier.ring_view()),
        commitment.unwrap()@.len() == COMMITMENT_SIZE,
{
    let commitment = verifier.get_commitment();
    Some(slice_to_vec(commitment.as_bytes()))
}

/// Checks an anonymous signature against an encoded commitment and a ring
/// size, with no ring of keys at hand.
///
/// A hash comes back exactly where the commitment decodes and
/// `commitment_verify_outcome` gives that hash.
pub fn vrf_verify_ring_signature_against_commitment(
    environment: &mut CryptoEnvironment,
    commitment: &[u8],
    ring_size: usize,
    vrf_input_data: &[u8],
    aux_data: &[u8],
    signature: &[u8],
) -> (hash: Option<[u8; 32]>)
    requires
        old(environment).wf(),
    ensures
        final(environment).wf(),
        final(environment).reference() == old(environment).reference(),
        final(environment).capacity() == old(environment).capacity(),
        match hash {
            Some(bytes) => {
                &&& is_commitment(commitment@)
                &&& commitment_verify_outcome(
                    old(environment).reference(),
                    ring_size,
                    commitment@,
                    vrf_input_data@,
                    aux_data@,
                    signature@,
                ) == Ok::<Seq<u8>, crate::commitment::Error>(bytes@)
            },
            None => {
                ||| !is_commitment(commitment@)
                ||| commitment_verify_outcome(
                    old(environment).reference(),
                    ring_size,
                    commitment@,
                    vrf_input_data@,
                    aux_data@,
                    signature@,
                ) is Err
            },
        },
        final(environment).cached_sizes() == (if is_commitment(commitment@)
            && ring_verify_asks_context(vrf_input_data@, signature@) && ring_size_supported(
            old(environment).reference(),
            ring_size,
        ) {
            touched(old(environment).cached_sizes(), ring_size, old(environment).capacity())
        } else {
            old(environment).cached_sizes()
        }),
{
    let commitment = match RingCommitment::from_bytes(commitment) {
        Some(commitment) => commitment,
        None => {
            return None;
        },
    };
    let verifier = Commitment::new(commitment, ring_size);
    match verifier.ring_vrf_verify(environment, vrf_input_data, aux_data, signature) {
        Ok(hash) => Some(hash),
        Err(_) => None,
    }
}

/// The key pair that a seed gives: 32 bytes of secret key, then 32 bytes of
/// public key.
pub fn create_key_pair_from_seed(seed: &[u8]) -> (pair: Option<Vec<u8>>)
    ensures
        pair is Some,
        pair.unwrap()@ == secret_of_seed(seed@) + public_of_secret(secret_of_seed(seed@)),
        pair.unwrap()@.len() == SECRET_KEY_SIZE + PUBLIC_KEY_SIZE,
{
    let secret = new_secret_from_seed(seed);
    let public_key = secret_to_public(&secret);
    serialize_key_pair(&secret, &public_key)
}

/// The padding point of a ring size, encoded: 32 bytes. There is one exactly
/// where the reference string serves the ring size.
pub fn get_padding_point(environment: &mut CryptoEnvironment, ring_size: usize) -> (point: Option<
    Vec<u8>,
>)
    requires
        old(environment).wf(),
    ensures
        final(environment).wf(),
        final(environment).reference() == old(environment).reference(),
        final(environment).capacity() == old(environment).capacity(),
        point is Some <==> ring_size_supported(old(environment).reference(), ring_size),
        point matches Some(bytes) ==> {
            &&& bytes@ == padding_encoding()
            &&& bytes@.len() == PUBLIC_KEY_SIZE
        },
        final(environment).cached_sizes() == (if point is Some {
            touched(old(environment).cached_sizes(), ring_size, old(environment).capacity())
        } else {
            old(environment).cached_sizes()
        }),
{
    let context = match ring_context(environment, ring_size) {
        Ok(context) => context,
        Err(_) => {
            return None;
        },
    };
    let padding = padding_key(&context);
    Some(slice_to_vec(padding.as_bytes()))
}

/// Whether a run of keys makes a ring to commit to: every slot holds a
/// public key, and none is the neutral point.
pub open spec fn strict_ring_sound(public_keys: Seq<u8>) -> bool {
    all_keys_valid(public_keys) && all_ring_keys(strict_ring(public_keys))
}

/// Whether signing for a run of keys gets as far as asking for the ring
/// context: every slot of the run holds a public key, the first 32 bytes of
/// the prover key are a secret key, and the input data maps to a point.
pub open spec fn signing_asks_context(
    public_keys: Seq<u8>,
    prover_key: Seq<u8>,
    vrf_input_data: Seq<u8>,
) -> bool {
    &&& all_keys_valid(public_keys)
    &&& prover_key.len() >= SECRET_KEY_SIZE
    &&& is_secret_key(prover_key.subrange(0, SECRET_KEY_SIZE as int))
    &&& input_point_of(vrf_input_data) is Some
}

/// Signs anonymously for a run of keys that must all be public keys, with
/// a prover key whose first 32 bytes are the secret key.
///
/// A signature comes back exactly where every key is one, the secret key
/// decodes and `ring_sign_refusal` names no error. It is 784 bytes that
/// decode, and starts with the output point of the secret key on the input
/// data. The context of the number of keys is asked
/// for, and becomes the most recently used one, exactly where the keys and
/// the secret key decode, the input data maps to a point and the reference
/// string serves that number; otherwise the cache stays as it was.
pub fn generate_ring_signature(
    environment: &mut CryptoEnvironment,
    public_keys: &[u8],
    vrf_input_data: &[u8],
    aux_data: &[u8],
    prover_idx: usize,
    prover_key: &[u8],
) -> (signature: Option<Vec<u8>>)
    requires
        old(environment).wf(),
    ensures
        final(environment).wf(),
        final(environment).reference() == old(environment).reference(),
        final(environment).capacity() == old(environment).capacity(),
        final(environment).cached_sizes() == (if signing_asks_context(
            public_keys@,
            prover_key@,
            vrf_input_data@,
        ) && ring_size_supported(old(environment).reference(), key_count(public_keys@)) {
            touched(
                old(environment).cached_sizes(),
                key_count(public_keys@),
                old(environment).capacity(),
            )
        } else {
            old(environment).cached_sizes()
        }),
        signature is Some <==> {
            &&& signing_asks_context(public_keys@, prover_key@, vrf_input_data@)
            &&& ring_sign_refusal(
                old(environment).reference(),
                strict_ring(public_keys@),
                prover_idx,
                prover_key@.subrange(0, SECRET_KEY_SIZE as int),
                vrf_input_data@,
                aux_data@,
            ) is None
        },
        signature matches Some(bytes) ==> {
            &&& bytes@.len() == RING_SIGNATURE_SIZE
            &&& is_ring_signature(bytes@)
            &&& Some(signature_output(bytes@)) == vrf_output_of(
                prover_key@.subrange(0, SECRET_KEY_SIZE as int),
                vrf_input_data@,
            )
        },
{
    let ring = match ring_from_valid_keys(public_keys) {
        Some(ring) => ring,
        None => {
            return None;
        },
    };
    if prover_key.len() < SECRET_KEY_SIZE {
        return None;
    }
    let secret = match Secret::from_bytes(slice_subrange(prover_key, 0, SECRET_KEY_SIZE)) {
        Some(secret) => secret,
        None => {
            return None;
        },
    };
    let prover = Prover::new(ring, secret, prover_idx);
    vrf_sign(environment, &prover, vrf_input_data, aux_data)
}

/// Verifies an anonymous signature against a run of keys that must all be
/// public keys.
///
/// A hash comes back exactly where every key is one, none is the neutral
/// point, and `ring_verify_outcome` gives that hash for the ring of the
/// keys and its commitment. The context of the number of keys is asked
/// for, and becomes the most recently used one, exactly where the keys
/// make a ring that the reference string serves.
pub fn verify_ring_signature(
    environment: &mut CryptoEnvironment,
    public_keys: &[u8],
    vrf_input_data: &[u8],
    aux_data: &[u8],
    signature: &[u8],
) -> (hash: Option<[u8; 32]>)
    requires
        old(environment).wf(),
    ensures
        final(environment).wf(),
        final(environment).reference() == old(environment).reference(),
        final(environment).capacity() == old(environment).capacity(),
        final(environment).cached_sizes() == (if strict_ring_sound(public_keys@)
            && ring_size_supported(old(environment).reference(), key_count(public_keys@)) {
            touched(
                old(environment).cached_sizes(),
                key_count(public_keys@),
                old(environment).capacity(),
            )
        } else {
            old(environment).cached_sizes()
        }),
        match hash {
            Some(bytes) => {
                &&& strict_ring_sound(public_keys@)
                &&& ring_verify_outcome(
                    old(environment).reference(),
                    key_count(public_keys@),
                    ring_commitment_of(old(environment).reference(), strict_ring(public_keys@)),
                    vrf_input_data@,
                    aux_data@,
                    signature@,
                ) == Ok::<Seq<u8>, crate::ring_verifier::VerifierError>(bytes@)
            },
            None => {
                ||| !strict_ring_sound(public_keys@)
                ||| ring_verify_outcome(
                    old(environment).reference(),
                    key_count(public_keys@),
                    ring_commitment_of(old(environment).reference(), strict_ring(public_keys@)),
                    vrf_input_data@,
                    aux_data@,
                    signature@,
                ) is Err
            },
        },
{
    let ring = match ring_from_valid_keys(public_keys) {
        Some(ring) => ring,
        None => {
            return None;
        },
    };
    if !ring_is_sound(&ring) {
        return None;
    }
    proof {
        environment.lemma_cached_sizes();
        law_touched_within_capacity(
            environment.cached_sizes(),
            key_count(public_keys@),
            environment.capacity(),
        );
    }
    let verifier = match Verifier::new(environment, ring) {
        Ok(verifier) => verifier,
        Err(_) => {
            return None;
        },
    };
    vrf_verify(environment, &verifier, vrf_input_data, aux_data, signature)
}

/// The commitment to a run of keys that must all be public keys: 144 bytes.
/// There is one exactly where every key is one, none is the neutral point,
/// and the reference string serves their number.
pub fn get_verifier_commitment(environment: &mut CryptoEnvironment, public_keys: &[u8]) -> (commitment:
    Option<Vec<u8>>)
    requires
        old(environment).wf(),
    ensures
        final(environment).wf(),
        final(environment).reference() == old(environment).reference(),
        final(environment).capacity() == old(environment).capacity(),
        commitment is Some <==> strict_ring_sound(public_keys@) && ring_size_supported(
            old(environment).reference(),
            key_count(public_keys@),
        ),
        commitment matches Some(bytes) ==> {
            &&& bytes@ == ring_commitment_of(
                old(environment).reference(),
                strict_ring(public_keys@),
            )
            &&& bytes@.len() == COMMITMENT_SIZE
        },
        final(environment).cached_sizes() == (if commitment is Some {
            touched(
                old(environment).cached_sizes(),
                key_count(public_keys@),
                old(environment).capacity(),
            )
        } else {
            old(environment).cached_sizes()
        }),
{
    let ring = match ring_from_valid_keys(public_keys) {
        Some(ring) => ring,
        None => {
            return None;
        },
    };
    if !ring_is_sound(&ring) {
        return None;
    }
    match Verifier::new(environment, ring) {
        Ok(verifier) => vrf_get_commitment(&verifier),
        Err(_) => None,
    }
}

} // verus!
