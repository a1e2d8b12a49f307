//! The prover: one signer's secret key, the ring it signs in, and the
//! signer's place in that ring.
//!
//! Both kinds of signature start with the same output point, which depends on
//! the secret key and the input data alone. They differ in the proof that
//! follows it: one names the signer, the other only the ring.

use vstd::prelude::*;
use vstd::slice::slice_to_vec;
use crate::accumulator::accumulation_clear;
use crate::accumulator::accumulation_is_clear;
use crate::accumulator::prover_slot;
use crate::backend::all_ring_keys;
use crate::backend::blinding_of;
use crate::backend::ietf_proof_of;
use crate::backend::ietf_prove;
use crate::backend::input_point_of;
use crate::backend::output_point_of;
use crate::backend::padding_point;
use crate::points::padding_encoding;
use crate::backend::public_from_secret;
use crate::backend::public_of_secret;
use crate::backend::ring_blinding;
use crate::backend::ring_keys;
use crate::backend::ring_prove;
use crate::backend::secret_from_seed;
use crate::backend::secret_of_seed;
use crate::backend::vrf_output;
use crate::codec::ietf_signature_proof;
use crate::codec::is_ietf_signature;
use crate::codec::is_ring_signature;
use crate::codec::ring_signature_proof;
use crate::codec::signature_output;
use crate::codec::vrf_input_point;
use crate::codec::Public;
use crate::codec::Secret;
use crate::codec::IETF_PROOF_SIZE;
use crate::codec::IETF_SIGNATURE_SIZE;
use crate::codec::POINT_SIZE;
use crate::codec::RING_PROOF_SIZE;
use crate::codec::RING_SIGNATURE_SIZE;
use crate::context::ring_context;
use crate::context::touched;
use crate::context::CryptoEnvironment;
use crate::context::RingContextError;
use crate::ring::ring_is_sound;
use crate::srs::key_room;
use crate::srs::key_room_of;
use crate::srs::ring_size_supported;

verus! {

/// Why no signature was made.
#[derive(Debug, Clone, Copy, PartialEq, Eq)]
pub enum ProverError {
    /// The signature that was made could not be encoded.
    SerializationError,
    /// No proof can be made from the prover's place in the ring: the ring
    /// holds the neutral point, the index is past the room that the proof
    /// has for keys, or the point that stands at the index cancels a sum of
    /// the proof.
    InvalidProverIndex,
    /// No ring context could be had for the ring size.
    RingContextError(RingContextError),
    /// The input data maps to no curve point.
    VrfInputPointError,
}

impl ProverError {
    /// The error in words. An error of the ring context speaks for itself.
    pub open spec fn text(&self) -> Seq<char> {
        match *self {
            ProverError::SerializationError => "Failed to serialize signature"@,
            ProverError::InvalidProverIndex => "Invalid prover index"@,
            ProverError::RingContextError(inner) => inner.text(),
            ProverError::VrfInputPointError => "Invalid VRF input point"@,
        }
    }

    /// The error in words.
    pub fn message(&self) -> (text: &'static str)
        ensures
            text@ == self.text(),
    {
        match self {
            ProverError::SerializationError => "Failed to serialize signature",
            ProverError::InvalidProverIndex => "Invalid prover index",
            ProverError::RingContextError(inner) => inner.message(),
            ProverError::VrfInputPointError => "Invalid VRF input point",
        }
    }
}

/// The output point of a secret key on input data, where the data maps to a
/// point. It does not depend on auxiliary data, nor on the kind of proof.
pub open spec fn vrf_output_of(secret: Seq<u8>, vrf_input_data: Seq<u8>) -> Option<Seq<u8>> {
    match input_point_of(vrf_input_data) {
        Some(input) => Some(output_point_of(secret, input)),
        None => None,
    }
}

/// A signature put together from an output of 32 bytes and a proof of
/// `proof_size` bytes; an encoding error where a part has another length.
pub open spec fn framed_signature(output: Seq<u8>, proof: Seq<u8>, proof_size: usize) -> Result<
    Seq<u8>,
    ProverError,
> {
    if output.len() == POINT_SIZE && proof.len() == proof_size {
        Ok(output + proof)
    } else {
        Err(ProverError::SerializationError)
    }
}

/// What signing non-anonymously gives: the output point followed by the
/// proof, 96 bytes. It fails where the input data maps to no point. The
/// parts that the curve library makes for a secret key have their lengths,
/// so with a secret key it fails nowhere else.
pub open spec fn ietf_sign_outcome(secret: Seq<u8>, vrf_input_data: Seq<u8>, aux_data: Seq<u8>)
    -> Result<Seq<u8>, ProverError> {
    match input_point_of(vrf_input_data) {
        None => Err(ProverError::VrfInputPointError),
        Some(input) => {
            let output = output_point_of(secret, input);
            framed_signature(
                output,
                ietf_proof_of(secret, input, output, aux_data),
                IETF_PROOF_SIZE,
            )
        },
    }
}

/// Whether a proof can be made at a position of a ring: no key of the ring
/// is the neutral point, the position is within the room that the proof
/// has for keys, and none of the sums that the prover runs through, from
/// the point that stands there, is the neutral point. A position past the
/// ring's end stands on the padding point.
pub open spec fn position_provable(
    keys: Seq<Seq<u8>>,
    prover_idx: usize,
    secret: Seq<u8>,
    input: Seq<u8>,
    aux_data: Seq<u8>,
) -> bool {
    &&& all_ring_keys(keys)
    &&& prover_idx < key_room(keys.len())
    &&& accumulation_clear(
        prover_slot(keys, prover_idx as int, padding_encoding()),
        blinding_of(secret, input, aux_data),
    )
}

/// The error that signing anonymously ends with, if any: the input data
/// maps to no point, the reference string does not serve the ring's size,
/// or no proof can be made from the prover's place in the ring, in this
/// order. Where it names none, a signature is made.
pub open spec fn ring_sign_refusal(
    srs: Seq<u8>,
    keys: Seq<Seq<u8>>,
    prover_idx: usize,
    secret: Seq<u8>,
    vrf_input_data: Seq<u8>,
    aux_data: Seq<u8>,
) -> Option<ProverError> {
    match input_point_of(vrf_input_data) {
        None => Some(ProverError::VrfInputPointError),
        Some(input) => {
            if !ring_size_supported(srs, keys.len() as usize) {
                Some(ProverError::RingContextError(RingContextError::SrsCreationError))
            } else if !position_provable(keys, prover_idx, secret, input, aux_data) {
                Some(ProverError::InvalidProverIndex)
            } else {
                None
            }
        },
    }
}

/// Puts a signature together: the output point, then the proof.
///
/// Succeeds exactly where the output is 32 bytes and the proof is
/// `proof_size` bytes long; the signature is then the two joined.
pub fn signature_from_parts(output: &[u8], proof: &[u8], proof_size: usize) -> (signature: Result<
    Vec<u8>,
    ProverError,
>)
    ensures
        match signature {
            Ok(bytes) => framed_signature(output@, proof@, proof_size) == Ok::<
                Seq<u8>,
                ProverError,
            >(bytes@),
            Err(error) => framed_signature(output@, proof@, proof_size) == Err::<
                Seq<u8>,
                ProverError,
            >(error),
        },
{
    if output.len() != POINT_SIZE || proof.len() != proof_size {
        return Err(ProverError::SerializationError);
    }
    let mut signature = slice_to_vec(output);
    signature.extend_from_slice(proof);
    assert(signature@ =~= output@ + proof@);
    Ok(signature)
}

/// Signs for one member of a ring.
pub struct Prover {
    /// The prover's secret key.
    pub secret: Secret,
    /// The ring of public keys.
    pub ring: Vec<Public>,
    /// The place of the prover's public key in the ring.
    pub prover_idx: usize,
}

impl Prover {
    /// Makes a prover. Nothing is checked: a secret key that does not belong
    /// to the key at `prover_idx`, or an index past the ring's end, gives
    /// signatures that no verifier accepts.
    pub fn new(ring: Vec<Public>, prover_secret: Secret, prover_idx: usize) -> (prover: Prover)
        ensures
            prover.ring == ring,
            prover.secret == prover_secret,
            prover.prover_idx == prover_idx,
    {
        Prover { prover_idx, secret: prover_secret, ring }
    }

    /// Signs non-anonymously: the output point of the secret key on the
    /// input data, then a proof that names the signer and binds the
    /// auxiliary data. The result is `ietf_sign_outcome` of the secret key
    /// and the arguments; the same arguments give the same signature. A
    /// signature comes back exactly where the input data maps to a point;
    /// it is 96 bytes that decode.
    pub fn ietf_vrf_sign(&self, vrf_input_data: &[u8], aux_data: &[u8]) -> (signature: Result<
        Vec<u8>,
        ProverError,
    >)
        ensures
            signature is Ok <==> input_point_of(vrf_input_data@) is Some,
            signature matches Ok(bytes) ==> bytes@.len() == IETF_SIGNATURE_SIZE
                && is_ietf_signature(bytes@),
            match signature {
                Ok(bytes) => ietf_sign_outcome(self.secret@, vrf_input_data@, aux_data@) == Ok::<
                    Seq<u8>,
                    ProverError,
                >(bytes@),
                Err(error) => ietf_sign_outcome(self.secret@, vrf_input_data@, aux_data@) == Err::<
                    Seq<u8>,
                    ProverError,
                >(error),
            },
    {
        let input = match vrf_input_point(vrf_input_data) {
            Some(input) => input,
            None => {
                return Err(ProverError::VrfInputPointError);
            },
        };
        let secret = self.secret.as_bytes();
        let output = vrf_output(secret, input.as_bytes());
        let proof = ietf_prove(secret, input.as_bytes(), output.as_slice(), aux_data);
        let signature = signature_from_parts(output.as_slice(), proof.as_slice(), IETF_PROOF_SIZE);
        proof {
            let bytes = output@ + proof@;
            assert(signature_output(bytes) =~= output@);
            assert(ietf_signature_proof(bytes) =~= proof@);
        }
        signature
    }

    /// Signs anonymously: the output point of the secret key on the input
    /// data, then a proof that some member of the ring derived it, bound to
    /// the auxiliary data.
    ///
    /// Where `ring_sign_refusal` names an error, that error is returned and
    /// no proof is made. Everywhere else a signature comes back. Its proof
    /// is made with fresh randomness, so its bytes are not named: it is 784
    /// bytes that decode, and it starts with the output point.
    pub fn ring_vrf_sign(
        &self,
        environment: &mut CryptoEnvironment,
        vrf_input_data: &[u8],
        aux_data: &[u8],
    ) -> (signature: Result<Vec<u8>, ProverError>)
        requires
            old(environment).wf(),
        ensures
            final(environment).wf(),
            final(environment).reference() == old(environment).reference(),
            final(environment).capacity() == old(environment).capacity(),
            final(environment).cached_sizes() == (if input_point_of(vrf_input_data@) is Some
                && ring_size_supported(old(environment).reference(), self.ring@.len() as usize) {
                touched(
                    old(environment).cached_sizes(),
                    self.ring@.len() as usize,
                    old(environment).capacity(),
                )
            } else {
                old(environment).cached_sizes()
            }),
            match ring_sign_refusal(
                old(environment).reference(),
                ring_keys(self.ring@),
                self.prover_idx,
                self.secret@,
                vrf_input_data@,
                aux_data@,
            ) {
                Some(refusal) => signature == Err::<Vec<u8>, ProverError>(refusal),
                None => {
                    &&& signature is Ok
                    &&& signature.unwrap()@.len() == RING_SIGNATURE_SIZE
                    &&& is_ring_signature(signature.unwrap()@)
                    &&& Some(signature_output(signature.unwrap()@)) == vrf_output_of(
                        self.secret@,
                        vrf_input_data@,
                    )
                },
            },
    {
        let input = match vrf_input_point(vrf_input_data) {
            Some(input) => input,
            None => {
                return Err(ProverError::VrfInputPointError);
            },
        };
        let secret = self.secret.as_bytes();
        let output = vrf_output(secret, input.as_bytes());
        let context = match ring_context(environment, self.ring.len()) {
            Ok(context) => context,
            Err(error) => {
                return Err(ProverError::RingContextError(error));
            },
        };
        if !ring_is_sound(&self.ring) {
            return Err(ProverError::InvalidProverIndex);
        }
        if self.prover_idx >= key_room_of(self.ring.len()) {
            return Err(ProverError::InvalidProverIndex);
        }
        let padding = padding_point(&context);
        let blinding = ring_blinding(secret, input.as_bytes(), aux_data);
        let clear = if self.prover_idx < self.ring.len() {
            accumulation_is_clear(self.ring[self.prover_idx].as_bytes(), blinding.as_slice())
        } else {
            accumulation_is_clear(padding.as_slice(), blinding.as_slice())
        };
        if !clear {
            return Err(ProverError::InvalidProverIndex);
        }
        let proof = ring_prove(
            &context,
            &self.ring,
            self.prover_idx,
            secret,
            input.as_bytes(),
            output.as_slice(),
            aux_data,
        );
        let signature = signature_from_parts(output.as_slice(), proof.as_slice(), RING_PROOF_SIZE);
        proof {
            let bytes = output@ + proof@;
            assert(signature_output(bytes) =~= output@);
            assert(ring_signature_proof(bytes) =~= proof@);
        }
        signature
    }
}

/// Derives a secret key from seed bytes: `secret_of_seed` of the seed. The
/// same seed always gives the same key.
pub fn new_secret_from_seed(seed: &[u8]) -> (secret: Secret)
    ensures
        secret@ == secret_of_seed(seed@),
{
    Secret::from_encoding(secret_from_seed(seed))
}

/// Derives the public key of a secret key: `public_of_secret` of the key.
pub fn secret_to_public(secret: &Secret) -> (public_key: Public)
    ensures
        public_key@ == public_of_secret(secret@),
{
    let bytes = secret.as_bytes();
    Public::from_encoding(public_from_secret(bytes))
}

} // verus!
