//! Verification against a ring commitment alone.
//!
//! A party that was handed a commitment and the size of the ring behind it
//! can check anonymous signatures without ever holding the ring's keys.

use vstd::prelude::*;
use crate::backend::input_point_of;
use crate::backend::output_hash_of;
use crate::backend::ring_proof_accepted;
use crate::codec::is_ring_signature;
use crate::codec::ring_signature_proof;
use crate::codec::signature_output;
use crate::codec::truncated_hash;
use crate::codec::RingCommitment;
use crate::context::touched;
use crate::context::CryptoEnvironment;
use crate::context::RingContextError;
use crate::ring_verifier::ring_verify_asks_context;
use crate::ring_verifier::verify_against_commitment;
use crate::ring_verifier::VerifierError;
use crate::srs::ring_size_supported;

verus! {

/// Why a signature was not accepted.
#[derive(Debug, Clone, Copy, PartialEq, Eq)]
pub enum Error {
    /// The proof is well-formed but does not hold.
    SignatureVerificationFailed,
    /// The signature bytes do not decode.
    DeserializationError,
    /// The input data maps to no curve point.
    VrfInputPointError,
    /// No ring context could be had for the ring size.
    RingContextError(RingContextError),
}

impl Error {
    /// The error in words. An error of the ring context speaks for itself.
    pub open spec fn text(&self) -> Seq<char> {
        match *self {
            Error::SignatureVerificationFailed => "Signature verification failed"@,
            Error::DeserializationError => "Deserialization error"@,
            Error::VrfInputPointError => "Invalid VRF input point"@,
            Error::RingContextError(inner) => inner.text(),
        }
    }

    /// The error in words.
    pub fn message(&self) -> (text: &'static str)
        ensures
            text@ == self.text(),
    {
        match self {
            Error::SignatureVerificationFailed => "Signature verification failed",
            Error::DeserializationError => "Deserialization error",
            Error::VrfInputPointError => "Invalid VRF input point",
            Error::RingContextError(inner) => inner.message(),
        }
    }
}

/// What checking an anonymous signature against a commitment and a ring
/// size gives.
///
/// The checks come in this order: the signature decodes, the input data maps
/// to a point, the reference string serves the ring size, the proof holds.
/// The first that fails names the error; if none fails, the result is the
/// first 32 bytes of the hash of the signature's output point.
pub open spec fn commitment_verify_outcome(
    srs: Seq<u8>,
    ring_size: usize,
    commitment: Seq<u8>,
    vrf_input_data: Seq<u8>,
    aux_data: Seq<u8>,
    signature: Seq<u8>,
) -> Result<Seq<u8>, Error> {
    if !is_ring_signature(signature) {
        Err(Error::DeserializationError)
    } else if input_point_of(vrf_input_data) is None {
        Err(Error::VrfInputPointError)
    } else if !ring_size_supported(srs, ring_size) {
        Err(Error::RingContextError(RingContextError::SrsCreationError))
    } else if !ring_proof_accepted(
        srs,
        ring_size,
        commitment,
        input_point_of(vrf_input_data).unwrap(),
        signature_output(signature),
        aux_data,
        ring_signature_proof(signature),
    ) {
        Err(Error::SignatureVerificationFailed)
    } else {
        Ok(truncated_hash(output_hash_of(signature_output(signature))))
    }
}

/// A commitment to a ring and the number of keys in that ring.
pub struct Commitment {
    /// The commitment to verify against.
    pub commitment: RingCommitment,
    /// Size of the ring that the commitment was made from.
    pub ring_size: usize,
}

/// The verifier that holds a commitment and no keys.
pub type CommitmentVerifier = Commitment;

impl Commitment {
    /// Makes a verifier from a commitment and the size of its ring.
    pub fn new(commitment: RingCommitment, ring_size: usize) -> (verifier: Commitment)
        ensures
            verifier.commitment == commitment,
            verifier.ring_size == ring_size,
    {
        Commitment { commitment, ring_size }
    }

    /// Checks an anonymous signature against the commitment. The result is
    /// `commitment_verify_outcome` of the environment's reference string,
    /// the ring size, the commitment and the arguments.
    pub fn ring_vrf_verify(
        &self,
        environment: &mut CryptoEnvironment,
        vrf_input_data: &[u8],
        aux_data: &[u8],
        signature: &[u8],
    ) -> (hash: Result<[u8; 32], Error>)
        requires
            old(environment).wf(),
        ensures
            final(environment).wf(),
            final(environment).reference() == old(environment).reference(),
            final(environment).capacity() == old(environment).capacity(),
            final(environment).cached_sizes() == (if ring_verify_asks_context(
                vrf_input_data@,
                signature@,
            ) && ring_size_supported(old(environment).reference(), self.ring_size) {
                touched(
                    old(environment).cached_sizes(),
                    self.ring_size,
                    old(environment).capacity(),
                )
            } else {
                old(environment).cached_sizes()
            }),
            match hash {
                Ok(bytes) => commitment_verify_outcome(
                    old(environment).reference(),
                    self.ring_size,
                    self.commitment@,
                    vrf_input_data@,
                    aux_data@,
                    signature@,
                ) == Ok::<Seq<u8>, Error>(bytes@),
                Err(error) => commitment_verify_outcome(
                    old(environment).reference(),
                    self.ring_size,
                    self.commitment@,
                    vrf_input_data@,
                    aux_data@,
                    signature@,
                ) == Err::<Seq<u8>, Error>(error),
            },
    {
        match verify_against_commitment(
            environment,
            &self.commitment,
            self.ring_size,
            vrf_input_data,
            aux_data,
            signature,
        ) {
            Ok(hash) => Ok(hash),
            Err(VerifierError::DeserializationError) => Err(Error::DeserializationError),
            Err(VerifierError::VrfInputPointError) => Err(Error::VrfInputPointError),
            Err(VerifierError::RingContextError(inner)) => Err(Error::RingContextError(inner)),
            Err(_) => Err(Error::SignatureVerificationFailed),
        }
    }

    /// The commitment that signatures are checked against.
    pub fn get_commitment(&self) -> (commitment: &RingCommitment)
        ensures
            *commitment == self.commitment,
    {
        &self.commitment
    }

    /// The number of keys in the ring behind the commitment.
    pub fn get_ring_size(&self) -> (ring_size: usize)
        ensures
            ring_size == self.ring_size,
    {
        self.ring_size
    }
}

} // verus!
