//! The verifier of a ring of public keys.
//!
//! A verifier computes the commitment to its ring once, when it is made, and
//! checks every anonymous signature against that commitment: rebuilding the
//! verifying key from the commitment is cheaper than rebuilding it from the
//! keys. Non-anonymous signatures are checked against one key of the ring.

use vstd::prelude::*;
use crate::backend::ietf_proof_accepted;
use crate::backend::ietf_verify;
use crate::backend::input_point_of;
use crate::backend::output_hash;
use crate::backend::output_hash_of;
use crate::backend::ring_commitment;
use crate::backend::ring_commitment_of;
use crate::backend::ring_keys;
use crate::backend::ring_proof_accepted;
use crate::backend::ring_verify;
use crate::codec::ietf_signature_proof;
use crate::codec::is_ietf_signature;
use crate::codec::is_ring_signature;
use crate::codec::ring_signature_proof;
use crate::codec::signature_output;
use crate::codec::truncate_hash;
use crate::codec::truncated_hash;
use crate::codec::vrf_input_point;
use crate::codec::IetfVrfSignature;
use crate::codec::Public;
use crate::codec::RingCommitment;
use crate::codec::RingVrfSignature;
use crate::context::ring_context;
use crate::context::touched;
use crate::context::CryptoEnvironment;
use crate::context::RingContextError;
use crate::backend::all_ring_keys;
use crate::srs::ring_size_supported;

verus! {

/// Why a signature was not accepted.
#[derive(Debug, Clone, Copy, PartialEq, Eq)]
pub enum VerifierError {
    /// The signature bytes do not decode.
    DeserializationError,
    /// The proof is well-formed but does not hold.
    VerificationFailed,
    /// The ring has no key at the signer's index.
    InvalidSignerKeyIndex,
    /// No ring context could be had for the ring size.
    RingContextError(RingContextError),
    /// The input data maps to no curve point.
    VrfInputPointError,
}

impl VerifierError {
    /// The error in words. An error of the ring context speaks for itself.
    pub open spec fn text(&self) -> Seq<char> {
        match *self {
            VerifierError::DeserializationError => "Failed to deserialize signature"@,
            VerifierError::VerificationFailed => "Signature verification failed"@,
            VerifierError::InvalidSignerKeyIndex => "Invalid signer key index"@,
            VerifierError::RingContextError(inner) => inner.text(),
            VerifierError::VrfInputPointError => "Invalid VRF input point"@,
        }
    }

    /// The error in words.
    pub fn message(&self) -> (text: &'static str)
        ensures
            text@ == self.text(),
    {
        match self {
            VerifierError::DeserializationError => "Failed to deserialize signature",
            VerifierError::VerificationFailed => "Signature verification failed",
            VerifierError::InvalidSignerKeyIndex => "Invalid signer key index",
            VerifierError::RingContextError(inner) => inner.message(),
            VerifierError::VrfInputPointError => "Invalid VRF input point",
        }
    }
}

/// What checking an anonymous signature against a commitment gives.
///
/// The checks come in this order: the signature decodes, the input data maps
/// to a point, the reference string serves the ring size, the proof holds.
/// The first that fails names the error; if none fails, the result is the
/// first 32 bytes of the hash of the signature's output point.
pub open spec fn ring_verify_outcome(
    srs: Seq<u8>,
    ring_size: usize,
    commitment: Seq<u8>,
    vrf_input_data: Seq<u8>,
    aux_data: Seq<u8>,
    signature: Seq<u8>,
) -> Result<Seq<u8>, VerifierError> {
    if !is_ring_signature(signature) {
        Err(VerifierError::DeserializationError)
    } else if input_point_of(vrf_input_data) is None {
        Err(VerifierError::VrfInputPointError)
    } else if !ring_size_supported(srs, ring_size) {
        Err(VerifierError::RingContextError(RingContextError::SrsCreationError))
    } else if !ring_proof_accepted(
        srs,
        ring_size,
        commitment,
        input_point_of(vrf_input_data).unwrap(),
        signature_output(signature),
        aux_data,
        ring_signature_proof(signature),
    ) {
        Err(VerifierError::VerificationFailed)
    } else {
        Ok(truncated_hash(output_hash_of(signature_output(signature))))
    }
}

/// What checking a non-anonymous signature against one key of a ring gives.
///
/// The checks come in this order: the signature decodes, the input data maps
/// to a point, the ring has a key at the index, the proof holds for that
/// key. The first that fails names the error; if none fails, the result is
/// the first 32 bytes of the hash of the signature's output point.
pub open spec fn ietf_verify_outcome(
    ring: Seq<Seq<u8>>,
    vrf_input_data: Seq<u8>,
    aux_data: Seq<u8>,
    signature: Seq<u8>,
    signer_key_index: usize,
) -> Result<Seq<u8>, VerifierError> {
    if !is_ietf_signature(signature) {
        Err(VerifierError::DeserializationError)
    } else if input_point_of(vrf_input_data) is None {
        Err(VerifierError::VrfInputPointError)
    } else if signer_key_index >= ring.len() {
        Err(VerifierError::InvalidSignerKeyIndex)
    } else if !ietf_proof_accepted(
        ring[signer_key_index as int],
        input_point_of(vrf_input_data).unwrap(),
        signature_output(signature),
        aux_data,
        ietf_signature_proof(signature),
    ) {
        Err(VerifierError::VerificationFailed)
    } else {
        Ok(truncated_hash(output_hash_of(signature_output(signature))))
    }
}

/// Whether checking an anonymous signature gets as far as asking for the
/// ring context.
pub open spec fn ring_verify_asks_context(vrf_input_data: Seq<u8>, signature: Seq<u8>) -> bool {
    is_ring_signature(signature) && input_point_of(vrf_input_data) is Some
}

/// Checks an anonymous signature against a ring commitment and a ring size.
///
/// The result is `ring_verify_outcome` of the arguments. The cache of the
/// environment changes only where the context was asked for and was there
/// to be had.
pub fn verify_against_commitment(
    environment: &mut CryptoEnvironment,
    commitment: &RingCommitment,
    ring_size: usize,
    vrf_input_data: &[u8],
    aux_data: &[u8],
    signature: &[u8],
) -> (hash: Result<[u8; 32], VerifierError>)
    requires
        old(environment).wf(),
    ensures
        final(environment).wf(),
        final(environment).reference() == old(environment).reference(),
        final(environment).capacity() == old(environment).capacity(),
        final(environment).cached_sizes() == (if ring_verify_asks_context(
            vrf_input_data@,
            signature@,
        ) && ring_size_supported(old(environment).reference(), ring_size) {
            touched(old(environment).cached_sizes(), ring_size, old(environment).capacity())
        } else {
            old(environment).cached_sizes()
        }),
        match hash {
            Ok(bytes) => ring_verify_outcome(
                old(environment).reference(),
                ring_size,
                commitment@,
                vrf_input_data@,
                aux_data@,
                signature@,
            ) == Ok::<Seq<u8>, VerifierError>(bytes@),
            Err(error) => ring_verify_outcome(
                old(environment).reference(),
                ring_size,
                commitment@,
                vrf_input_data@,
                aux_data@,
                signature@,
            ) == Err::<Seq<u8>, VerifierError>(error),
        },
{
    let parsed = match RingVrfSignature::deserialize_compressed(signature) {
        Some(parsed) => parsed,
        None => {
            return Err(VerifierError::DeserializationError);
        },
    };
    let input = match vrf_input_point(vrf_input_data) {
        Some(input) => input,
        None => {
            return Err(VerifierError::VrfInputPointError);
        },
    };
    let context = match ring_context(environment, ring_size) {
        Ok(context) => context,
        Err(error) => {
            return Err(VerifierError::RingContextError(error));
        },
    };
    let output = parsed.output_bytes();
    if !ring_verify(
        &context,
        commitment.as_bytes(),
        input.as_bytes(),
        output,
        aux_data,
        parsed.proof_bytes(),
    ) {
        return Err(VerifierError::VerificationFailed);
    }
    let full_hash = output_hash(output);
    Ok(truncate_hash(&full_hash))
}

/// Checks anonymous and non-anonymous signatures against a ring of keys.
pub struct Verifier {
    commitment: RingCommitment,
    ring: Vec<Public>,
    srs: Ghost<Seq<u8>>,
}

impl Verifier {
    #[verifier::type_invariant]
    spec fn well_formed(&self) -> bool {
        self.commitment@ == ring_commitment_of(self.srs@, ring_keys(self.ring@))
    }

    /// The ring's keys, in the ring's order.
    pub closed spec fn ring_view(&self) -> Seq<Seq<u8>> {
        ring_keys(self.ring@)
    }

    /// The commitment to the ring.
    pub closed spec fn commitment_view(&self) -> Seq<u8> {
        self.commitment@
    }

    /// The reference string under which the commitment was computed.
    pub closed spec fn reference(&self) -> Seq<u8> {
        self.srs@
    }

    /// Makes a verifier for a ring and computes the ring's commitment.
    ///
    /// No key of the ring may be the neutral point: no commitment can be
    /// made over it. `ring_is_sound` tests a ring for that.
    ///
    /// Succeeds exactly where the environment's reference string serves the
    /// ring's size; the commitment is then the one of the reference string
    /// and the ring's keys in their order.
    pub fn new(environment: &mut CryptoEnvironment, ring: Vec<Public>) -> (verifier: Result<
        Verifier,
        VerifierError,
    >)
        requires
            old(environment).wf(),
            all_ring_keys(ring_keys(ring@)),
        ensures
            final(environment).wf(),
            final(environment).reference() == old(environment).reference(),
            final(environment).capacity() == old(environment).capacity(),
            verifier is Ok <==> ring_size_supported(old(environment).reference(), ring@.len() as usize),
            verifier matches Ok(made) ==> {
                &&& made.ring_view() == ring_keys(ring@)
                &&& made.reference() == old(environment).reference()
                &&& made.commitment_view() == ring_commitment_of(
                    old(environment).reference(),
                    ring_keys(ring@),
                )
                &&& final(environment).cached_sizes() == touched(
                    old(environment).cached_sizes(),
                    ring@.len() as usize,
                    old(environment).capacity(),
                )
            },
            verifier matches Err(error) ==> {
                &&& error == VerifierError::RingContextError(RingContextError::SrsCreationError)
                &&& final(environment).cached_sizes() == old(environment).cached_sizes()
            },
    {
        let context = match ring_context(environment, ring.len()) {
            Ok(context) => context,
            Err(error) => {
                return Err(VerifierError::RingContextError(error));
            },
        };
        let commitment = RingCommitment::from_encoding(ring_commitment(&context, &ring));
        Ok(Verifier { commitment, ring, srs: Ghost(context.reference()) })
    }

    /// Checks a non-anonymous signature against the key at
    /// `signer_key_index`. The result is `ietf_verify_outcome` of the ring
    /// and the arguments.
    pub fn ietf_vrf_verify(
        &self,
        vrf_input_data: &[u8],
        aux_data: &[u8],
        signature: &[u8],
        signer_key_index: usize,
    ) -> (hash: Result<[u8; 32], VerifierError>)
        ensures
            match hash {
                Ok(bytes) => ietf_verify_outcome(
                    self.ring_view(),
                    vrf_input_data@,
                    aux_data@,
                    signature@,
                    signer_key_index,
                ) == Ok::<Seq<u8>, VerifierError>(bytes@),
                Err(error) => ietf_verify_outcome(
                    self.ring_view(),
                    vrf_input_data@,
                    aux_data@,
                    signature@,
                    signer_key_index,
                ) == Err::<Seq<u8>, VerifierError>(error),
            },
    {
        let parsed = match IetfVrfSignature::deserialize_compressed(signature) {
            Some(parsed) => parsed,
            None => {
                return Err(VerifierError::DeserializationError);
            },
        };
        let input = match vrf_input_point(vrf_input_data) {
            Some(input) => input,
            None => {
                return Err(VerifierError::VrfInputPointError);
            },
        };
        if signer_key_index >= self.ring.len() {
            return Err(VerifierError::InvalidSignerKeyIndex);
        }
        let public_key = &self.ring[signer_key_index];
        let output = parsed.output_bytes();
        if !ietf_verify(
            public_key.as_bytes(),
            input.as_bytes(),
            output,
            aux_data,
            parsed.proof_bytes(),
        ) {
            return Err(VerifierError::VerificationFailed);
        }
        let full_hash = output_hash(output);
        Ok(truncate_hash(&full_hash))
    }

    /// Checks an anonymous signature against the ring's commitment. The
    /// result is `ring_verify_outcome` of the environment's reference
    /// string, the ring's size, the commitment and the arguments.
    pub fn ring_vrf_verify(
        &self,
        environment: &mut CryptoEnvironment,
        vrf_input_data: &[u8],
        aux_data: &[u8],
        signature: &[u8],
    ) -> (hash: Result<[u8; 32], VerifierError>)
        requires
            old(environment).wf(),
        ensures
            final(environment).wf(),
            final(environment).reference() == old(environment).reference(),
            final(environment).capacity() == old(environment).capacity(),
            final(environment).cached_sizes() == (if ring_verify_asks_context(
                vrf_input_data@,
                signature@,
            ) && ring_size_supported(
                old(environment).reference(),
                self.ring_view().len() as usize,
            ) {
                touched(
                    old(environment).cached_sizes(),
                    self.ring_view().len() as usize,
                    old(environment).capacity(),
                )
            } else {
                old(environment).cached_sizes()
            }),
            match hash {
                Ok(bytes) => ring_verify_outcome(
                    old(environment).reference(),
                    self.ring_view().len() as usize,
                    self.commitment_view(),
                    vrf_input_data@,
                    aux_data@,
                    signature@,
                ) == Ok::<Seq<u8>, VerifierError>(bytes@),
                Err(error) => ring_verify_outcome(
                    old(environment).reference(),
                    self.ring_view().len() as usize,
                    self.commitment_view(),
                    vrf_input_data@,
                    aux_data@,
                    signature@,
                ) == Err::<Seq<u8>, VerifierError>(error),
            },
    {
        verify_against_commitment(
            environment,
            &self.commitment,
            self.ring.len(),
            vrf_input_data,
            aux_data,
            signature,
        )
    }

    /// The commitment to the ring: the one of the reference string that the
    /// verifier was made under and the ring's keys.
    pub fn get_commitment(&self) -> (commitment: RingCommitment)
        ensures
            commitment@ == self.commitment_view(),
            commitment@ == ring_commitment_of(self.reference(), self.ring_view()),
    {
        proof {
            use_type_invariant(self);
        }
        self.commitment.clone()
    }

    /// The ring's keys, in the ring's order.
    pub fn ring(&self) -> (ring: &Vec<Public>)
        ensures
            ring_keys(ring@) == self.ring_view(),
    {
        &self.ring
    }
}

} // verus!
