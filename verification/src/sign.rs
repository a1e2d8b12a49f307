//! Signatures of a single known signer.
//!
//! A signature is an output point and a proof that the signer's secret key
//! derived it from the input data; verification gives the first 32 bytes of
//! the output point's hash. No ring is involved.

use vstd::prelude::*;
use vstd::slice::slice_to_vec;
use crate::backend::ietf_proof_accepted;
use crate::backend::ietf_proof_of;
use crate::backend::ietf_verify;
use crate::backend::input_point_of;
use crate::backend::output_hash;
use crate::backend::output_hash_of;
use crate::backend::output_point_of;
use crate::backend::public_of_secret;
use crate::backend::secret_of_seed;
use crate::codec::ietf_signature_proof;
use crate::codec::is_ietf_signature;
use crate::codec::is_public_key;
use crate::codec::is_secret_key;
use crate::codec::signature_output;
use crate::codec::truncate_hash;
use crate::codec::truncated_hash;
use crate::codec::vrf_input_point;
use crate::codec::IetfVrfSignature;
use crate::codec::Public;
use crate::codec::Secret;
use crate::codec::IETF_SIGNATURE_SIZE;
use crate::codec::PUBLIC_KEY_SIZE;
use crate::codec::SECRET_KEY_SIZE;
use crate::ring_prover::ietf_sign_outcome;
use crate::ring_prover::new_secret_from_seed;
use crate::ring_prover::secret_to_public;
use crate::ring_prover::vrf_output_of;
use crate::ring_prover::Prover;
use crate::ring_prover::ProverError;

verus! {

/// A signature of a single signer, taken apart.
pub struct BandersnatchSignature {
    parts: IetfVrfSignature,
}

impl View for BandersnatchSignature {
    type V = Seq<u8>;

    /// The signature's 96 bytes: output point, then proof.
    closed spec fn view(&self) -> Seq<u8> {
        self.parts.output_view() + self.parts.proof_view()
    }
}

impl BandersnatchSignature {
    /// Takes a signature apart. Fails exactly on the strings that
    /// `is_ietf_signature` refuses; bytes after the 96th are left unread.
    pub fn deserialize_compressed(signature: &[u8]) -> (parsed: Option<BandersnatchSignature>)
        ensures
            parsed is Some <==> is_ietf_signature(signature@),
            parsed is Some ==> parsed.unwrap()@ == signature@.subrange(
                0,
                IETF_SIGNATURE_SIZE as int,
            ),
    {
        match IetfVrfSignature::deserialize_compressed(signature) {
            Some(parts) => {
                assert(parts.output_view() + parts.proof_view() =~= signature@.subrange(
                    0,
                    IETF_SIGNATURE_SIZE as int,
                ));
                Some(BandersnatchSignature { parts })
            },
            None => None,
        }
    }

    /// The signature's 96 bytes. They decode again.
    pub fn serialize_compressed(&self) -> (signature: Vec<u8>)
        ensures
            signature@ == self@,
            signature@.len() == IETF_SIGNATURE_SIZE,
            is_ietf_signature(signature@),
    {
        self.parts.serialize_compressed()
    }
}

/// What verifying a signature of a single signer gives: the first 32 bytes
/// of the hash of the signature's output point where the proof holds for
/// the public key, nothing where it does not.
pub open spec fn verify_outcome(
    public_key: Seq<u8>,
    vrf_input_data: Seq<u8>,
    context_data: Seq<u8>,
    signature: Seq<u8>,
) -> Option<Seq<u8>>
    recommends
        input_point_of(vrf_input_data) is Some,
{
    if ietf_proof_accepted(
        public_key,
        input_point_of(vrf_input_data).unwrap(),
        signature_output(signature),
        context_data,
        ietf_signature_proof(signature),
    ) {
        Some(truncated_hash(output_hash_of(signature_output(signature))))
    } else {
        None
    }
}

/// Signs for a single signer on input data that maps to a point: the 96
/// bytes that `ietf_sign_outcome` gives, the output point of the secret key
/// on the input data and then the proof. The output point is the same
/// whatever the context data.
pub fn bandersnatch_sign_impl(secret: Secret, vrf_input_data: &[u8], context_data: &[u8]) -> (signature:
    BandersnatchSignature)
    requires
        input_point_of(vrf_input_data@) is Some,
    ensures
        ietf_sign_outcome(secret@, vrf_input_data@, context_data@) == Ok::<Seq<u8>, ProverError>(
            signature@,
        ),
        signature@.len() == IETF_SIGNATURE_SIZE,
        Some(signature_output(signature@)) == vrf_output_of(secret@, vrf_input_data@),
{
    let prover = Prover::new(Vec::new(), secret, 0);
    let bytes = prover.ietf_vrf_sign(vrf_input_data, context_data).unwrap();
    assert(bytes@.subrange(0, IETF_SIGNATURE_SIZE as int) =~= bytes@);
    proof {
        let input = input_point_of(vrf_input_data@).unwrap();
        let output = output_point_of(secret@, input);
        let proof = ietf_proof_of(secret@, input, output, context_data@);
        assert(signature_output(output + proof) =~= output);
    }
    BandersnatchSignature::deserialize_compressed(bytes.as_slice()).unwrap()
}

/// Signs for a single signer. A signature comes back exactly where the
/// input data maps to a point, and is then the one that `ietf_sign_outcome`
/// gives.
pub fn try_bandersnatch_sign(secret: Secret, vrf_input_data: &[u8], context_data: &[u8]) -> (signature:
    Option<BandersnatchSignature>)
    ensures
        signature is Some <==> input_point_of(vrf_input_data@) is Some,
        signature matches Some(made) ==> {
            &&& ietf_sign_outcome(secret@, vrf_input_data@, context_data@) == Ok::<
                Seq<u8>,
                ProverError,
            >(made@)
            &&& made@.len() == IETF_SIGNATURE_SIZE
        },
{
    if vrf_input_point(vrf_input_data).is_none() {
        return None;
    }
    Some(bandersnatch_sign_impl(secret, vrf_input_data, context_data))
}

/// Verifies a signature of a single signer on input data that maps to a
/// point. The result is `verify_outcome` of the arguments.
pub fn bandersnatch_verify_impl(
    public: Public,
    vrf_input_data: &[u8],
    context_data: &[u8],
    signature: BandersnatchSignature,
) -> (hash: Result<[u8; 32], ()>)
    requires
        input_point_of(vrf_input_data@) is Some,
    ensures
        match hash {
            Ok(bytes) => verify_outcome(public@, vrf_input_data@, context_data@, signature@)
                == Some(bytes@),
            Err(_) => verify_outcome(public@, vrf_input_data@, context_data@, signature@) is None,
        },
{
    let input = vrf_input_point(vrf_input_data).unwrap();
    let output = signature.parts.output_bytes();
    let proof = signature.parts.proof_bytes();
    assert(signature_output(signature@) =~= output@);
    assert(ietf_signature_proof(signature@) =~= proof@);
    if !ietf_verify(public.as_bytes(), input.as_bytes(), output, context_data, proof) {
        return Err(());
    }
    let full_hash = output_hash(output);
    Ok(truncate_hash(&full_hash))
}

/// The encoded secret key that a seed gives: 32 bytes.
pub fn bandersnatch_new_secret(seed: &[u8]) -> (secret: Option<Vec<u8>>)
    ensures
        secret is Some,
        secret.unwrap()@ == secret_of_seed(seed@),
        secret.unwrap()@.len() == SECRET_KEY_SIZE,
{
    let secret = new_secret_from_seed(seed);
    Some(slice_to_vec(secret.as_bytes()))
}

/// The encoded public key of an encoded secret key: 32 bytes. There is one
/// exactly where the secret key decodes.
pub fn bandersnatch_derive_public(secret: &[u8]) -> (public_key: Option<Vec<u8>>)
    ensures
        public_key is Some <==> is_secret_key(secret@),
        public_key matches Some(bytes) ==> {
            &&& bytes@ == public_of_secret(secret@)
            &&& bytes@.len() == PUBLIC_KEY_SIZE
        },
{
    let secret = match Secret::from_bytes(secret) {
        Some(secret) => secret,
        None => {
            return None;
        },
    };
    let public_key = secret_to_public(&secret);
    Some(slice_to_vec(public_key.as_bytes()))
}

/// Signs with an encoded secret key: the 96 bytes that `ietf_sign_outcome`
/// gives. A signature comes back exactly where the secret key decodes and
/// the input data maps to a point.
pub fn bandersnatch_sign(secret: &[u8], vrf_input_data: &[u8], context_data: &[u8]) -> (signature:
    Option<Vec<u8>>)
    ensures
        signature is Some <==> is_secret_key(secret@) && input_point_of(vrf_input_data@) is Some,
        signature matches Some(bytes) ==> {
            &&& ietf_sign_outcome(secret@, vrf_input_data@, context_data@) == Ok::<
                Seq<u8>,
                ProverError,
            >(bytes@)
            &&& bytes@.len() == IETF_SIGNATURE_SIZE
        },
{
    let secret = match Secret::from_bytes(secret) {
        Some(secret) => secret,
        None => {
            return None;
        },
    };
    match try_bandersnatch_sign(secret, vrf_input_data, context_data) {
        Some(signature) => Some(signature.serialize_compressed()),
        None => None,
    }
}

/// What verifying with an encoded public key gives: nothing where the key
/// or the signature does not decode or the input data maps to no point, and
/// `verify_outcome` elsewhere.
pub open spec fn encoded_verify_outcome(
    public_key: Seq<u8>,
    vrf_input_data: Seq<u8>,
    context_data: Seq<u8>,
    signature: Seq<u8>,
) -> Option<Seq<u8>> {
    if !is_public_key(public_key) || !is_ietf_signature(signature) || input_point_of(
        vrf_input_data,
    ) is None {
        None
    } else {
        verify_outcome(public_key, vrf_input_data, context_data, signature)
    }
}

/// Verifies with an encoded public key and an encoded signature. The result
/// is `encoded_verify_outcome` of the arguments.
pub fn bandersnatch_verify(
    public_key: &[u8],
    vrf_input_data: &[u8],
    context_data: &[u8],
    signature: &[u8],
) -> (hash: Option<[u8; 32]>)
    ensures
        match hash {
            Some(bytes) => encoded_verify_outcome(
                public_key@,
                vrf_input_data@,
                context_data@,
                signature@,
            ) == Some(bytes@),
            None => encoded_verify_outcome(
                public_key@,
                vrf_input_data@,
                context_data@,
                signature@,
            ) is None,
        },
{
    let public = match Public::from_bytes(public_key) {
        Some(public) => public,
        None => {
            return None;
        },
    };
    let parsed = match BandersnatchSignature::deserialize_compressed(signature) {
        Some(parsed) => parsed,
        None => {
            return None;
        },
    };
    if vrf_input_point(vrf_input_data).is_none() {
        return None;
    }
    proof {
        let kept = signature@.subrange(0, IETF_SIGNATURE_SIZE as int);
        assert(signature_output(kept) =~= signature_output(signature@));
        assert(ietf_signature_proof(kept) =~= ietf_signature_proof(signature@));
    }
    match bandersnatch_verify_impl(public, vrf_input_data, context_data, parsed) {
        Ok(hash) => Some(hash),
        Err(_) => None,
    }
}

/// The hash of a signature's output point, cut to 32 bytes, with no proof
/// checked. There is one exactly where the signature decodes.
pub fn bandersnatch_output_hash(signature: &[u8]) -> (hash: Option<[u8; 32]>)
    ensures
        hash is Some <==> is_ietf_signature(signature@),
        hash matches Some(bytes) ==> bytes@ == truncated_hash(
            output_hash_of(signature_output(signature@)),
        ),
{
    let parsed = match IetfVrfSignature::deserialize_compressed(signature) {
        Some(parsed) => parsed,
        None => {
            return None;
        },
    };
    let full_hash = output_hash(parsed.output_bytes());
    Some(truncate_hash(&full_hash))
}

} // verus!
