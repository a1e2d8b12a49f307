//! Fixed-size byte encodings of keys, points, proofs and commitments.
//!
//! Every value that crosses the library's surface is held in its compressed
//! encoding. A value of one of the types below is known to decode: the type
//! invariant records it, so that the proving and verifying code never has to
//! deal with a malformed key in the middle of its work.

use vstd::prelude::*;
use vstd::slice::slice_subrange;
use vstd::slice::slice_to_vec;
use ark_vrf::reexports::ark_serialize::CanonicalDeserialize;
use ark_vrf::suites::bandersnatch as suite;
use crate::backend::hash_to_input;
use crate::backend::input_point_of;

verus! {

/// Ring size of a full validator set.
pub const DEFAULT_RING_SIZE: usize = 1023;

/// Length of an encoded secret key.
pub const SECRET_KEY_SIZE: usize = 32;

/// Length of an encoded public key.
pub const PUBLIC_KEY_SIZE: usize = 32;

/// Length of an encoded curve point (input, output, public key).
pub const POINT_SIZE: usize = 32;

/// Length of an encoded non-anonymous proof.
pub const IETF_PROOF_SIZE: usize = 64;

/// Length of an encoded anonymous proof (Pedersen part and ring part).
pub const RING_PROOF_SIZE: usize = 752;

/// Length of a non-anonymous signature: output, then proof.
pub const IETF_SIGNATURE_SIZE: usize = 96;

/// Length of an anonymous signature: output, then proof.
pub const RING_SIGNATURE_SIZE: usize = 784;

/// Length of an encoded ring commitment.
pub const COMMITMENT_SIZE: usize = 144;

/// Length of the hash that verification hands out.
pub const OUTPUT_HASH_SIZE: usize = 32;

/// Length of the full hash of an output point.
pub const FULL_HASH_SIZE: usize = 64;

/// Whether the curve library decodes `bytes` as a compressed point of the
/// prime-order subgroup. It reads the first 32 bytes and no more.
pub uninterp spec fn point_encoding_valid(bytes: Seq<u8>) -> bool;

/// Whether the point that `bytes` decode to is the neutral point of the
/// curve. It speaks of the first 32 bytes, as the decoder does.
pub uninterp spec fn point_is_neutral(bytes: Seq<u8>) -> bool;

/// Whether the curve library decodes `bytes` as a secret scalar.
pub uninterp spec fn secret_encoding_valid(bytes: Seq<u8>) -> bool;

/// Whether the curve library decodes `bytes` as a non-anonymous proof.
pub uninterp spec fn ietf_proof_encoding_valid(bytes: Seq<u8>) -> bool;

/// Whether the curve library decodes `bytes` as an anonymous ring proof.
pub uninterp spec fn ring_proof_encoding_valid(bytes: Seq<u8>) -> bool;

/// Whether the curve library decodes `bytes` as a ring commitment.
pub uninterp spec fn commitment_encoding_valid(bytes: Seq<u8>) -> bool;

/// Calls `AffinePoint::deserialize_compressed` of ark-vrf's Bandersnatch suite
/// and reports whether it accepted the bytes. Nothing is proved of the
/// decoder; its verdict is `point_encoding_valid`.
#[verifier::external_body]
pub(crate) fn point_decodes(bytes: &[u8]) -> (ok: bool)
    ensures
        ok == point_encoding_valid(bytes@),
{
    suite::AffinePoint::deserialize_compressed(bytes).is_ok()
}

/// Decodes a point with `AffinePoint::deserialize_compressed` and calls
/// `is_zero` on it: whether the point is the neutral point of the curve,
/// which `point_is_neutral` names.
#[verifier::external_body]
pub(crate) fn point_neutral(bytes: &[u8]) -> (neutral: bool)
    requires
        point_encoding_valid(bytes@),
    ensures
        neutral == point_is_neutral(bytes@),
{
    suite::AffinePoint::deserialize_compressed(bytes).unwrap().is_zero()
}

/// Calls `Secret::deserialize_compressed` of ark-vrf's Bandersnatch suite and
/// reports whether it accepted the bytes; its verdict is
/// `secret_encoding_valid`.
#[verifier::external_body]
pub(crate) fn secret_decodes(bytes: &[u8]) -> (ok: bool)
    ensures
        ok == secret_encoding_valid(bytes@),
{
    suite::Secret::deserialize_compressed(bytes).is_ok()
}

/// Calls `IetfProof::deserialize_compressed` of ark-vrf's Bandersnatch suite
/// and reports whether it accepted the bytes; its verdict is
/// `ietf_proof_encoding_valid`.
#[verifier::external_body]
pub(crate) fn ietf_proof_decodes(bytes: &[u8]) -> (ok: bool)
    ensures
        ok == ietf_proof_encoding_valid(bytes@),
{
    suite::IetfProof::deserialize_compressed(bytes).is_ok()
}

/// Calls `RingProof::deserialize_compressed` of ark-vrf's Bandersnatch suite
/// and reports whether it accepted the bytes; its verdict is
/// `ring_proof_encoding_valid`.
#[verifier::external_body]
pub(crate) fn ring_proof_decodes(bytes: &[u8]) -> (ok: bool)
    ensures
        ok == ring_proof_encoding_valid(bytes@),
{
    suite::RingProof::deserialize_compressed(bytes).is_ok()
}

/// Calls `RingCommitment::deserialize_compressed` of ark-vrf's Bandersnatch
/// suite and reports whether it accepted the bytes; its verdict is
/// `commitment_encoding_valid`.
#[verifier::external_body]
pub(crate) fn commitment_decodes(bytes: &[u8]) -> (ok: bool)
    ensures
        ok == commitment_encoding_valid(bytes@),
{
    suite::RingCommitment::deserialize_compressed(bytes).is_ok()
}

/// A 32-byte string that decodes to a curve point.
pub open spec fn is_point(bytes: Seq<u8>) -> bool {
    bytes.len() == POINT_SIZE && point_encoding_valid(bytes)
}

/// A 32-byte string that decodes to a public key: any point of the
/// subgroup, the neutral point among them.
pub open spec fn is_public_key(bytes: Seq<u8>) -> bool {
    bytes.len() == PUBLIC_KEY_SIZE && point_encoding_valid(bytes)
}

/// A public key that can stand in a ring: any but the neutral point, over
/// which no ring commitment and no ring proof can be made.
pub open spec fn is_ring_key(bytes: Seq<u8>) -> bool {
    is_public_key(bytes) && !point_is_neutral(bytes)
}

/// A 32-byte string that decodes to a secret key: any scalar, zero among
/// them.
pub open spec fn is_secret_key(bytes: Seq<u8>) -> bool {
    bytes.len() == SECRET_KEY_SIZE && secret_encoding_valid(bytes)
}

/// A 144-byte string that decodes to a ring commitment.
pub open spec fn is_commitment(bytes: Seq<u8>) -> bool {
    bytes.len() == COMMITMENT_SIZE && commitment_encoding_valid(bytes)
}

/// The output part of a signature: its first 32 bytes.
pub open spec fn signature_output(signature: Seq<u8>) -> Seq<u8> {
    signature.subrange(0, POINT_SIZE as int)
}

/// The proof part of a non-anonymous signature: bytes 32 to 96.
pub open spec fn ietf_signature_proof(signature: Seq<u8>) -> Seq<u8> {
    signature.subrange(POINT_SIZE as int, IETF_SIGNATURE_SIZE as int)
}

/// The proof part of an anonymous signature: bytes 32 to 784.
pub open spec fn ring_signature_proof(signature: Seq<u8>) -> Seq<u8> {
    signature.subrange(POINT_SIZE as int, RING_SIGNATURE_SIZE as int)
}

/// Bytes that decode as a non-anonymous signature. The decoder reads 96
/// bytes, output first, and leaves what follows them unread.
pub open spec fn is_ietf_signature(signature: Seq<u8>) -> bool {
    &&& signature.len() >= IETF_SIGNATURE_SIZE
    &&& point_encoding_valid(signature_output(signature))
    &&& ietf_proof_encoding_valid(ietf_signature_proof(signature))
}

/// Bytes that decode as an anonymous signature. The decoder reads 784
/// bytes, output first, and leaves what follows them unread.
pub open spec fn is_ring_signature(signature: Seq<u8>) -> bool {
    &&& signature.len() >= RING_SIGNATURE_SIZE
    &&& point_encoding_valid(signature_output(signature))
    &&& ring_proof_encoding_valid(ring_signature_proof(signature))
}

/// The hash that verification hands out: the first 32 bytes of the full hash.
pub open spec fn truncated_hash(full_hash: Seq<u8>) -> Seq<u8> {
    full_hash.subrange(0, OUTPUT_HASH_SIZE as int)
}

/// A ring member's identity, in its compressed encoding.
pub struct Public {
    bytes: Vec<u8>,
}

impl View for Public {
    type V = Seq<u8>;

    closed spec fn view(&self) -> Seq<u8> {
        self.bytes@
    }
}

impl Public {
    #[verifier::type_invariant]
    spec fn well_formed(&self) -> bool {
        is_public_key(self.bytes@)
    }

    /// Takes over an encoding that is known to decode.
    pub(crate) fn from_encoding(bytes: Vec<u8>) -> (key: Public)
        requires
            is_public_key(bytes@),
        ensures
            key@ == bytes@,
    {
        Public { bytes }
    }

    /// Decodes a public key. Fails exactly on the strings that are not 32
    /// bytes long or that the curve library refuses.
    pub fn from_bytes(bytes: &[u8]) -> (key: Option<Public>)
        ensures
            key is Some <==> is_public_key(bytes@),
            key is Some ==> key.unwrap()@ == bytes@,
    {
        if bytes.len() == PUBLIC_KEY_SIZE && point_decodes(bytes) {
            Some(Public { bytes: slice_to_vec(bytes) })
        } else {
            None
        }
    }

    /// Whether the key can stand in a ring: it is not the neutral point.
    pub fn is_ring_member(&self) -> (member: bool)
        ensures
            member == is_ring_key(self@),
    {
        proof {
            use_type_invariant(self);
        }
        !point_neutral(self.bytes.as_slice())
    }

    /// The key's encoding. It always decodes.
    pub fn as_bytes(&self) -> (bytes: &[u8])
        ensures
            bytes@ == self@,
            is_public_key(self@),
    {
        proof {
            use_type_invariant(self);
        }
        self.bytes.as_slice()
    }
}

impl Clone for Public {
    fn clone(&self) -> (copy: Self)
        ensures
            copy@ == self@,
    {
        proof {
            use_type_invariant(self);
        }
        Public { bytes: slice_to_vec(self.bytes.as_slice()) }
    }
}

/// A signer's private scalar, in its encoding.
pub struct Secret {
    bytes: Vec<u8>,
}

impl View for Secret {
    type V = Seq<u8>;

    closed spec fn view(&self) -> Seq<u8> {
        self.bytes@
    }
}

impl Secret {
    #[verifier::type_invariant]
    spec fn well_formed(&self) -> bool {
        is_secret_key(self.bytes@)
    }

    /// Takes over an encoding that is known to decode.
    pub(crate) fn from_encoding(bytes: Vec<u8>) -> (key: Secret)
        requires
            is_secret_key(bytes@),
        ensures
            key@ == bytes@,
    {
        Secret { bytes }
    }

    /// Decodes a secret key. Fails exactly on the strings that are not 32
    /// bytes long or that the curve library refuses.
    pub fn from_bytes(bytes: &[u8]) -> (key: Option<Secret>)
        ensures
            key is Some <==> is_secret_key(bytes@),
            key is Some ==> key.unwrap()@ == bytes@,
    {
        if bytes.len() == SECRET_KEY_SIZE && secret_decodes(bytes) {
            Some(Secret { bytes: slice_to_vec(bytes) })
        } else {
            None
        }
    }

    /// The key's encoding. It always decodes.
    pub fn as_bytes(&self) -> (bytes: &[u8])
        ensures
            bytes@ == self@,
            is_secret_key(self@),
    {
        proof {
            use_type_invariant(self);
        }
        self.bytes.as_slice()
    }
}

impl Clone for Secret {
    fn clone(&self) -> (copy: Self)
        ensures
            copy@ == self@,
    {
        proof {
            use_type_invariant(self);
        }
        Secret { bytes: slice_to_vec(self.bytes.as_slice()) }
    }
}

/// A point that input data was hashed to, in its compressed encoding.
pub struct Input {
    bytes: Vec<u8>,
}

impl View for Input {
    type V = Seq<u8>;

    closed spec fn view(&self) -> Seq<u8> {
        self.bytes@
    }
}

impl Input {
    #[verifier::type_invariant]
    spec fn well_formed(&self) -> bool {
        is_point(self.bytes@)
    }

    /// Takes over an encoding that is known to decode.
    pub(crate) fn from_encoding(bytes: Vec<u8>) -> (point: Input)
        requires
            is_point(bytes@),
        ensures
            point@ == bytes@,
    {
        Input { bytes }
    }

    /// Decodes an input point. Fails exactly on the strings that are not 32
    /// bytes long or that the curve library refuses.
    pub fn from_bytes(bytes: &[u8]) -> (point: Option<Input>)
        ensures
            point is Some <==> is_point(bytes@),
            point is Some ==> point.unwrap()@ == bytes@,
    {
        if bytes.len() == POINT_SIZE && point_decodes(bytes) {
            Some(Input { bytes: slice_to_vec(bytes) })
        } else {
            None
        }
    }

    /// The point's encoding. It always decodes.
    pub fn as_bytes(&self) -> (bytes: &[u8])
        ensures
            bytes@ == self@,
            is_point(self@),
    {
        proof {
            use_type_invariant(self);
        }
        self.bytes.as_slice()
    }
}

/// Derives the input point from arbitrary data. There is a point exactly
/// where the curve library finds one for the data.
pub fn vrf_input_point(vrf_input_data: &[u8]) -> (point: Option<Input>)
    ensures
        point is Some <==> input_point_of(vrf_input_data@) is Some,
        point is Some ==> point.unwrap()@ == input_point_of(vrf_input_data@).unwrap(),
{
    match hash_to_input(vrf_input_data) {
        Some(bytes) => Some(Input::from_encoding(bytes)),
        None => None,
    }
}

/// A compact binding to a whole ring of public keys, in its encoding.
pub struct RingCommitment {
    bytes: Vec<u8>,
}

impl View for RingCommitment {
    type V = Seq<u8>;

    closed spec fn view(&self) -> Seq<u8> {
        self.bytes@
    }
}

impl RingCommitment {
    #[verifier::type_invariant]
    spec fn well_formed(&self) -> bool {
        is_commitment(self.bytes@)
    }

    /// Takes over an encoding that is known to decode.
    pub(crate) fn from_encoding(bytes: Vec<u8>) -> (commitment: RingCommitment)
        requires
            is_commitment(bytes@),
        ensures
            commitment@ == bytes@,
    {
        RingCommitment { bytes }
    }

    /// Decodes a commitment. Fails exactly on the strings that are not 144
    /// bytes long or that the curve library refuses.
    pub fn from_bytes(bytes: &[u8]) -> (commitment: Option<RingCommitment>)
        ensures
            commitment is Some <==> is_commitment(bytes@),
            commitment is Some ==> commitment.unwrap()@ == bytes@,
    {
        if bytes.len() == COMMITMENT_SIZE && commitment_decodes(bytes) {
            Some(RingCommitment { bytes: slice_to_vec(bytes) })
        } else {
            None
        }
    }

    /// The commitment's encoding. It always decodes.
    pub fn as_bytes(&self) -> (bytes: &[u8])
        ensures
            bytes@ == self@,
            is_commitment(self@),
    {
        proof {
            use_type_invariant(self);
        }
        self.bytes.as_slice()
    }
}

impl Clone for RingCommitment {
    fn clone(&self) -> (copy: Self)
        ensures
            copy@ == self@,
    {
        proof {
            use_type_invariant(self);
        }
        RingCommitment { bytes: slice_to_vec(self.bytes.as_slice()) }
    }
}

/// A non-anonymous signature taken apart: the output point and the proof
/// that one known signer derived it.
pub struct IetfVrfSignature {
    output: Vec<u8>,
    proof: Vec<u8>,
}

impl IetfVrfSignature {
    #[verifier::type_invariant]
    spec fn well_formed(&self) -> bool {
        &&& is_point(self.output@)
        &&& self.proof@.len() == IETF_PROOF_SIZE
        &&& ietf_proof_encoding_valid(self.proof@)
    }

    /// The encoded output point.
    pub closed spec fn output_view(&self) -> Seq<u8> {
        self.output@
    }

    /// The encoded proof.
    pub closed spec fn proof_view(&self) -> Seq<u8> {
        self.proof@
    }

    /// Takes a signature apart: 32 bytes of output, then 64 bytes of proof.
    /// Fails exactly on the strings that `is_ietf_signature` refuses.
    pub fn deserialize_compressed(signature: &[u8]) -> (parsed: Option<IetfVrfSignature>)
        ensures
            parsed is Some <==> is_ietf_signature(signature@),
            parsed is Some ==> {
                &&& parsed.unwrap().output_view() == signature_output(signature@)
                &&& parsed.unwrap().proof_view() == ietf_signature_proof(signature@)
            },
    {
        if signature.len() < IETF_SIGNATURE_SIZE {
            return None;
        }
        let output = slice_subrange(signature, 0, POINT_SIZE);
        let proof = slice_subrange(signature, POINT_SIZE, IETF_SIGNATURE_SIZE);
        if point_decodes(output) && ietf_proof_decodes(proof) {
            Some(IetfVrfSignature { output: slice_to_vec(output), proof: slice_to_vec(proof) })
        } else {
            None
        }
    }

    /// Puts the signature together again: output, then proof, 96 bytes.
    pub fn serialize_compressed(&self) -> (signature: Vec<u8>)
        ensures
            signature@ == self.output_view() + self.proof_view(),
            signature@.len() == IETF_SIGNATURE_SIZE,
            is_ietf_signature(signature@),
    {
        proof {
            use_type_invariant(self);
        }
        let mut signature = slice_to_vec(self.output.as_slice());
        signature.extend_from_slice(self.proof.as_slice());
        assert(signature@ =~= self.output@ + self.proof@);
        assert(signature_output(signature@) =~= self.output@);
        assert(ietf_signature_proof(signature@) =~= self.proof@);
        signature
    }

    /// The encoded output point. It always decodes.
    pub fn output_bytes(&self) -> (bytes: &[u8])
        ensures
            bytes@ == self.output_view(),
            is_point(bytes@),
    {
        proof {
            use_type_invariant(self);
        }
        self.output.as_slice()
    }

    /// The encoded proof. It always decodes.
    pub fn proof_bytes(&self) -> (bytes: &[u8])
        ensures
            bytes@ == self.proof_view(),
            bytes@.len() == IETF_PROOF_SIZE,
            ietf_proof_encoding_valid(bytes@),
    {
        proof {
            use_type_invariant(self);
        }
        self.proof.as_slice()
    }
}

/// An anonymous signature taken apart: the output point and the proof that
/// some member of a ring derived it.
pub struct RingVrfSignature {
    output: Vec<u8>,
    proof: Vec<u8>,
}

impl RingVrfSignature {
    #[verifier::type_invariant]
    spec fn well_formed(&self) -> bool {
        &&& is_point(self.output@)
        &&& self.proof@.len() == RING_PROOF_SIZE
        &&& ring_proof_encoding_valid(self.proof@)
    }

    /// The encoded output point.
    pub closed spec fn output_view(&self) -> Seq<u8> {
        self.output@
    }

    /// The encoded proof.
    pub closed spec fn proof_view(&self) -> Seq<u8> {
        self.proof@
    }

    /// Takes a signature apart: 32 bytes of output, then 752 bytes of proof.
    /// Fails exactly on the strings that `is_ring_signature` refuses.
    pub fn deserialize_compressed(signature: &[u8]) -> (parsed: Option<RingVrfSignature>)
        ensures
            parsed is Some <==> is_ring_signature(signature@),
            parsed is Some ==> {
                &&& parsed.unwrap().output_view() == signature_output(signature@)
                &&& parsed.unwrap().proof_view() == ring_signature_proof(signature@)
            },
    {
        if signature.len() < RING_SIGNATURE_SIZE {
            return None;
        }
        let output = slice_subrange(signature, 0, POINT_SIZE);
        let proof = slice_subrange(signature, POINT_SIZE, RING_SIGNATURE_SIZE);
        if point_decodes(output) && ring_proof_decodes(proof) {
            Some(RingVrfSignature { output: slice_to_vec(output), proof: slice_to_vec(proof) })
        } else {
            None
        }
    }

    /// Puts the signature together again: output, then proof, 784 bytes.
    pub fn serialize_compressed(&self) -> (signature: Vec<u8>)
        ensures
            signature@ == self.output_view() + self.proof_view(),
            signature@.len() == RING_SIGNATURE_SIZE,
            is_ring_signature(signature@),
    {
        proof {
            use_type_invariant(self);
        }
        let mut signature = slice_to_vec(self.output.as_slice());
        signature.extend_from_slice(self.proof.as_slice());
        assert(signature@ =~= self.output@ + self.proof@);
        assert(signature_output(signature@) =~= self.output@);
        assert(ring_signature_proof(signature@) =~= self.proof@);
        signature
    }

    /// The encoded output point. It always decodes.
    pub fn output_bytes(&self) -> (bytes: &[u8])
        ensures
            bytes@ == self.output_view(),
            is_point(bytes@),
    {
        proof {
            use_type_invariant(self);
        }
        self.output.as_slice()
    }

    /// The encoded proof. It always decodes.
    pub fn proof_bytes(&self) -> (bytes: &[u8])
        ensures
            bytes@ == self.proof_view(),
            bytes@.len() == RING_PROOF_SIZE,
            ring_proof_encoding_valid(bytes@),
    {
        proof {
            use_type_invariant(self);
        }
        self.proof.as_slice()
    }
}

/// Cuts a full 64-byte output hash down to the 32 bytes that are handed out.
pub fn truncate_hash(full_hash: &[u8; 64]) -> (hash: [u8; 32])
    ensures
        hash@ == truncated_hash(full_hash@),
{
    let mut hash = [0u8; 32];
    let mut i: usize = 0;
    while i < OUTPUT_HASH_SIZE
        invariant
            i <= OUTPUT_HASH_SIZE,
            forall|j: int| 0 <= j < i ==> hash@[j] == full_hash@[j],
        decreases OUTPUT_HASH_SIZE - i,
    {
        hash[i] = full_hash[i];
        i += 1;
    }
    assert(hash@ =~= truncated_hash(full_hash@));
    hash
}

/// A secret key and its public key side by side: 32 bytes of secret, then
/// 32 bytes of public key.
pub fn serialize_key_pair(secret: &Secret, public_key: &Public) -> (pair: Option<Vec<u8>>)
    ensures
        pair is Some,
        pair.unwrap()@ == secret@ + public_key@,
        pair.unwrap()@.len() == SECRET_KEY_SIZE + PUBLIC_KEY_SIZE,
{
    let mut serialized = slice_to_vec(secret.as_bytes());
    serialized.extend_from_slice(public_key.as_bytes());
    assert(serialized@ =~= secret@ + public_key@);
    Some(serialized)
}

} // verus!
