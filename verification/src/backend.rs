//! The curve library behind the prover and the verifiers.
//!
//! Everything in this file is believed, not proved: each function hands
//! encoded values to ark-vrf and encodes what comes back. What a call returns
//! is given a name where it depends on the arguments alone, so that the
//! contracts of the verified code can speak of it.

use vstd::prelude::*;
use ark_vrf::ietf::Prover as IetfProve;
use ark_vrf::ietf::Verifier as IetfVerify;
use ark_vrf::pedersen::PedersenSuite;
use ark_vrf::reexports::ark_ec::CurveGroup;
use ark_vrf::reexports::ark_serialize::CanonicalDeserialize;
use ark_vrf::reexports::ark_serialize::CanonicalSerialize;
use ark_vrf::ring::Prover as RingProve;
use ark_vrf::ring::Verifier as RingVerify;
use ark_vrf::suites::bandersnatch as suite;
use crate::codec::is_commitment;
use crate::codec::is_point;
use crate::codec::is_public_key;
use crate::codec::is_ring_key;
use crate::codec::is_secret_key;
use crate::codec::ietf_proof_encoding_valid;
use crate::codec::ring_proof_encoding_valid;
use crate::codec::Public;
use crate::codec::SECRET_KEY_SIZE;
use crate::codec::IETF_PROOF_SIZE;
use crate::codec::RING_PROOF_SIZE;
use crate::accumulator::accumulation_clear;
use crate::accumulator::prover_slot;
use crate::points::padding_encoding;
use crate::srs::key_room;
use crate::srs::ring_size_supported;
use crate::srs::srs_framed;
use crate::srs::MAX_RING_SIZE;

verus! {

/// Whether the curve library decodes a framed reference string: every
/// point in it is on its curve and in the subgroup of prime order.
pub uninterp spec fn srs_decodes(srs: Seq<u8>) -> bool;

/// The encoded secret key that a seed gives.
pub uninterp spec fn secret_of_seed(seed: Seq<u8>) -> Seq<u8>;

/// The encoded public key of an encoded secret key.
pub uninterp spec fn public_of_secret(secret: Seq<u8>) -> Seq<u8>;

/// The encoded point that input data is hashed to, if there is one.
pub uninterp spec fn input_point_of(data: Seq<u8>) -> Option<Seq<u8>>;

/// The encoded output point of a secret key on an input point.
pub uninterp spec fn output_point_of(secret: Seq<u8>, input: Seq<u8>) -> Seq<u8>;

/// The full 64-byte hash of an encoded output point.
pub uninterp spec fn output_hash_of(output: Seq<u8>) -> Seq<u8>;

/// The encoded non-anonymous proof of a secret key for an input, an output
/// and auxiliary data.
pub uninterp spec fn ietf_proof_of(
    secret: Seq<u8>,
    input: Seq<u8>,
    output: Seq<u8>,
    aux: Seq<u8>,
) -> Seq<u8>;

/// The encoded blinding scalar of an anonymous proof: the scalar that hides
/// the signer's key, derived from the secret, the input and the auxiliary
/// data.
pub uninterp spec fn blinding_of(secret: Seq<u8>, input: Seq<u8>, aux: Seq<u8>) -> Seq<u8>;

/// The encoded sum of two encoded points.
pub uninterp spec fn point_sum_of(one: Seq<u8>, other: Seq<u8>) -> Seq<u8>;

/// Whether a non-anonymous proof holds for a public key, an input, an output
/// and auxiliary data.
pub uninterp spec fn ietf_proof_accepted(
    public_key: Seq<u8>,
    input: Seq<u8>,
    output: Seq<u8>,
    aux: Seq<u8>,
    proof: Seq<u8>,
) -> bool;

/// The encoded commitment to a ring of encoded public keys under a
/// reference string.
pub uninterp spec fn ring_commitment_of(srs: Seq<u8>, ring: Seq<Seq<u8>>) -> Seq<u8>;

/// Whether an anonymous proof holds for a ring size, a commitment, an input,
/// an output and auxiliary data under a reference string.
pub uninterp spec fn ring_proof_accepted(
    srs: Seq<u8>,
    ring_size: usize,
    commitment: Seq<u8>,
    input: Seq<u8>,
    output: Seq<u8>,
    aux: Seq<u8>,
    proof: Seq<u8>,
) -> bool;

/// The encodings of a ring's keys, in the ring's order.
pub open spec fn ring_keys(ring: Seq<Public>) -> Seq<Seq<u8>> {
    ring.map_values(|key: Public| key@)
}

/// Every encoding is a key that can stand in a ring: none is the neutral
/// point.
pub open spec fn all_ring_keys(keys: Seq<Seq<u8>>) -> bool {
    forall|i: int| 0 <= i < keys.len() ==> is_ring_key(#[trigger] keys[i])
}

/// The curve library's parsed reference string. Verus cannot take the
/// declaration of the library's own type, which is generic over a pairing,
/// so the value is kept out of its sight.
#[verifier::external_body]
pub struct SrsHandle {
    inner: suite::PcsParams,
}

/// The curve library's parameters for one ring size. Verus cannot take the
/// declaration of the library's own type, which is generic over a suite, so
/// the value is kept out of its sight.
#[verifier::external_body]
pub struct ContextHandle {
    inner: suite::RingProofParams,
}

/// Immutable setup material: a parsed reference string, together with the
/// bytes it was parsed from.
pub struct ReferenceParameters {
    handle: SrsHandle,
    bytes: Ghost<Seq<u8>>,
}

impl View for ReferenceParameters {
    type V = Seq<u8>;

    closed spec fn view(&self) -> Seq<u8> {
        self.bytes@
    }
}

/// Proving and verifying parameters for rings of one size, together with
/// the reference string and the ring size they were made from.
pub struct RingContext {
    handle: ContextHandle,
    srs: Ghost<Seq<u8>>,
    size: usize,
}

impl RingContext {
    /// The reference string that the context was made from.
    pub closed spec fn reference(&self) -> Seq<u8> {
        self.srs@
    }

    /// The ring size that the context was made for.
    pub closed spec fn ring_size(&self) -> usize {
        self.size
    }

    /// The ring size that the context was made for.
    pub fn size(&self) -> (size: usize)
        ensures
            size == self.ring_size(),
    {
        self.size
    }
}

/// Calls `Clone::clone` on the curve library's parameters: the copy stands
/// for the same reference string and ring size.
impl Clone for RingContext {
    #[verifier::external_body]
    fn clone(&self) -> (copy: Self)
        ensures
            copy.reference() == self.reference(),
            copy.ring_size() == self.ring_size(),
    {
        RingContext {
            handle: ContextHandle { inner: self.handle.inner.clone() },
            srs: Ghost(self.srs@),
            size: self.size,
        }
    }
}

/// Calls `PcsParams::deserialize_uncompressed`, which checks every point.
/// The decoder allocates what the two counts announce, so only a framed
/// string may be handed to it; it then succeeds exactly on the strings that
/// `srs_decodes` names, and the result stands for the bytes it was given.
#[verifier::external_body]
pub(crate) fn parse_reference_parameters(srs: &[u8]) -> (parsed: Option<ReferenceParameters>)
    requires
        srs_framed(srs@),
    ensures
        parsed is Some <==> srs_decodes(srs@),
        parsed is Some ==> parsed.unwrap()@ == srs@,
{
    let inner = suite::PcsParams::deserialize_uncompressed(srs).ok()?;
    Some(ReferenceParameters { handle: SrsHandle { inner }, bytes: Ghost(srs@) })
}

/// Calls `RingProofParams::from_pcs_params` on a copy of the reference
/// string. The call computes the domain sizes in machine words, so the ring
/// size is kept where they fit; it then succeeds exactly where the reference
/// string holds the G1 powers of the ring size's domain and two G2 powers.
#[verifier::external_body]
pub(crate) fn build_ring_context(params: &ReferenceParameters, ring_size: usize) -> (built: Option<
    RingContext,
>)
    requires
        ring_size <= MAX_RING_SIZE,
    ensures
        built is Some <==> ring_size_supported(params@, ring_size),
        built is Some ==> {
            &&& built.unwrap().reference() == params@
            &&& built.unwrap().ring_size() == ring_size
        },
{
    let inner = suite::RingProofParams::from_pcs_params(ring_size, params.handle.inner.clone()).ok()?;
    Some(RingContext { handle: ContextHandle { inner }, srs: Ghost(params@), size: ring_size })
}

/// Calls `Secret::from_seed` and encodes the key. The key is
/// `secret_of_seed` of the seed; its encoding is 32 bytes that decode again.
#[verifier::external_body]
pub(crate) fn secret_from_seed(seed: &[u8]) -> (secret: Vec<u8>)
    ensures
        secret@ == secret_of_seed(seed@),
        is_secret_key(secret@),
{
    let mut bytes = Vec::new();
    suite::Secret::from_seed(seed).serialize_compressed(&mut bytes).unwrap();
    bytes
}

/// Calls `Secret::public` and encodes the key. The key is `public_of_secret`
/// of the secret; its encoding is 32 bytes that decode again. For the scalar
/// zero it is the neutral point.
#[verifier::external_body]
pub(crate) fn public_from_secret(secret: &[u8]) -> (public_key: Vec<u8>)
    requires
        is_secret_key(secret@),
    ensures
        public_key@ == public_of_secret(secret@),
        is_public_key(public_key@),
{
    let secret = suite::Secret::deserialize_compressed(secret).unwrap();
    let mut bytes = Vec::new();
    secret.public().serialize_compressed(&mut bytes).unwrap();
    bytes
}

/// Calls `Input::new` and encodes the point. The result is `input_point_of`
/// of the data; a point's encoding is 32 bytes that decode again.
#[verifier::external_body]
pub(crate) fn hash_to_input(data: &[u8]) -> (point: Option<Vec<u8>>)
    ensures
        point is Some <==> input_point_of(data@) is Some,
        point is Some ==> {
            &&& point.unwrap()@ == input_point_of(data@).unwrap()
            &&& is_point(point.unwrap()@)
        },
{
    let input = suite::Input::new(data)?;
    let mut bytes = Vec::new();
    input.serialize_compressed(&mut bytes).unwrap();
    Some(bytes)
}

/// Calls `Secret::output` and encodes the point. The result is
/// `output_point_of` of the secret and the input; its encoding is 32 bytes
/// that decode again.
#[verifier::external_body]
pub(crate) fn vrf_output(secret: &[u8], input: &[u8]) -> (output: Vec<u8>)
    requires
        is_secret_key(secret@),
        is_point(input@),
    ensures
        output@ == output_point_of(secret@, input@),
        is_point(output@),
{
    let secret = suite::Secret::deserialize_compressed(secret).unwrap();
    let input = suite::Input::deserialize_compressed(input).unwrap();
    let mut bytes = Vec::new();
    secret.output(input).serialize_compressed(&mut bytes).unwrap();
    bytes
}

/// Calls `Output::hash`, which is SHA-512 over the point: 64 bytes, named
/// `output_hash_of`.
#[verifier::external_body]
pub(crate) fn output_hash(output: &[u8]) -> (hash: [u8; 64])
    requires
        is_point(output@),
    ensures
        hash@ == output_hash_of(output@),
{
    suite::Output::deserialize_compressed(output).unwrap().hash().into()
}

/// Calls `ietf::Prover::prove` and encodes the proof. The nonce is derived
/// from the secret and the input, so the proof depends on the arguments
/// alone: it is `ietf_proof_of` of them. A proof is a challenge and a
/// response, two scalars; the encoder writes 32 bytes for each, and the
/// decoder takes them again.
#[verifier::external_body]
pub(crate) fn ietf_prove(secret: &[u8], input: &[u8], output: &[u8], aux: &[u8]) -> (proof: Vec<u8>)
    requires
        is_secret_key(secret@),
        is_point(input@),
        is_point(output@),
    ensures
        proof@ == ietf_proof_of(secret@, input@, output@, aux@),
        proof@.len() == IETF_PROOF_SIZE,
        ietf_proof_encoding_valid(proof@),
{
    let secret = suite::Secret::deserialize_compressed(secret).unwrap();
    let input = suite::Input::deserialize_compressed(input).unwrap();
    let output = suite::Output::deserialize_compressed(output).unwrap();
    let mut bytes = Vec::new();
    IetfProve::prove(&secret, input, output, aux).serialize_compressed(&mut bytes).unwrap();
    bytes
}

/// Calls `ietf::Verifier::verify` and reports whether it accepted; its
/// verdict is `ietf_proof_accepted`.
#[verifier::external_body]
pub(crate) fn ietf_verify(
    public_key: &[u8],
    input: &[u8],
    output: &[u8],
    aux: &[u8],
    proof: &[u8],
) -> (accepted: bool)
    requires
        is_public_key(public_key@),
        is_point(input@),
        is_point(output@),
        proof@.len() == IETF_PROOF_SIZE,
        ietf_proof_encoding_valid(proof@),
    ensures
        accepted == ietf_proof_accepted(public_key@, input@, output@, aux@, proof@),
{
    let public_key = suite::Public::deserialize_compressed(public_key).unwrap();
    let input = suite::Input::deserialize_compressed(input).unwrap();
    let output = suite::Output::deserialize_compressed(output).unwrap();
    let proof = suite::IetfProof::deserialize_compressed(proof).unwrap();
    IetfVerify::verify(&public_key, input, output, aux, &proof).is_ok()
}

/// Calls `RingProofParams::verifier_key` on the ring and encodes the key's
/// commitment. The call lays the keys out as a column of points and stops
/// if one of them is the neutral point, so no key may be that point.
/// The commitment is `ring_commitment_of` of the reference string and the
/// keys: three G1 points, each a sum of multiples of points of the reference
/// string, which are in the subgroup; its encoding is 144 bytes that decode
/// again.
#[verifier::external_body]
pub(crate) fn ring_commitment(context: &RingContext, ring: &Vec<Public>) -> (commitment: Vec<u8>)
    requires
        context.ring_size() == ring@.len(),
        all_ring_keys(ring_keys(ring@)),
    ensures
        commitment@ == ring_commitment_of(context.reference(), ring_keys(ring@)),
        is_commitment(commitment@),
{
    let points: Vec<suite::AffinePoint> = ring.iter().map(
        |key| suite::AffinePoint::deserialize_compressed(key.as_bytes()).unwrap(),
    ).collect();
    let mut bytes = Vec::new();
    context.handle.inner.verifier_key(&points).commitment().serialize_compressed(
        &mut bytes,
    ).unwrap();
    bytes
}

/// Calls `Suite::blinding` of the Pedersen scheme, as `ring::Prover::prove`
/// does, and encodes the scalar: `blinding_of` of the arguments, a scalar
/// in 32 bytes, least significant byte first.
#[verifier::external_body]
pub(crate) fn ring_blinding(secret: &[u8], input: &[u8], aux: &[u8]) -> (blinding: Vec<u8>)
    requires
        is_secret_key(secret@),
        is_point(input@),
    ensures
        blinding@ == blinding_of(secret@, input@, aux@),
        blinding@.len() == SECRET_KEY_SIZE,
{
    let secret = suite::Secret::deserialize_compressed(secret).unwrap();
    let input = suite::Input::deserialize_compressed(input).unwrap();
    let mut bytes = Vec::new();
    suite::BandersnatchSha512Ell2::blinding(&secret.scalar, &input.0, aux).serialize_compressed(
        &mut bytes,
    ).unwrap();
    bytes
}

/// Adds two points with the curve library's `Add` for affine points and
/// encodes the sum: `point_sum_of` of the two, a point in 32 bytes that
/// decode again.
#[verifier::external_body]
pub(crate) fn point_add(one: &[u8], other: &[u8]) -> (sum: Vec<u8>)
    requires
        is_point(one@),
        is_point(other@),
    ensures
        sum@ == point_sum_of(one@, other@),
        is_point(sum@),
{
    let one = suite::AffinePoint::deserialize_compressed(one).unwrap();
    let other = suite::AffinePoint::deserialize_compressed(other).unwrap();
    let mut bytes = Vec::new();
    (one + other).into_affine().serialize_compressed(&mut bytes).unwrap();
    bytes
}

/// Calls `ring::Prover::prove` with a prover made for the ring and the
/// signer's position, and encodes the proof. The proof is blinded with fresh
/// randomness, so its bytes are not named: every outcome is a proof of 752
/// bytes that decode again. Its points on the signer's curve are made from
/// points of the subgroup, and its G1 points are sums of multiples of points
/// of the reference string, which the decoder has checked.
///
/// The call stops on three kinds of input, which are left out here. It lays
/// the keys out as a column and stops if one is the neutral point. It marks
/// the signer's position in a column with room for `key_room` keys and stops
/// if the position is past it; a position past the ring's end stands on the
/// padding point. And it adds up, from the suite's `ACCUMULATOR_BASE`, the
/// point at the signer's position and then, for each bit of the blinding
/// scalar that is set, from the lowest up, the multiple of the suite's
/// `BLINDING_BASE` that it got by doubling once for every bit before; it
/// stops if one of these sums is the neutral point. `accumulation_clear`
/// walks through the same sums, with the encodings of the two bases.
#[verifier::external_body]
pub(crate) fn ring_prove(
    context: &RingContext,
    ring: &Vec<Public>,
    prover_idx: usize,
    secret: &[u8],
    input: &[u8],
    output: &[u8],
    aux: &[u8],
) -> (proof: Vec<u8>)
    requires
        context.ring_size() == ring@.len(),
        all_ring_keys(ring_keys(ring@)),
        prover_idx < key_room(ring@.len()),
        is_secret_key(secret@),
        is_point(input@),
        is_point(output@),
        accumulation_clear(
            prover_slot(ring_keys(ring@), prover_idx as int, padding_encoding()),
            blinding_of(secret@, input@, aux@),
        ),
    ensures
        proof@.len() == RING_PROOF_SIZE,
        ring_proof_encoding_valid(proof@),
{
    let points: Vec<suite::AffinePoint> = ring.iter().map(
        |key| suite::AffinePoint::deserialize_compressed(key.as_bytes()).unwrap(),
    ).collect();
    let secret = suite::Secret::deserialize_compressed(secret).unwrap();
    let input = suite::Input::deserialize_compressed(input).unwrap();
    let output = suite::Output::deserialize_compressed(output).unwrap();
    let prover = context.handle.inner.prover(context.handle.inner.prover_key(&points), prover_idx);
    let mut bytes = Vec::new();
    RingProve::prove(&secret, input, output, aux, &prover).serialize_compressed(&mut bytes).unwrap();
    bytes
}

/// Calls `ring::Verifier::verify` with a verifier made from the commitment,
/// and reports whether it accepted; its verdict is `ring_proof_accepted`.
#[verifier::external_body]
pub(crate) fn ring_verify(
    context: &RingContext,
    commitment: &[u8],
    input: &[u8],
    output: &[u8],
    aux: &[u8],
    proof: &[u8],
) -> (accepted: bool)
    requires
        is_commitment(commitment@),
        is_point(input@),
        is_point(output@),
        proof@.len() == RING_PROOF_SIZE,
        ring_proof_encoding_valid(proof@),
    ensures
        accepted == ring_proof_accepted(
            context.reference(),
            context.ring_size(),
            commitment@,
            input@,
            output@,
            aux@,
            proof@,
        ),
{
    let commitment = suite::RingCommitment::deserialize_compressed(commitment).unwrap();
    let input = suite::Input::deserialize_compressed(input).unwrap();
    let output = suite::Output::deserialize_compressed(output).unwrap();
    let proof = suite::RingProof::deserialize_compressed(proof).unwrap();
    let key = context.handle.inner.verifier_key_from_commitment(commitment);
    let verifier = context.handle.inner.verifier(key);
    <suite::Public as RingVerify<_>>::verify(input, output, aux, &proof, &verifier).is_ok()
}

/// Calls `RingProofParams::padding_point` and encodes the point. The point
/// is a constant of the suite, the same for every ring size; its encoding
/// is the 32 bytes of `padding_encoding`, which decode again.
#[verifier::external_body]
pub(crate) fn padding_point(context: &RingContext) -> (point: Vec<u8>)
    ensures
        point@ == padding_encoding(),
        is_public_key(point@),
{
    let mut bytes = Vec::new();
    suite::RingProofParams::padding_point().serialize_compressed(&mut bytes).unwrap();
    bytes
}

} // verus!
