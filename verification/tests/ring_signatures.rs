use ark_vrf::reexports::ark_ec::CurveGroup;
use ark_vrf::reexports::ark_serialize::CanonicalDeserialize;
use ark_vrf::reexports::ark_serialize::CanonicalSerialize;
use ring_vrf::codec::Public;
use ring_vrf::codec::RingCommitment;
use ring_vrf::codec::RingVrfSignature;
use ring_vrf::commitment::Commitment;
use ring_vrf::commitment::CommitmentVerifier;
use ring_vrf::commitment::Error;
use ring_vrf::context::reference_parameters;
use ring_vrf::context::CryptoEnvironment;
use ring_vrf::context::RingContextError;
use ring_vrf::ring_prover::new_secret_from_seed;
use ring_vrf::ring_prover::secret_to_public;
use ring_vrf::ring_prover::Prover;
use ring_vrf::ring_prover::ProverError;
use ring_vrf::ring_verifier::Verifier;
use ring_vrf::ring_verifier::VerifierError;

fn reference_string(ring_size: usize) -> Vec<u8> {
    let params = ark_vrf::suites::bandersnatch::RingProofParams::from_seed(ring_size, [7u8; 32]);
    let mut bytes = Vec::new();
    params.pcs.serialize_uncompressed(&mut bytes).unwrap();
    bytes
}

fn environment() -> CryptoEnvironment {
    CryptoEnvironment::new(reference_parameters(&reference_string(8)).unwrap())
}

fn ring_of(size: usize) -> Vec<Public> {
    (0..size).map(|i| secret_to_public(&new_secret_from_seed(&i.to_le_bytes()))).collect()
}

fn prover_at(ring: &[Public], index: usize) -> Prover {
    Prover::new(ring.to_vec(), new_secret_from_seed(&index.to_le_bytes()), index)
}

#[test]
fn ring_signature_round_trip_gives_the_derived_hash() {
    let mut env = environment();
    let ring = ring_of(6);
    let prover = prover_at(&ring, 2);
    let verifier = Verifier::new(&mut env, ring).unwrap();
    let signature = prover.ring_vrf_sign(&mut env, b"input", b"aux").unwrap();
    assert_eq!(signature.len(), 784);
    let hash = verifier.ring_vrf_verify(&mut env, b"input", b"aux", &signature).unwrap();
    let ietf = prover.ietf_vrf_sign(b"input", b"aux").unwrap();
    assert_eq!(ring_vrf::sign::bandersnatch_output_hash(&ietf), Some(hash));
    assert_eq!(&signature[..32], &ietf[..32]);
}

#[test]
fn output_hash_is_the_same_across_calls_modes_and_aux() {
    let mut env = environment();
    let ring = ring_of(4);
    let prover = prover_at(&ring, 1);
    let verifier = Verifier::new(&mut env, ring).unwrap();
    let first = prover.ring_vrf_sign(&mut env, b"ticket", b"one").unwrap();
    let second = prover.ring_vrf_sign(&mut env, b"ticket", b"two").unwrap();
    assert_ne!(first, second);
    assert_eq!(&first[..32], &second[..32]);
    let hash_one = verifier.ring_vrf_verify(&mut env, b"ticket", b"one", &first).unwrap();
    let hash_two = verifier.ring_vrf_verify(&mut env, b"ticket", b"two", &second).unwrap();
    assert_eq!(hash_one, hash_two);
    let ietf_one = prover.ietf_vrf_sign(b"ticket", b"three").unwrap();
    let ietf_two = prover.ietf_vrf_sign(b"ticket", b"three").unwrap();
    assert_eq!(ietf_one, ietf_two);
    let ietf_other_aux = prover.ietf_vrf_sign(b"ticket", b"four").unwrap();
    assert_ne!(ietf_one, ietf_other_aux);
    assert_eq!(&ietf_one[..32], &ietf_other_aux[..32]);
    assert_eq!(verifier.ietf_vrf_verify(b"ticket", b"three", &ietf_one, 1), Ok(hash_one));
    assert_eq!(verifier.ietf_vrf_verify(b"ticket", b"four", &ietf_other_aux, 1), Ok(hash_one));
    let other_input = prover.ietf_vrf_sign(b"other", b"three").unwrap();
    assert_ne!(&other_input[..32], &ietf_one[..32]);
}

#[test]
fn verifier_and_commitment_verifier_agree() {
    let mut env = environment();
    let ring = ring_of(5);
    let prover = prover_at(&ring, 3);
    let verifier = Verifier::new(&mut env, ring).unwrap();
    let commitment = verifier.get_commitment();
    assert_eq!(commitment.as_bytes().len(), 144);
    let by_commitment = CommitmentVerifier::new(commitment, 5);
    assert_eq!(by_commitment.get_ring_size(), 5);
    assert_eq!(by_commitment.get_commitment().as_bytes(), verifier.get_commitment().as_bytes());
    let signature = prover.ring_vrf_sign(&mut env, b"in", b"aux").unwrap();
    let with_keys = verifier.ring_vrf_verify(&mut env, b"in", b"aux", &signature);
    let without_keys = by_commitment.ring_vrf_verify(&mut env, b"in", b"aux", &signature);
    assert!(with_keys.is_ok());
    assert_eq!(with_keys.ok(), without_keys.ok());
    assert_eq!(
        verifier.ring_vrf_verify(&mut env, b"in", b"other", &signature),
        Err(VerifierError::VerificationFailed)
    );
    assert_eq!(
        by_commitment.ring_vrf_verify(&mut env, b"in", b"other", &signature),
        Err(Error::SignatureVerificationFailed)
    );
    assert_eq!(
        verifier.ring_vrf_verify(&mut env, b"in", b"aux", &signature[..783]),
        Err(VerifierError::DeserializationError)
    );
    assert_eq!(
        by_commitment.ring_vrf_verify(&mut env, b"in", b"aux", &signature[..783]),
        Err(Error::DeserializationError)
    );
    let wrong_size = Commitment::new(verifier.get_commitment(), 300);
    assert_eq!(
        wrong_size.ring_vrf_verify(&mut env, b"in", b"aux", &signature),
        Err(Error::RingContextError(RingContextError::SrsCreationError))
    );
}

#[test]
fn signature_for_one_input_fails_for_another() {
    let mut env = environment();
    let ring = ring_of(4);
    let prover = prover_at(&ring, 0);
    let verifier = Verifier::new(&mut env, ring).unwrap();
    let signature = prover.ring_vrf_sign(&mut env, b"a", b"").unwrap();
    assert!(verifier.ring_vrf_verify(&mut env, b"a", b"", &signature).is_ok());
    assert_eq!(
        verifier.ring_vrf_verify(&mut env, b"b", b"", &signature),
        Err(VerifierError::VerificationFailed)
    );
    let ietf = prover.ietf_vrf_sign(b"a", b"").unwrap();
    assert!(verifier.ietf_vrf_verify(b"a", b"", &ietf, 0).is_ok());
    assert_eq!(
        verifier.ietf_vrf_verify(b"b", b"", &ietf, 0),
        Err(VerifierError::VerificationFailed)
    );
}

#[test]
fn member_at_index_two_verifies_anonymously_but_not_under_another_index() {
    let mut env = environment();
    let ring = ring_of(6);
    let prover = prover_at(&ring, 2);
    let verifier = Verifier::new(&mut env, ring).unwrap();
    let signature = prover.ring_vrf_sign(&mut env, b"input", b"aux").unwrap();
    assert!(verifier.ring_vrf_verify(&mut env, b"input", b"aux", &signature).is_ok());
    let ietf = prover.ietf_vrf_sign(b"input", b"aux").unwrap();
    assert!(verifier.ietf_vrf_verify(b"input", b"aux", &ietf, 2).is_ok());
    assert_eq!(
        verifier.ietf_vrf_verify(b"input", b"aux", &ietf, 3),
        Err(VerifierError::VerificationFailed)
    );
    assert_eq!(
        verifier.ietf_vrf_verify(b"input", b"aux", &ietf, 6),
        Err(VerifierError::InvalidSignerKeyIndex)
    );
    assert_eq!(
        verifier.ietf_vrf_verify(b"input", b"aux", &ietf[..95], 2),
        Err(VerifierError::DeserializationError)
    );
}

#[test]
fn prover_with_the_wrong_index_signs_what_no_verifier_accepts() {
    let mut env = environment();
    let ring = ring_of(4);
    let misplaced = Prover::new(ring.clone(), new_secret_from_seed(&1usize.to_le_bytes()), 2);
    let verifier = Verifier::new(&mut env, ring.clone()).unwrap();
    let signature = misplaced.ring_vrf_sign(&mut env, b"input", b"aux").unwrap();
    assert_eq!(
        verifier.ring_vrf_verify(&mut env, b"input", b"aux", &signature),
        Err(VerifierError::VerificationFailed)
    );
}

#[test]
fn prover_past_the_rings_end_signs_what_no_verifier_accepts() {
    let mut env = environment();
    let ring = ring_of(4);
    let verifier = Verifier::new(&mut env, ring.clone()).unwrap();
    for index in [4usize, 5, 100, 254] {
        let outside = Prover::new(ring.clone(), new_secret_from_seed(&1usize.to_le_bytes()), index);
        let signature = outside.ring_vrf_sign(&mut env, b"input", b"aux").unwrap();
        assert_eq!(signature.len(), 784);
        assert!(RingVrfSignature::deserialize_compressed(&signature).is_some());
        assert_eq!(
            verifier.ring_vrf_verify(&mut env, b"input", b"aux", &signature),
            Err(VerifierError::VerificationFailed)
        );
    }
}

#[test]
fn prover_past_the_room_for_keys_is_refused() {
    let mut env = environment();
    let ring = ring_of(4);
    for index in [255usize, 256, 511, 512, usize::MAX] {
        let outside = Prover::new(ring.clone(), new_secret_from_seed(&1usize.to_le_bytes()), index);
        assert_eq!(
            outside.ring_vrf_sign(&mut env, b"input", b"aux"),
            Err(ProverError::InvalidProverIndex)
        );
    }
    assert_eq!(env.sizes(), vec![4]);
}

fn encoded(point: ark_vrf::suites::bandersnatch::AffinePoint) -> Vec<u8> {
    let mut bytes = Vec::new();
    point.serialize_compressed(&mut bytes).unwrap();
    bytes
}

fn accumulator_base() -> ark_vrf::suites::bandersnatch::AffinePoint {
    <ark_vrf::suites::bandersnatch::BandersnatchSha512Ell2 as ark_vrf::ring::RingSuite>::ACCUMULATOR_BASE
}

fn blinding_base() -> ark_vrf::suites::bandersnatch::AffinePoint {
    <ark_vrf::suites::bandersnatch::BandersnatchSha512Ell2 as ark_vrf::pedersen::PedersenSuite>::BLINDING_BASE
}

fn neutral_encoding() -> [u8; 32] {
    let mut neutral = [0u8; 32];
    neutral[0] = 1;
    neutral
}

#[test]
fn zero_is_a_secret_and_the_neutral_point_is_its_public_key() {
    let neutral = neutral_encoding();
    let key = Public::from_bytes(&neutral).unwrap();
    assert_eq!(key.as_bytes(), &neutral[..]);
    assert!(!key.is_ring_member());
    let zero = ring_vrf::codec::Secret::from_bytes(&[0u8; 32]).unwrap();
    assert_eq!(secret_to_public(&zero).as_bytes(), &neutral[..]);
    assert_eq!(ring_vrf::sign::bandersnatch_derive_public(&[0u8; 32]), Some(neutral.to_vec()));
    let signature = ring_vrf::sign::bandersnatch_sign(&[0u8; 32], b"input", b"context").unwrap();
    assert_eq!(signature.len(), 96);
    assert_eq!(&signature[..32], &neutral[..]);
    let hash = ring_vrf::sign::bandersnatch_verify(&neutral, b"input", b"context", &signature);
    assert!(hash.is_some());
    assert_eq!(hash, ring_vrf::sign::bandersnatch_output_hash(&signature));
    assert_eq!(ring_vrf::sign::bandersnatch_verify(&neutral, b"input", b"other", &signature), None);
    let ordinary = secret_to_public(&new_secret_from_seed(b"seed"));
    assert!(ordinary.is_ring_member());
    assert_eq!(
        ring_vrf::sign::bandersnatch_verify(ordinary.as_bytes(), b"input", b"context", &signature),
        None
    );
}

#[test]
fn ring_that_holds_the_neutral_point_is_not_committed_to_nor_signed_in() {
    let mut env = environment();
    let ring = ring_of(3);
    assert!(ring_vrf::ring::ring_is_sound(&ring));
    let neutral = neutral_encoding();
    let mut with_neutral: Vec<u8> = Vec::new();
    for (place, key) in ring.iter().enumerate() {
        if place == 1 {
            with_neutral.extend_from_slice(&neutral);
        } else {
            with_neutral.extend_from_slice(key.as_bytes());
        }
    }
    assert!(ring_vrf::ffi::new_ring_vrf_verifier(&mut env, &with_neutral).is_none());
    assert_eq!(ring_vrf::ffi::get_verifier_commitment(&mut env, &with_neutral), None);
    let held = ring_vrf::ring::ring_from_valid_keys(&with_neutral).unwrap();
    assert_eq!(held[1].as_bytes(), &neutral[..]);
    assert!(!ring_vrf::ring::ring_is_sound(&held));
    let secret = new_secret_from_seed(&0usize.to_le_bytes());
    let prover =
        ring_vrf::ffi::new_ring_vrf_prover(&mut env, secret.as_bytes(), &with_neutral, 0).unwrap();
    assert_eq!(prover.ring.len(), 3);
    assert_eq!(prover.ring[1].as_bytes(), &neutral[..]);
    assert_eq!(
        prover.ring_vrf_sign(&mut env, b"input", b"aux"),
        Err(ProverError::InvalidProverIndex)
    );
    assert_eq!(ring_vrf::ffi::vrf_sign(&mut env, &prover, b"input", b"aux"), None);
    let named = prover.ietf_vrf_sign(b"input", b"aux").unwrap();
    assert_eq!(named.len(), 96);
    assert_eq!(
        ring_vrf::ffi::generate_ring_signature(
            &mut env,
            &with_neutral,
            b"input",
            b"aux",
            0,
            secret.as_bytes()
        ),
        None
    );
    let sound = prover_at(&ring, 0).ring_vrf_sign(&mut env, b"input", b"aux").unwrap();
    assert_eq!(
        ring_vrf::ffi::verify_ring_signature(&mut env, &with_neutral, b"input", b"aux", &sound),
        None
    );
}

#[test]
fn prover_with_the_zero_secret_signs_in_a_sound_ring() {
    let mut env = environment();
    let ring = ring_of(3);
    let keys: Vec<u8> = ring.iter().flat_map(|key| key.as_bytes().to_vec()).collect();
    let prover = ring_vrf::ffi::new_ring_vrf_prover(&mut env, &[0u8; 32], &keys, 1).unwrap();
    assert_eq!(prover.secret.as_bytes(), &[0u8; 32][..]);
    let verifier = Verifier::new(&mut env, ring).unwrap();
    let signature = prover.ring_vrf_sign(&mut env, b"input", b"aux").unwrap();
    assert_eq!(signature.len(), 784);
    assert_eq!(&signature[..32], &neutral_encoding()[..]);
    assert_eq!(
        verifier.ring_vrf_verify(&mut env, b"input", b"aux", &signature),
        Err(VerifierError::VerificationFailed)
    );
}

#[test]
fn key_that_cancels_the_accumulator_base_is_refused_at_the_provers_index() {
    let mut env = environment();
    let mut ring = ring_of(3);
    let cancelling = Public::from_bytes(&encoded(-accumulator_base())).unwrap();
    ring[1] = cancelling;
    let verifier = Verifier::new(&mut env, ring.clone()).unwrap();
    let at_the_key = Prover::new(ring.clone(), new_secret_from_seed(&1usize.to_le_bytes()), 1);
    assert_eq!(
        at_the_key.ring_vrf_sign(&mut env, b"input", b"aux"),
        Err(ProverError::InvalidProverIndex)
    );
    assert!(at_the_key.ietf_vrf_sign(b"input", b"aux").is_ok());
    let beside_it = prover_at(&ring, 0);
    let signature = beside_it.ring_vrf_sign(&mut env, b"input", b"aux").unwrap();
    assert!(verifier.ring_vrf_verify(&mut env, b"input", b"aux", &signature).is_ok());
}

fn blinding_is_odd(secret: &ring_vrf::codec::Secret, data: &[u8], aux: &[u8]) -> bool {
    let secret =
        ark_vrf::suites::bandersnatch::Secret::deserialize_compressed(secret.as_bytes()).unwrap();
    let input = ark_vrf::suites::bandersnatch::Input::new(data).unwrap();
    let blinding = <ark_vrf::suites::bandersnatch::BandersnatchSha512Ell2 as ark_vrf::pedersen::PedersenSuite>::blinding(
        &secret.scalar,
        &input.0,
        aux,
    );
    let mut bytes = Vec::new();
    blinding.serialize_compressed(&mut bytes).unwrap();
    bytes[0] % 2 == 1
}

#[test]
fn key_that_cancels_a_later_sum_is_refused_when_the_blinding_meets_it() {
    let mut env = environment();
    let mut ring = ring_of(3);
    let sum = (accumulator_base() + blinding_base()).into_affine();
    ring[1] = Public::from_bytes(&encoded(-sum)).unwrap();
    let verifier = Verifier::new(&mut env, ring.clone()).unwrap();
    let secret = new_secret_from_seed(&1usize.to_le_bytes());
    let prover = Prover::new(ring, secret.clone(), 1);
    let mut refused = 0;
    let mut signed = 0;
    for round in 0u8..16 {
        let result = prover.ring_vrf_sign(&mut env, &[round], b"aux");
        assert_eq!(result.is_err(), blinding_is_odd(&secret, &[round], b"aux"));
        match result {
            Ok(signature) => {
                signed += 1;
                assert_eq!(signature.len(), 784);
                assert_eq!(
                    verifier.ring_vrf_verify(&mut env, &[round], b"aux", &signature),
                    Err(VerifierError::VerificationFailed)
                );
            }
            Err(error) => {
                refused += 1;
                assert_eq!(error, ProverError::InvalidProverIndex);
            }
        }
    }
    assert!(signed > 0);
    assert!(refused > 0);
}
