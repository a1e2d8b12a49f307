use ark_vrf::reexports::ark_serialize::CanonicalSerialize;
use ring_vrf::codec::serialize_key_pair;
use ring_vrf::codec::truncate_hash;
use ring_vrf::codec::vrf_input_point;
use ring_vrf::codec::IetfVrfSignature;
use ring_vrf::codec::Input;
use ring_vrf::codec::Public;
use ring_vrf::codec::Secret;
use ring_vrf::context::reference_parameters;
use ring_vrf::context::ring_context;
use ring_vrf::context::CryptoEnvironment;
use ring_vrf::ffi::create_key_pair_from_seed;
use ring_vrf::ffi::generate_ring_signature;
use ring_vrf::ffi::get_padding_point;
use ring_vrf::ffi::get_verifier_commitment;
use ring_vrf::ffi::verify_ring_signature;
use ring_vrf::ffi::ietf_vrf_sign;
use ring_vrf::ffi::ietf_vrf_verify;
use ring_vrf::ffi::new_ring_vrf_prover;
use ring_vrf::ffi::new_ring_vrf_verifier;
use ring_vrf::ffi::vrf_get_commitment;
use ring_vrf::ffi::vrf_sign;
use ring_vrf::ffi::vrf_verify;
use ring_vrf::ffi::vrf_verify_ring_signature_against_commitment;
use ring_vrf::ring::padding_key;
use ring_vrf::ring::ring_from_bytes;
use ring_vrf::ring::ring_from_valid_keys;
use ring_vrf::ring_prover::new_secret_from_seed;
use ring_vrf::ring_prover::secret_to_public;
use ring_vrf::ring_prover::signature_from_parts;
use ring_vrf::ring_prover::ProverError;
use ring_vrf::ring_verifier::Verifier;

fn test_environment() -> CryptoEnvironment {
    let params = ark_vrf::suites::bandersnatch::RingProofParams::from_seed(8, [7u8; 32]);
    let mut bytes = Vec::new();
    params.pcs.serialize_uncompressed(&mut bytes).unwrap();
    CryptoEnvironment::new(reference_parameters(&bytes).unwrap())
}

fn key_bytes(index: usize) -> Vec<u8> {
    secret_to_public(&new_secret_from_seed(&index.to_le_bytes())).as_bytes().to_vec()
}

fn run_of_keys(count: usize) -> Vec<u8> {
    (0..count).flat_map(key_bytes).collect()
}

#[test]
fn keys_are_derived_from_seeds_and_decode_again() {
    let secret = new_secret_from_seed(b"seed");
    let again = new_secret_from_seed(b"seed");
    let other = new_secret_from_seed(b"other seed");
    assert_eq!(secret.as_bytes().len(), 32);
    assert_eq!(secret.as_bytes(), again.as_bytes());
    assert_ne!(secret.as_bytes(), other.as_bytes());
    let public = secret_to_public(&secret);
    assert_eq!(public.as_bytes().len(), 32);
    assert_ne!(public.as_bytes(), secret.as_bytes());
    assert_ne!(public.as_bytes(), secret_to_public(&other).as_bytes());
    assert_eq!(Secret::from_bytes(secret.as_bytes()).unwrap().as_bytes(), secret.as_bytes());
    assert_eq!(Public::from_bytes(public.as_bytes()).unwrap().as_bytes(), public.as_bytes());
    assert_eq!(public.clone().as_bytes(), public.as_bytes());
    assert_eq!(secret.clone().as_bytes(), secret.as_bytes());
    let reference = ark_vrf::suites::bandersnatch::Secret::from_seed(b"seed");
    let mut expected = Vec::new();
    reference.public().serialize_compressed(&mut expected).unwrap();
    assert_eq!(public.as_bytes(), &expected[..]);
}

#[test]
fn malformed_keys_are_refused() {
    let public = key_bytes(1);
    assert!(Public::from_bytes(&public).is_some());
    assert!(Public::from_bytes(&public[..31]).is_none());
    let mut longer = public.clone();
    longer.push(0);
    assert!(Public::from_bytes(&longer).is_none());
    assert!(Public::from_bytes(&[0xffu8; 32]).is_none());
    assert!(Public::from_bytes(&[]).is_none());
    assert!(Secret::from_bytes(&[0xffu8; 32]).is_none());
    assert!(Secret::from_bytes(&[1u8; 31]).is_none());
    assert!(Secret::from_bytes(&[1u8; 33]).is_none());
    assert!(Secret::from_bytes(&[1u8; 32]).is_some());
    assert!(Input::from_bytes(&[0xffu8; 32]).is_none());
    assert!(Input::from_bytes(&public).is_some());
}

#[test]
fn input_points_depend_on_the_data() {
    let point = vrf_input_point(b"data").unwrap();
    let again = vrf_input_point(b"data").unwrap();
    let other = vrf_input_point(b"other").unwrap();
    assert_eq!(point.as_bytes().len(), 32);
    assert_eq!(point.as_bytes(), again.as_bytes());
    assert_ne!(point.as_bytes(), other.as_bytes());
    assert_ne!(point.as_bytes(), &b"data"[..]);
    assert!(vrf_input_point(b"").is_some());
    assert!(Input::from_bytes(point.as_bytes()).is_some());
}

#[test]
fn key_pair_is_secret_then_public() {
    let secret = new_secret_from_seed(b"pair");
    let public = secret_to_public(&secret);
    let pair = serialize_key_pair(&secret, &public).unwrap();
    assert_eq!(pair.len(), 64);
    assert_eq!(&pair[..32], secret.as_bytes());
    assert_eq!(&pair[32..], public.as_bytes());
    assert_eq!(create_key_pair_from_seed(b"pair"), Some(pair));
}

#[test]
fn hash_is_cut_to_its_first_32_bytes() {
    let mut full = [0u8; 64];
    for (i, byte) in full.iter_mut().enumerate() {
        *byte = i as u8;
    }
    let cut = truncate_hash(&full);
    let expected: Vec<u8> = (0u8..32).collect();
    assert_eq!(cut.to_vec(), expected);
}

#[test]
fn signature_parts_must_have_their_lengths() {
    let output = [1u8; 32];
    let proof = [2u8; 64];
    let joined = signature_from_parts(&output, &proof, 64).unwrap();
    assert_eq!(joined.len(), 96);
    assert_eq!(&joined[..32], &output[..]);
    assert_eq!(&joined[32..], &proof[..]);
    assert_eq!(signature_from_parts(&output[..31], &proof, 64), Err(ProverError::SerializationError));
    assert_eq!(signature_from_parts(&output, &proof[..63], 64), Err(ProverError::SerializationError));
    assert_eq!(signature_from_parts(&output, &proof, 752), Err(ProverError::SerializationError));
    assert_eq!(signature_from_parts(&output, &[3u8; 752], 752).map(|s| s.len()), Ok(784));
}

#[test]
fn ring_gets_the_padding_point_where_a_slot_holds_no_key() {
    let mut env = test_environment();
    let context = ring_context(&mut env, 3).unwrap();
    let padding = padding_key(&context);
    assert_eq!(padding.as_bytes().len(), 32);
    assert_eq!(get_padding_point(&mut env, 3), Some(padding.as_bytes().to_vec()));
    assert_eq!(get_padding_point(&mut env, 255), Some(padding.as_bytes().to_vec()));
    assert_eq!(get_padding_point(&mut env, 256), None);
    let mut expected = Vec::new();
    ark_vrf::suites::bandersnatch::RingProofParams::padding_point()
        .serialize_compressed(&mut expected)
        .unwrap();
    assert_eq!(padding.as_bytes(), &expected[..]);
    let mut keys = run_of_keys(3);
    for byte in keys[32..64].iter_mut() {
        *byte = 0xff;
    }
    let ring = ring_from_bytes(&keys, &padding);
    assert_eq!(ring.len(), 3);
    assert_eq!(ring[0].as_bytes(), &key_bytes(0)[..]);
    assert_eq!(ring[1].as_bytes(), padding.as_bytes());
    assert_eq!(ring[2].as_bytes(), &key_bytes(2)[..]);
    let cut_short = ring_from_bytes(&keys[..70], &padding);
    assert_eq!(cut_short.len(), 3);
    assert_eq!(cut_short[2].as_bytes(), padding.as_bytes());
    assert_eq!(ring_from_bytes(&[], &padding).len(), 0);
    assert_eq!(ring_from_bytes(&keys[..32], &padding).len(), 1);
    assert_eq!(ring_from_bytes(&keys[..33], &padding).len(), 2);
}

#[test]
fn rings_padded_in_the_same_slots_share_a_commitment() {
    let mut env = test_environment();
    let keys = run_of_keys(4);
    let mut invalid_one = keys.clone();
    let mut invalid_two = keys.clone();
    for byte in invalid_one[64..96].iter_mut() {
        *byte = 0xff;
    }
    for (i, byte) in invalid_two[64..96].iter_mut().enumerate() {
        *byte = 0xf0 | (i as u8 & 0x0f);
    }
    invalid_two[95] = 0xff;
    assert!(Public::from_bytes(&invalid_two[64..96]).is_none());
    let mut moved = keys.clone();
    for byte in moved[32..64].iter_mut() {
        *byte = 0xff;
    }
    let plain = vrf_get_commitment(&new_ring_vrf_verifier(&mut env, &keys).unwrap()).unwrap();
    let one = vrf_get_commitment(&new_ring_vrf_verifier(&mut env, &invalid_one).unwrap()).unwrap();
    let two = vrf_get_commitment(&new_ring_vrf_verifier(&mut env, &invalid_two).unwrap()).unwrap();
    let other = vrf_get_commitment(&new_ring_vrf_verifier(&mut env, &moved).unwrap()).unwrap();
    assert_eq!(plain.len(), 144);
    assert_eq!(one, two);
    assert_ne!(one, plain);
    assert_ne!(one, other);
    let padding = get_padding_point(&mut env, 4).unwrap();
    let mut spelled_out = keys.clone();
    spelled_out[64..96].copy_from_slice(&padding);
    let spelled = vrf_get_commitment(&new_ring_vrf_verifier(&mut env, &spelled_out).unwrap());
    assert_eq!(spelled, Some(one));
}

#[test]
fn verifier_from_a_run_of_keys_wants_whole_keys() {
    let mut env = test_environment();
    let keys = run_of_keys(3);
    assert!(new_ring_vrf_verifier(&mut env, &keys).is_some());
    assert!(new_ring_vrf_verifier(&mut env, &keys[..95]).is_none());
    assert!(new_ring_vrf_verifier(&mut env, &run_of_keys(256)).is_none());
    let verifier = new_ring_vrf_verifier(&mut env, &keys).unwrap();
    assert_eq!(verifier.ring().len(), 3);
    assert_eq!(verifier.ring()[1].as_bytes(), &key_bytes(1)[..]);
    let direct = Verifier::new(&mut env, verifier.ring().clone()).unwrap();
    assert_eq!(
        vrf_get_commitment(&verifier).unwrap(),
        direct.get_commitment().as_bytes().to_vec()
    );
}

#[test]
fn foreign_surface_signs_and_verifies() {
    let mut env = test_environment();
    let keys = run_of_keys(5);
    let secret = new_secret_from_seed(&3usize.to_le_bytes());
    let prover = new_ring_vrf_prover(&mut env, secret.as_bytes(), &keys, 3).unwrap();
    assert_eq!(prover.prover_idx, 3);
    assert_eq!(prover.ring.len(), 5);
    assert_eq!(prover.secret.as_bytes(), secret.as_bytes());
    assert!(new_ring_vrf_prover(&mut env, &[0xffu8; 32], &keys, 3).is_none());
    assert!(new_ring_vrf_prover(&mut env, &secret.as_bytes()[..31], &keys, 3).is_none());
    assert!(new_ring_vrf_prover(&mut env, secret.as_bytes(), &run_of_keys(256), 3).is_none());
    let verifier = new_ring_vrf_verifier(&mut env, &keys).unwrap();
    let signature = vrf_sign(&mut env, &prover, b"input", b"aux").unwrap();
    assert_eq!(signature.len(), 784);
    let hash = vrf_verify(&mut env, &verifier, b"input", b"aux", &signature).unwrap();
    assert_eq!(vrf_verify(&mut env, &verifier, b"input", b"other", &signature), None);
    assert_eq!(vrf_verify(&mut env, &verifier, b"input", b"aux", &signature[..700]), None);
    let commitment = vrf_get_commitment(&verifier).unwrap();
    assert_eq!(
        vrf_verify_ring_signature_against_commitment(
            &mut env,
            &commitment,
            5,
            b"input",
            b"aux",
            &signature
        ),
        Some(hash)
    );
    assert_eq!(
        vrf_verify_ring_signature_against_commitment(
            &mut env,
            &commitment[..143],
            5,
            b"input",
            b"aux",
            &signature
        ),
        None
    );
    assert_eq!(
        vrf_verify_ring_signature_against_commitment(
            &mut env,
            &commitment,
            5,
            b"other",
            b"aux",
            &signature
        ),
        None
    );
    let ietf = ietf_vrf_sign(&prover, b"input", b"aux").unwrap();
    assert_eq!(ietf.len(), 96);
    assert_eq!(ietf_vrf_verify(&verifier, b"input", b"aux", &ietf, 3), Some(hash));
    assert_eq!(ietf_vrf_verify(&verifier, b"input", b"aux", &ietf, 2), None);
    assert_eq!(ietf_vrf_verify(&verifier, b"input", b"aux", &ietf, 5), None);
    let parsed = IetfVrfSignature::deserialize_compressed(&ietf).unwrap();
    assert_eq!(parsed.output_bytes(), &ietf[..32]);
    assert_eq!(parsed.proof_bytes(), &ietf[32..]);
    assert_eq!(parsed.serialize_compressed(), ietf);
    assert!(IetfVrfSignature::deserialize_compressed(&ietf[..95]).is_none());
    let mut bad_proof = ietf.clone();
    for byte in bad_proof[64..96].iter_mut() {
        *byte = 0xff;
    }
    assert!(IetfVrfSignature::deserialize_compressed(&bad_proof).is_none());
    let mut bad_output = ietf.clone();
    for byte in bad_output[..32].iter_mut() {
        *byte = 0xff;
    }
    assert!(IetfVrfSignature::deserialize_compressed(&bad_output).is_none());
}

#[test]
fn strict_surface_takes_no_malformed_key() {
    let mut env = test_environment();
    let keys = run_of_keys(4);
    let ring = ring_from_valid_keys(&keys).unwrap();
    assert_eq!(ring.len(), 4);
    assert_eq!(ring[3].as_bytes(), &key_bytes(3)[..]);
    assert!(ring_from_valid_keys(&keys[..127]).is_none());
    assert_eq!(ring_from_valid_keys(&[]).map(|ring| ring.len()), Some(0));
    let mut broken = keys.clone();
    for byte in broken[32..64].iter_mut() {
        *byte = 0xff;
    }
    assert!(ring_from_valid_keys(&broken).is_none());
    let secret = new_secret_from_seed(&1usize.to_le_bytes());
    let mut prover_key = secret.as_bytes().to_vec();
    prover_key.extend_from_slice(&key_bytes(1));
    let signature =
        generate_ring_signature(&mut env, &keys, b"input", b"aux", 1, &prover_key).unwrap();
    assert_eq!(signature.len(), 784);
    let hash = verify_ring_signature(&mut env, &keys, b"input", b"aux", &signature).unwrap();
    assert_eq!(verify_ring_signature(&mut env, &keys, b"input", b"other", &signature), None);
    assert_eq!(verify_ring_signature(&mut env, &broken, b"input", b"aux", &signature), None);
    assert_eq!(generate_ring_signature(&mut env, &broken, b"input", b"aux", 1, &prover_key), None);
    let misplaced =
        generate_ring_signature(&mut env, &keys, b"input", b"aux", 4, &prover_key).unwrap();
    assert_eq!(misplaced.len(), 784);
    assert_eq!(verify_ring_signature(&mut env, &keys, b"input", b"aux", &misplaced), None);
    assert_eq!(generate_ring_signature(&mut env, &keys, b"input", b"aux", 255, &prover_key), None);
    assert_eq!(
        generate_ring_signature(&mut env, &keys, b"input", b"aux", 1, &prover_key[..31]),
        None
    );
    assert_eq!(generate_ring_signature(&mut env, &keys, b"input", b"aux", 1, &[0xffu8; 64]), None);
    let commitment = get_verifier_commitment(&mut env, &keys).unwrap();
    assert_eq!(commitment.len(), 144);
    assert_eq!(
        commitment,
        vrf_get_commitment(&new_ring_vrf_verifier(&mut env, &keys).unwrap()).unwrap()
    );
    assert_eq!(get_verifier_commitment(&mut env, &broken), None);
    assert_eq!(get_verifier_commitment(&mut env, &run_of_keys(256)), None);
    assert_eq!(
        vrf_verify_ring_signature_against_commitment(
            &mut env,
            &commitment,
            4,
            b"input",
            b"aux",
            &signature
        ),
        Some(hash)
    );
}

#[test]
fn signing_for_a_run_of_keys_asks_for_the_context_only_when_all_decodes() {
    let mut env = test_environment();
    let keys = run_of_keys(4);
    let secret = new_secret_from_seed(&1usize.to_le_bytes());
    let mut prover_key = secret.as_bytes().to_vec();
    prover_key.extend_from_slice(&key_bytes(1));
    let mut broken = keys.clone();
    for byte in broken[..32].iter_mut() {
        *byte = 0xff;
    }
    assert_eq!(generate_ring_signature(&mut env, &broken, b"input", b"aux", 1, &prover_key), None);
    assert_eq!(
        generate_ring_signature(&mut env, &keys, b"input", b"aux", 1, &prover_key[..16]),
        None
    );
    assert_eq!(generate_ring_signature(&mut env, &keys, b"input", b"aux", 1, &[0xffu8; 32]), None);
    assert_eq!(
        generate_ring_signature(&mut env, &run_of_keys(256), b"input", b"aux", 1, &prover_key),
        None
    );
    assert_eq!(env.sizes(), Vec::<usize>::new());
    assert_eq!(generate_ring_signature(&mut env, &keys, b"input", b"aux", 255, &prover_key), None);
    assert_eq!(env.sizes(), vec![4]);
    assert!(generate_ring_signature(&mut env, &run_of_keys(2), b"input", b"aux", 1, &prover_key)
        .is_some());
    assert_eq!(env.sizes(), vec![2, 4]);
    assert!(generate_ring_signature(&mut env, &keys, b"input", b"aux", 1, &prover_key).is_some());
    assert_eq!(env.sizes(), vec![4, 2]);
}

#[test]
fn room_for_keys_is_the_domain_less_the_rows_that_are_taken() {
    assert_eq!(ring_vrf::srs::domain_rows(0), 512);
    assert_eq!(ring_vrf::srs::domain_rows(4), 512);
    assert_eq!(ring_vrf::srs::domain_rows(255), 512);
    assert_eq!(ring_vrf::srs::domain_rows(256), 1024);
    assert_eq!(ring_vrf::srs::domain_rows(1023), 2048);
    assert_eq!(ring_vrf::srs::domain_rows(1791), 2048);
    assert_eq!(ring_vrf::srs::domain_rows(1792), 4096);
    assert_eq!(ring_vrf::srs::key_room_of(0), 255);
    assert_eq!(ring_vrf::srs::key_room_of(4), 255);
    assert_eq!(ring_vrf::srs::key_room_of(255), 255);
    assert_eq!(ring_vrf::srs::key_room_of(256), 767);
    assert_eq!(ring_vrf::srs::key_room_of(1023), 1791);
    assert_eq!(ring_vrf::srs::key_room_of(0x3fff_feff), 0x3fff_feff);
    let params = ark_vrf::suites::bandersnatch::RingProofParams::from_seed(4, [7u8; 32]);
    assert_eq!(params.max_ring_size(), ring_vrf::srs::key_room_of(4));
}

#[test]
fn bits_of_a_scalar_are_read_from_the_lowest_up() {
    let mut scalar = [0u8; 32];
    scalar[0] = 0b1010_0110;
    scalar[1] = 0b0000_0101;
    scalar[31] = 0b0001_0000;
    let set: Vec<usize> =
        (0..256).filter(|bit| ring_vrf::accumulator::scalar_bit(&scalar, *bit)).collect();
    assert_eq!(set, vec![1, 2, 5, 7, 8, 10, 252]);
    assert_eq!(ring_vrf::accumulator::modulus_of_bits(0), 1);
    assert_eq!(ring_vrf::accumulator::modulus_of_bits(5), 32);
    assert_eq!(ring_vrf::accumulator::modulus_of_bits(7), 128);
}

#[test]
fn suite_points_are_those_of_the_curve_library() {
    let mut padding = Vec::new();
    ark_vrf::suites::bandersnatch::RingProofParams::padding_point()
        .serialize_compressed(&mut padding)
        .unwrap();
    let mut env = test_environment();
    assert_eq!(get_padding_point(&mut env, 1), Some(padding.clone()));
    assert_eq!(get_padding_point(&mut env, 200), Some(padding.clone()));
    assert_eq!(padding[..4], [146, 202, 121, 230]);
    let mut base = Vec::new();
    <ark_vrf::suites::bandersnatch::BandersnatchSha512Ell2 as ark_vrf::ring::RingSuite>::ACCUMULATOR_BASE
        .serialize_compressed(&mut base)
        .unwrap();
    assert_eq!(ring_vrf::points::accumulator_base().to_vec(), base);
    let mut blinding = Vec::new();
    <ark_vrf::suites::bandersnatch::BandersnatchSha512Ell2 as ark_vrf::pedersen::PedersenSuite>::BLINDING_BASE
        .serialize_compressed(&mut blinding)
        .unwrap();
    assert_eq!(ring_vrf::points::blinding_base().to_vec(), blinding);
}

#[test]
fn sums_of_an_ordinary_key_are_clear() {
    let key = key_bytes(3);
    let mut blinding = [0u8; 32];
    blinding[0] = 0x35;
    blinding[7] = 0x99;
    assert!(ring_vrf::accumulator::accumulation_is_clear(&key, &blinding));
    assert!(ring_vrf::accumulator::accumulation_is_clear(&key, &[0u8; 32]));
}
