use ring_vrf::codec::Secret;
use ring_vrf::pvm::failure_result;
use ring_vrf::pvm::finished_result;
use ring_vrf::pvm::gas_from_limit;
use ring_vrf::pvm::initial_state;
use ring_vrf::pvm::on_interrupt;
use ring_vrf::pvm::ExecutionStatus;
use ring_vrf::pvm::Interrupt;
use ring_vrf::pvm::MemoryPage;
use ring_vrf::pvm::RunState;
use ring_vrf::ring_prover::new_secret_from_seed;
use ring_vrf::ring_prover::secret_to_public;
use ring_vrf::sign::bandersnatch_derive_public;
use ring_vrf::sign::bandersnatch_new_secret;
use ring_vrf::sign::bandersnatch_output_hash;
use ring_vrf::sign::bandersnatch_sign;
use ring_vrf::sign::bandersnatch_sign_impl;
use ring_vrf::sign::bandersnatch_verify;
use ring_vrf::sign::bandersnatch_verify_impl;
use ring_vrf::sign::BandersnatchSignature;

#[test]
fn test_bandersnatch_signatures() {
    let secret: Secret = new_secret_from_seed(&42_usize.to_le_bytes());

    let signature =
        bandersnatch_sign_impl(secret.clone(), "message".as_bytes(), "context".as_bytes());

    bandersnatch_verify_impl(
        secret_to_public(&secret),
        "message".as_bytes(),
        "context".as_bytes(),
        signature,
    )
    .unwrap();
}

#[test]
fn single_signer_signature_is_bound_to_message_context_and_key() {
    let secret = new_secret_from_seed(&42_usize.to_le_bytes());
    let public = secret_to_public(&secret);
    let other = secret_to_public(&new_secret_from_seed(&43_usize.to_le_bytes()));
    let sign = || bandersnatch_sign_impl(secret.clone(), b"message", b"context");
    let bytes = sign().serialize_compressed();
    assert_eq!(bytes.len(), 96);
    let hash = bandersnatch_verify_impl(public.clone(), b"message", b"context", sign()).unwrap();
    assert_eq!(bandersnatch_output_hash(&bytes), Some(hash));
    assert_eq!(bandersnatch_verify_impl(public.clone(), b"other", b"context", sign()), Err(()));
    assert_eq!(bandersnatch_verify_impl(public.clone(), b"message", b"other", sign()), Err(()));
    assert_eq!(bandersnatch_verify_impl(other, b"message", b"context", sign()), Err(()));
    let parsed = BandersnatchSignature::deserialize_compressed(&bytes).unwrap();
    assert_eq!(parsed.serialize_compressed(), bytes);
    assert!(BandersnatchSignature::deserialize_compressed(&bytes[..95]).is_none());
}

#[test]
fn single_signer_surface_works_on_encoded_values() {
    let secret = bandersnatch_new_secret(b"seed").unwrap();
    assert_eq!(secret.len(), 32);
    assert_eq!(secret, new_secret_from_seed(b"seed").as_bytes().to_vec());
    let public = bandersnatch_derive_public(&secret).unwrap();
    assert_eq!(public.len(), 32);
    assert_eq!(public, secret_to_public(&new_secret_from_seed(b"seed")).as_bytes().to_vec());
    assert_eq!(bandersnatch_derive_public(&[0xffu8; 32]), None);
    assert_eq!(bandersnatch_derive_public(&secret[..31]), None);
    let signature = bandersnatch_sign(&secret, b"message", b"context").unwrap();
    assert_eq!(signature.len(), 96);
    assert_eq!(bandersnatch_sign(&secret, b"message", b"context"), Some(signature.clone()));
    assert_eq!(bandersnatch_sign(&[0xffu8; 32], b"message", b"context"), None);
    let hash = bandersnatch_verify(&public, b"message", b"context", &signature).unwrap();
    assert_eq!(bandersnatch_output_hash(&signature), Some(hash));
    assert_eq!(bandersnatch_verify(&public, b"message", b"other", &signature), None);
    assert_eq!(bandersnatch_verify(&public, b"other", b"context", &signature), None);
    assert_eq!(bandersnatch_verify(&public[..31], b"message", b"context", &signature), None);
    assert_eq!(bandersnatch_verify(&[0xffu8; 32], b"message", b"context", &signature), None);
    assert_eq!(bandersnatch_verify(&public, b"message", b"context", &signature[..95]), None);
    assert_eq!(bandersnatch_output_hash(&signature[..95]), None);
    assert_eq!(bandersnatch_output_hash(&[0xffu8; 96]), None);
    let mut tampered = signature.clone();
    tampered[70] ^= 1;
    assert_eq!(bandersnatch_verify(&public, b"message", b"context", &tampered), None);
}

#[test]
fn interrupts_decide_how_a_run_goes_on() {
    let start = initial_state();
    assert_eq!(start, RunState { current_pc: 0, segfault_address: 0 });
    let state = RunState { current_pc: 7, segfault_address: 0 };
    assert_eq!(
        on_interrupt(state, Interrupt::Step, Some(12)),
        (RunState { current_pc: 12, segfault_address: 0 }, None)
    );
    assert_eq!(
        on_interrupt(state, Interrupt::Step, None),
        (RunState { current_pc: 0, segfault_address: 0 }, None)
    );
    assert_eq!(on_interrupt(state, Interrupt::Ecalli, Some(12)), (state, None));
    assert_eq!(
        on_interrupt(state, Interrupt::Finished, Some(12)),
        (state, Some(ExecutionStatus::Success))
    );
    assert_eq!(on_interrupt(state, Interrupt::Trap, None), (state, Some(ExecutionStatus::Trap)));
    assert_eq!(
        on_interrupt(state, Interrupt::NotEnoughGas, None),
        (state, Some(ExecutionStatus::OutOfGas))
    );
    assert_eq!(
        on_interrupt(state, Interrupt::Segfault(0x4000), Some(9)),
        (RunState { current_pc: 7, segfault_address: 0x4000 }, Some(ExecutionStatus::Segfault))
    );
}

#[test]
fn results_of_a_run_are_reported_in_full() {
    assert_eq!(gas_from_limit(0), 0);
    assert_eq!(gas_from_limit(10000), 10000);
    assert_eq!(gas_from_limit(i64::MAX as u64), i64::MAX);
    assert_eq!(gas_from_limit(i64::MAX as u64 + 1), i64::MIN);
    assert_eq!(gas_from_limit(u64::MAX), -1);
    let failed = failure_result(ExecutionStatus::ProgramError, 0, 10000);
    assert_eq!(failed.status, ExecutionStatus::ProgramError);
    assert_eq!(failed.final_pc, 0);
    assert!(failed.pages.is_empty());
    assert_eq!(failed.registers, [0u64; 13]);
    assert_eq!(failed.gas_remaining, 10000);
    assert_eq!(failed.segfault_address, 0);
    let crashed = failure_result(ExecutionStatus::InstanceRunError, 33, u64::MAX);
    assert_eq!(crashed.final_pc, 33);
    assert_eq!(crashed.gas_remaining, -1);
    let page = MemoryPage { address: 0x20000, data: vec![0x78, 0x56, 0x34, 0x12], is_writable: true };
    let mut registers = [0u64; 13];
    registers[2] = 0xdeadbeef;
    let done = finished_result(
        ExecutionStatus::Trap,
        RunState { current_pc: 3, segfault_address: 5 },
        4,
        vec![page],
        registers,
        9000,
    );
    assert_eq!(done.status, ExecutionStatus::Trap);
    assert_eq!(done.final_pc, 4);
    assert_eq!(done.pages.len(), 1);
    assert_eq!(done.pages[0].address, 0x20000);
    assert_eq!(done.pages[0].data, vec![0x78, 0x56, 0x34, 0x12]);
    assert!(done.pages[0].is_writable);
    assert_eq!(done.registers[2], 0xdeadbeef);
    assert_eq!(done.gas_remaining, 9000);
    assert_eq!(done.segfault_address, 5);
    let codes: Vec<u32> = [
        ExecutionStatus::Success,
        ExecutionStatus::EngineError,
        ExecutionStatus::ProgramError,
        ExecutionStatus::ModuleError,
        ExecutionStatus::InstantiationError,
        ExecutionStatus::MemoryError,
        ExecutionStatus::Trap,
        ExecutionStatus::OutOfGas,
        ExecutionStatus::Segfault,
        ExecutionStatus::InstanceRunError,
        ExecutionStatus::UnknownError,
    ]
    .iter()
    .map(|status| status.code())
    .collect();
    assert_eq!(codes, (0u32..11).collect::<Vec<u32>>());
}

#[test]
fn single_signer_signature_is_the_provers_and_keeps_its_output_across_contexts() {
    let secret = new_secret_from_seed(b"signer");
    let prover = ring_vrf::ring_prover::Prover::new(Vec::new(), secret.clone(), 0);
    let one = bandersnatch_sign_impl(secret.clone(), b"message", b"one").serialize_compressed();
    let two = bandersnatch_sign_impl(secret.clone(), b"message", b"two").serialize_compressed();
    assert_eq!(one.len(), 96);
    assert_eq!(one, prover.ietf_vrf_sign(b"message", b"one").unwrap());
    assert_eq!(two, prover.ietf_vrf_sign(b"message", b"two").unwrap());
    assert_eq!(&one[..32], &two[..32]);
    assert_ne!(&one[32..], &two[32..]);
    assert_eq!(bandersnatch_sign(secret.as_bytes(), b"message", b"one"), Some(one.clone()));
    assert_eq!(bandersnatch_sign(&[0xffu8; 32], b"message", b"one"), None);
    assert_eq!(bandersnatch_sign(&secret.as_bytes()[..31], b"message", b"one"), None);
    let made = ring_vrf::sign::try_bandersnatch_sign(secret, b"message", b"one").unwrap();
    assert_eq!(made.serialize_compressed(), one);
}
