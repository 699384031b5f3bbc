use ark_bn254::{Fq, Fr, G1Affine, G1Projective, G2Affine, G2Projective};
use ark_ec::{CurveGroup, Group};
use ark_ff::{BigInteger, Field, PrimeField};
use ark_std::UniformRand;
use uzkv::attestor;
use uzkv::contract::{
    batch_verify, count_valid, key_hash, mark_nullifier_used, only_admin, pause,
    proof_verified_event, register_vk, register_vk_typed, register_vk_universal, unpause, verify,
    verify_groth16, vk_registered_event, PROOF_VERIFIED_TOPIC, VK_REGISTERED_TOPIC,
};
use uzkv::field::Scalar;
use uzkv::groth16::compute_precomputed_pairing;
use uzkv::security::{DispatchValidator, RegisteredVK};
use uzkv::stark::air::{verify_air_constraints, FibonacciAir};
use uzkv::types::{CurveId, ProofType, UniversalProof};
use uzkv::uzkv::{decode_envelope, verify_universal, DispatchError, RegistryEntry};
use uzkv::Error;

fn be32(f: Fq) -> [u8; 32] {
    f.into_bigint().to_bytes_be().try_into().unwrap()
}

fn g1_bytes(p: G1Affine) -> Vec<u8> {
    let mut out = Vec::new();
    out.extend_from_slice(&be32(p.x));
    out.extend_from_slice(&be32(p.y));
    out
}

fn g2_bytes(p: G2Affine) -> Vec<u8> {
    let mut out = Vec::new();
    out.extend_from_slice(&be32(p.x.c1));
    out.extend_from_slice(&be32(p.x.c0));
    out.extend_from_slice(&be32(p.y.c1));
    out.extend_from_slice(&be32(p.y.c0));
    out
}

/// A Groth16 key, public inputs and a proof that meets the equation, made
/// with the secrets of the setup.
struct Instance {
    vk: Vec<u8>,
    inputs: Vec<u8>,
    proof: Vec<u8>,
}

fn instance(num_inputs: usize) -> Instance {
    let mut rng = ark_std::test_rng();
    let g1_gen = G1Projective::generator();
    let g2_gen = G2Projective::generator();
    let alpha = Fr::rand(&mut rng);
    let beta = Fr::rand(&mut rng);
    let gamma = Fr::rand(&mut rng);
    let delta = Fr::rand(&mut rng);
    let ic: Vec<Fr> = (0..num_inputs + 1).map(|_| Fr::rand(&mut rng)).collect();
    let inputs: Vec<Fr> = (0..num_inputs).map(|_| Fr::rand(&mut rng)).collect();

    let mut l = ic[0];
    for i in 0..num_inputs {
        l += inputs[i] * ic[i + 1];
    }
    let a = Fr::rand(&mut rng);
    let b = Fr::rand(&mut rng);
    let c = (a * b - alpha * beta - l * gamma) * delta.inverse().unwrap();

    let mut vk = Vec::new();
    vk.extend(g1_bytes((g1_gen * alpha).into_affine()));
    vk.extend(g2_bytes((g2_gen * beta).into_affine()));
    vk.extend(g2_bytes((g2_gen * gamma).into_affine()));
    vk.extend(g2_bytes((g2_gen * delta).into_affine()));
    for coefficient in &ic {
        vk.extend(g1_bytes((g1_gen * *coefficient).into_affine()));
    }
    let mut proof = Vec::new();
    proof.extend(g1_bytes((g1_gen * a).into_affine()));
    proof.extend(g2_bytes((g2_gen * b).into_affine()));
    proof.extend(g1_bytes((g1_gen * c).into_affine()));
    let mut input_bytes = Vec::new();
    for input in &inputs {
        input_bytes.extend_from_slice(&input.into_bigint().to_bytes_be());
    }
    Instance { vk, inputs: input_bytes, proof }
}

fn stark_inputs() -> Vec<u8> {
    let mut inputs = Vec::new();
    inputs.extend_from_slice(&64u64.to_be_bytes());
    inputs.extend_from_slice(&1u64.to_be_bytes());
    inputs.extend_from_slice(&1u64.to_be_bytes());
    inputs
}

fn keccak(data: &[u8]) -> [u8; 32] {
    <sha3::Keccak256 as sha3::Digest>::digest(data).into()
}

const ADMIN: [u8; 20] = [0xad; 20];
const OTHER: [u8; 20] = [0x07; 20];

#[test]
fn groth16_entry() {
    let i = instance(2);
    assert_eq!(verify_groth16(false, &i.proof, &i.inputs, &i.vk, &[]), Ok(true));
    let stored = compute_precomputed_pairing(&i.vk).unwrap();
    assert_eq!(verify_groth16(false, &i.proof, &i.inputs, &i.vk, &stored), Ok(true));
    let mut inputs = i.inputs.clone();
    inputs[63] ^= 1;
    assert_eq!(verify_groth16(false, &i.proof, &inputs, &i.vk, &[]), Ok(false));
    assert_eq!(verify_groth16(false, &i.proof, &inputs, &i.vk, &stored), Ok(false));

    // The pause comes before everything, the key before the proof.
    assert_eq!(verify_groth16(true, &i.proof, &i.inputs, &i.vk, &[]), Err(Error::ContractPaused));
    assert_eq!(verify_groth16(true, &[], &[], &[], &[]), Err(Error::ContractPaused));
    assert_eq!(verify_groth16(false, &[], &i.inputs, &[], &[]), Err(Error::VKNotRegistered));
    assert_eq!(
        verify_groth16(false, &[], &i.inputs, &i.vk, &[]),
        Err(Error::DeserializationError)
    );
    assert_eq!(
        verify_groth16(false, &[0u8; 256], &i.inputs, &i.vk, &[]),
        Err(Error::MalformedProof)
    );
    assert_eq!(
        verify_groth16(false, &i.proof, &i.inputs[..32], &i.vk, &stored),
        Err(Error::InvalidPublicInputs)
    );
    assert_eq!(
        verify_groth16(false, &i.proof, &i.inputs, &i.vk[..600], &[]),
        Err(Error::InvalidVerificationKey)
    );
}

#[test]
fn entry_by_number_of_the_proof_system() {
    let i = instance(1);
    assert_eq!(verify(false, 0, &i.proof, &i.inputs, &i.vk, &[]), Ok(true));
    assert_eq!(verify(true, 0, &i.proof, &i.inputs, &i.vk, &[]), Err(Error::ContractPaused));
    assert_eq!(verify(true, 9, &i.proof, &i.inputs, &i.vk, &[]), Err(Error::ContractPaused));
    assert_eq!(verify(false, 3, &i.proof, &i.inputs, &i.vk, &[]), Err(Error::InvalidProofType));
    assert_eq!(verify(false, 0, &i.proof, &i.inputs, &[], &[]), Err(Error::VKNotRegistered));
    assert_eq!(verify(false, 1, &i.proof, &i.inputs, &[], &[]), Err(Error::VKNotRegistered));
    // Whatever PLONK or STARK verification finds wrong is one error.
    assert_eq!(
        verify(false, 1, &i.proof, &i.inputs, &i.vk, &[]),
        Err(Error::VerificationFailed)
    );
    assert_eq!(verify(false, 2, &[0u8; 10], &stark_inputs(), &[], &[]), Err(Error::VerificationFailed));
    // STARK needs no key: the proof is looked at without one.
    assert_eq!(
        verify(false, 2, &[0u8; 2000], &stark_inputs(), &[], &[]),
        Err(Error::VerificationFailed)
    );
}

#[test]
fn batch_entry() {
    let i = instance(2);
    let mut wrong = i.inputs.clone();
    wrong[0] ^= 1;
    let proofs = vec![i.proof.clone(), i.proof.clone(), vec![1u8; 3]];
    let inputs = vec![i.inputs.clone(), wrong, i.inputs.clone()];
    let stored = compute_precomputed_pairing(&i.vk).unwrap();

    let results = batch_verify(false, 0, &proofs, &inputs, &i.vk, &[]).unwrap();
    assert_eq!(results, vec![true, false, false]);
    assert_eq!(count_valid(&results), 1);
    assert_eq!(batch_verify(false, 0, &proofs, &inputs, &i.vk, &stored), Ok(results));

    assert_eq!(batch_verify(true, 0, &proofs, &inputs, &i.vk, &[]), Err(Error::ContractPaused));
    assert_eq!(
        batch_verify(false, 0, &proofs, &inputs[..2], &i.vk, &[]),
        Err(Error::InvalidInputSize)
    );
    assert_eq!(
        batch_verify(false, 7, &proofs, &inputs[..2], &i.vk, &[]),
        Err(Error::InvalidInputSize)
    );
    assert_eq!(batch_verify(false, 7, &proofs, &inputs, &i.vk, &[]), Err(Error::InvalidProofType));
    assert_eq!(batch_verify(false, 0, &proofs, &inputs, &[], &[]), Err(Error::VKNotRegistered));
    assert_eq!(batch_verify(false, 1, &proofs, &inputs, &[], &[]), Err(Error::VKNotRegistered));
    assert_eq!(
        batch_verify(false, 0, &proofs, &inputs, &i.vk[..500], &[]),
        Err(Error::InvalidVerificationKey)
    );
    // Under a PLONK key that is none, no proof is valid.
    assert_eq!(
        batch_verify(false, 1, &proofs, &inputs, &i.vk, &[]),
        Ok(vec![false, false, false])
    );
    let stark_proofs = vec![vec![0u8; 2000], vec![0u8; 10]];
    let stark_in = vec![stark_inputs(), stark_inputs()];
    assert_eq!(batch_verify(false, 2, &stark_proofs, &stark_in, &[], &[]), Ok(vec![false, false]));
}

#[test]
fn counting_valid_verdicts() {
    assert_eq!(count_valid(&[]), 0);
    assert_eq!(count_valid(&[false, false]), 0);
    assert_eq!(count_valid(&[true, false, true, true]), 3);
}

#[test]
fn registration() {
    let i = instance(2);
    let hash = keccak(&i.vk);
    assert_eq!(key_hash(&i.vk), hash);
    assert_ne!(key_hash(&i.vk).to_vec(), i.vk);
    assert_eq!(key_hash(&[]), keccak(&[]));

    let first = register_vk(&i.vk, false);
    assert_eq!(first.vk_hash, hash);
    assert!(first.store);
    assert_eq!(first.precomputed, compute_precomputed_pairing(&i.vk).unwrap());
    assert_eq!(first.precomputed.len(), 384);

    // Registering again changes nothing.
    let second = register_vk(&i.vk, true);
    assert_eq!(second.vk_hash, hash);
    assert!(!second.store);
    assert!(second.precomputed.is_empty());

    // A key that is no Groth16 key is stored without a pairing.
    let odd = register_vk(&[1, 2, 3], false);
    assert_eq!(odd.vk_hash, keccak(&[1, 2, 3]));
    assert!(odd.store);
    assert!(odd.precomputed.is_empty());
}

#[test]
fn registration_by_number_of_the_proof_system() {
    let i = instance(1);
    assert_eq!(register_vk_typed(0, &i.vk, false), Ok(register_vk(&i.vk, false)));
    let plonk = register_vk_typed(1, &i.vk, false).unwrap();
    assert!(plonk.store);
    assert!(plonk.precomputed.is_empty());
    assert_eq!(plonk.vk_hash, keccak(&i.vk));
    let stark = register_vk_typed(2, &i.vk, false).unwrap();
    assert!(stark.precomputed.is_empty());
    assert_eq!(register_vk_typed(3, &i.vk, false), Err(Error::InvalidProofType));
    assert_eq!(register_vk_typed(255, &i.vk, true), Err(Error::InvalidProofType));
}

#[test]
fn registration_for_a_program() {
    let i = instance(1);
    let (registration, event) =
        register_vk_universal(0, 0x0102_0304, &i.vk, false, &ADMIN, 1_700_000_000).unwrap();
    assert_eq!(registration, register_vk(&i.vk, false));
    assert_eq!(
        event,
        Some(vk_registered_event(0, 0x0102_0304, keccak(&i.vk), &ADMIN, 1_700_000_000))
    );
    let (registration, event) =
        register_vk_universal(0, 0x0102_0304, &i.vk, true, &ADMIN, 1_700_000_000).unwrap();
    assert!(!registration.store);
    assert_eq!(event, None);
    assert_eq!(
        register_vk_universal(4, 1, &i.vk, false, &ADMIN, 0),
        Err(Error::InvalidProofType)
    );
}

#[test]
fn log_entries() {
    let hash = [0x5au8; 32];
    let event = proof_verified_event(2, 0x0a0b_0c0d, hash, &OTHER, true, 0x0102_0304_0506_0708);
    assert_eq!(event.signature, PROOF_VERIFIED_TOPIC);
    let mut word = [0u8; 32];
    word[31] = 2;
    assert_eq!(event.proof_type, word);
    let mut word = [0u8; 32];
    word[28..].copy_from_slice(&[0x0a, 0x0b, 0x0c, 0x0d]);
    assert_eq!(event.program_id, word);
    assert_eq!(event.vk_hash, hash);
    assert_eq!(event.data.len(), 96);
    assert_eq!(&event.data[..12], &[0u8; 12]);
    assert_eq!(&event.data[12..32], &OTHER);
    assert_eq!(&event.data[32..63], &[0u8; 31]);
    assert_eq!(event.data[63], 1);
    assert_eq!(&event.data[64..88], &[0u8; 24]);
    assert_eq!(&event.data[88..], &[1, 2, 3, 4, 5, 6, 7, 8]);

    let refused = proof_verified_event(2, 0x0a0b_0c0d, hash, &OTHER, false, 0x0102_0304_0506_0708);
    assert_eq!(refused.data[63], 0);
    assert_eq!(&refused.data[..63], &event.data[..63]);

    let event = vk_registered_event(1, 7, hash, &ADMIN, 258);
    assert_eq!(event.signature, VK_REGISTERED_TOPIC);
    assert_ne!(PROOF_VERIFIED_TOPIC, VK_REGISTERED_TOPIC);
    assert_eq!(event.proof_type[31], 1);
    assert_eq!(event.program_id[31], 7);
    assert_eq!(event.vk_hash, hash);
    assert_eq!(event.data.len(), 64);
    assert_eq!(&event.data[12..32], &ADMIN);
    assert_eq!(&event.data[32..62], &[0u8; 30]);
    assert_eq!(&event.data[62..], &[1, 2]);
}

#[test]
fn nullifiers_are_stored_once() {
    assert_eq!(mark_nullifier_used(false, false), Ok(true));
    assert_eq!(mark_nullifier_used(false, true), Ok(false));
    assert_eq!(mark_nullifier_used(true, false), Err(Error::ContractPaused));
    assert_eq!(mark_nullifier_used(true, true), Err(Error::ContractPaused));
}

#[test]
fn only_the_administrator_pauses() {
    assert_eq!(only_admin(&ADMIN, &ADMIN), Ok(()));
    assert_eq!(only_admin(&OTHER, &ADMIN), Err(Error::Unauthorized));
    assert_eq!(pause(&ADMIN, &ADMIN), Ok(true));
    assert_eq!(unpause(&ADMIN, &ADMIN), Ok(false));
    assert_eq!(pause(&OTHER, &ADMIN), Err(Error::Unauthorized));
    assert_eq!(unpause(&OTHER, &ADMIN), Err(Error::Unauthorized));
    let mut near = ADMIN;
    near[19] ^= 1;
    assert_eq!(pause(&near, &ADMIN), Err(Error::Unauthorized));
}

#[test]
fn dispatch_of_a_groth16_proof() {
    let i = instance(2);
    let hash = key_hash(&i.vk);
    let envelope =
        UniversalProof::new(ProofType::Groth16, 5, hash, i.proof.clone(), i.inputs.clone());
    let decoded = decode_envelope(false, &envelope.encode()).unwrap();
    assert_eq!(decoded, envelope);
    let mut circuit_id = [0u8; 32];
    circuit_id[31] = 5;
    let mut entry = RegistryEntry {
        registered: RegisteredVK::new(ProofType::Groth16, hash, circuit_id, CurveId::BN254, 16),
        vk_data: i.vk.clone(),
        precomputed: Vec::new(),
    };
    let validator = DispatchValidator::new();
    assert_eq!(verify_universal(&decoded, Some(&entry), &validator), Ok(true));
    entry.precomputed = register_vk(&i.vk, false).precomputed;
    assert_eq!(verify_universal(&decoded, Some(&entry), &validator), Ok(true));

    // Other public inputs: a false proof, with and without the stored
    // pairing.
    let mut inputs = i.inputs.clone();
    inputs[31] ^= 1;
    let other = UniversalProof::new(ProofType::Groth16, 5, hash, i.proof.clone(), inputs);
    assert_eq!(verify_universal(&other, Some(&entry), &validator), Ok(false));
    entry.precomputed = Vec::new();
    assert_eq!(verify_universal(&other, Some(&entry), &validator), Ok(false));

    // What Groth16 finds wrong keeps its name.
    let broken = UniversalProof::new(ProofType::Groth16, 5, hash, vec![0u8; 256], i.inputs.clone());
    assert_eq!(
        verify_universal(&broken, Some(&entry), &validator),
        Err(DispatchError::Verification(Error::MalformedProof))
    );
}

#[test]
fn attestor_is_set_up_once() {
    assert_eq!(attestor::initialize(false), Ok(()));
    assert_eq!(attestor::initialize(true), Err(attestor::Error::AlreadyInitialized));
}

#[test]
fn only_the_attestor_attests_and_only_once() {
    assert_eq!(attestor::attest_proof(&ADMIN, &ADMIN, false), Ok(()));
    assert_eq!(
        attestor::attest_proof(&ADMIN, &ADMIN, true),
        Err(attestor::Error::AlreadyAttested)
    );
    assert_eq!(attestor::attest_proof(&OTHER, &ADMIN, false), Err(attestor::Error::NotAttestor));
    // The caller is looked at first.
    assert_eq!(attestor::attest_proof(&OTHER, &ADMIN, true), Err(attestor::Error::NotAttestor));
}

#[test]
fn only_the_owner_changes_attestor_and_owner() {
    assert_eq!(attestor::set_attestor(&ADMIN, &ADMIN), Ok(()));
    assert_eq!(
        attestor::set_attestor(&OTHER, &ADMIN),
        Err(attestor::Error::NotOwnerForAttestor)
    );
    assert_eq!(attestor::transfer_ownership(&ADMIN, &ADMIN), Ok(()));
    assert_eq!(
        attestor::transfer_ownership(&OTHER, &ADMIN),
        Err(attestor::Error::NotOwnerForTransfer)
    );
}

#[test]
fn attestor_messages() {
    assert_eq!(attestor::Error::AlreadyInitialized.into_bytes(), b"Already initialized".to_vec());
    assert_eq!(attestor::Error::NotAttestor.into_bytes(), b"Only attestor can attest".to_vec());
    assert_eq!(attestor::Error::AlreadyAttested.into_bytes(), b"Proof already attested".to_vec());
    assert_eq!(
        attestor::Error::NotOwnerForAttestor.into_bytes(),
        b"Only owner can set attestor".to_vec()
    );
    assert_eq!(
        attestor::Error::NotOwnerForTransfer.into_bytes(),
        b"Only owner can transfer ownership".to_vec()
    );
    assert_eq!(
        attestor::Error::RecoveryUnavailable.message(),
        "ecrecover not available in SDK 0.5.0"
    );
}

#[test]
fn signer_is_not_recovered() {
    let hash = [3u8; 32];
    assert_eq!(
        attestor::recover_signer(&hash, 27, &[1u8; 32], &[2u8; 32]),
        Err(attestor::Error::RecoveryUnavailable)
    );
    let mut message = b"\x19Ethereum Signed Message:\n32".to_vec();
    message.extend_from_slice(&hash);
    assert_eq!(attestor::signed_message_hash(&hash), keccak(&message));
}

#[test]
fn two_values_of_a_trace_are_not_refused() {
    let air = FibonacciAir::new(8, Scalar::from_u64(1), Scalar::from_u64(1), Scalar::from_u64(21));
    assert_eq!(verify_air_constraints(&air, Scalar::from_u64(3), Scalar::from_u64(5)), Ok(()));
    assert_eq!(verify_air_constraints(&air, Scalar::from_u64(3), Scalar::from_u64(4)), Ok(()));
}

#[test]
fn storage_slot_is_the_slot_of_its_namespace() {
    // One less than the digest of the name.
    let mut expected = keccak(b"arbitrum.uzkv.storage.v1");
    let mut k = 31;
    loop {
        let (value, borrow) = expected[k].overflowing_sub(1);
        expected[k] = value;
        if !borrow {
            break;
        }
        k -= 1;
    }
    assert_eq!(uzkv::uzkv::STORAGE_SLOT, expected);
}
