//! The universal dispatcher.
//!
//! A proof arrives in an envelope that names its proof system, its circuit
//! and the hash of its key. The dispatcher decodes the envelope, lets its
//! caller resolve the key in the registry, holds the envelope against what
//! the registry says of the key, and only then routes the proof to the one
//! verifier that the key was registered for.

use crate::bytes::{
    append_be, append_zeros, array32, be_bytes, lemma_array32_of_view, lemma_be_bytes_len,
    read_array32, zeros,
};
use crate::cost_model::{cost_of, model_of, plonk_proof_size, stark_proof_size, VerificationCost};
use crate::error::Error;
use crate::security::{DispatchValidator, RegisteredVK, SecurityError};
use crate::types::{
    CurveId, HashFunctionId, ProofType, UniversalProof, UniversalProofDescriptor,
    UniversalProofView,
};
use crate::verifier_traits::SecurityModel;
use vstd::prelude::*;

verus! {

/// The storage slot under which a contract keeps the registry of keys and
/// nullifiers, the slot of the namespace `arbitrum.uzkv.storage.v1`.
pub const STORAGE_SLOT: [u8; 32] = [
    0xe9, 0x6c, 0x69, 0x85, 0x57, 0xd1, 0xc9, 0x6b,
    0x88, 0xbd, 0xb4, 0x45, 0xdd, 0x1e, 0x4d, 0x98,
    0xc5, 0x86, 0xbf, 0x83, 0xd2, 0xbb, 0x4c, 0x85,
    0x32, 0x9a, 0x45, 0xb5, 0xcd, 0x63, 0xa0, 0xd0,
];

/// Proof system by number.
#[derive(Debug, Clone, Copy, PartialEq, Eq, Structural)]
pub enum ProofSystem {
    Groth16,
    Plonk,
    Stark,
}

impl ProofSystem {
    /// The proof system of a number, if any.
    pub open spec fn from_code(value: u8) -> Option<ProofSystem> {
        if value == 0 {
            Some(ProofSystem::Groth16)
        } else if value == 1 {
            Some(ProofSystem::Plonk)
        } else if value == 2 {
            Some(ProofSystem::Stark)
        } else {
            None
        }
    }

    pub fn from_u8(value: u8) -> (result: Option<ProofSystem>)
        ensures
            result == Self::from_code(value),
    {
        match value {
            0 => Some(ProofSystem::Groth16),
            1 => Some(ProofSystem::Plonk),
            2 => Some(ProofSystem::Stark),
            _ => None,
        }
    }
}

/// Why the dispatcher gave no verdict.
#[derive(Debug, Clone, PartialEq, Eq, Structural)]
pub enum DispatchError {
    /// The envelope does not fit the key it names.
    Security(SecurityError),
    /// The proof could not be verified.
    Verification(Error),
}

/// What the registry holds under one key hash.
#[derive(Debug, Clone)]
pub struct RegistryEntry {
    /// What the key was registered for.
    pub registered: RegisteredVK,
    /// The serialized key.
    pub vk_data: Vec<u8>,
    /// The stored pairing of a Groth16 key; empty where there is none.
    pub precomputed: Vec<u8>,
}

/// The verdict of one proof system on serialized input. A Groth16 error is
/// passed on as the dispatch error of the same name; an error of the other
/// two systems is `VerificationFailed`.
pub open spec fn routed_verdict(
    system: ProofSystem,
    proof_bytes: Seq<u8>,
    public_inputs: Seq<u8>,
    vk: Seq<u8>,
) -> Result<bool, Error> {
    match system {
        ProofSystem::Groth16 => match crate::groth16::verdict(proof_bytes, public_inputs, vk) {
            Ok(valid) => Ok(valid),
            Err(e) => Err(Error::of_groth16(e)),
        },
        ProofSystem::Plonk => match crate::plonk::verdict(proof_bytes, public_inputs, vk) {
            Ok(valid) => Ok(valid),
            Err(_) => Err(Error::VerificationFailed),
        },
        ProofSystem::Stark => match crate::stark::byte_verdict(proof_bytes, public_inputs) {
            Ok(valid) => Ok(valid),
            Err(_) => Err(Error::VerificationFailed),
        },
    }
}

/// The verdict of `verify_universal_proof`.
pub open spec fn universal_verdict(
    proof_system: u8,
    proof_bytes: Seq<u8>,
    public_inputs: Seq<u8>,
    vk: Seq<u8>,
) -> Result<bool, Error> {
    match ProofSystem::from_code(proof_system) {
        None => Err(Error::InvalidProofType),
        Some(system) => routed_verdict(system, proof_bytes, public_inputs, vk),
    }
}

/// Routes a proof to the verifier of its proof system. An unknown number
/// fails with `InvalidProofType`.
pub fn verify_universal_proof(proof_system: u8, proof_bytes: &[u8], public_inputs: &[u8], vk: &[u8]) -> (result:
    Result<bool, Error>)
    ensures
        result == universal_verdict(proof_system, proof_bytes@, public_inputs@, vk@),
{
    let system = match ProofSystem::from_u8(proof_system) {
        Some(system) => system,
        None => {
            return Err(Error::InvalidProofType);
        },
    };
    match system {
        ProofSystem::Groth16 => match crate::groth16::verify(proof_bytes, public_inputs, vk) {
            Ok(valid) => Ok(valid),
            Err(e) => Err(Error::from_groth16(e)),
        },
        ProofSystem::Plonk => match crate::plonk::verify(proof_bytes, public_inputs, vk) {
            Ok(valid) => Ok(valid),
            Err(_) => Err(Error::VerificationFailed),
        },
        ProofSystem::Stark => match crate::stark::verify_proof(proof_bytes, public_inputs) {
            Ok(valid) => Ok(valid),
            Err(_) => Err(Error::VerificationFailed),
        },
    }
}

/// The estimate that a proof is held against a budget with: Groth16 and
/// PLONK by the number of 32-byte public inputs, PLONK for a circuit of
/// 65,536 gates, STARK for a trace of 1,024 rows at 128 bits.
pub open spec fn budget_estimate(system: ProofSystem, public_inputs: Seq<u8>) -> VerificationCost {
    match system {
        ProofSystem::Groth16 => cost_of(
            model_of(0),
            (public_inputs.len() / 32) as usize,
            256,
            ProofType::Groth16,
        ),
        ProofSystem::Plonk => cost_of(
            model_of(1),
            (public_inputs.len() / 32) as usize,
            plonk_proof_size(65536) as usize,
            ProofType::PLONK,
        ),
        ProofSystem::Stark => cost_of(
            model_of(2),
            4,
            stark_proof_size(1024, 128) as usize,
            ProofType::STARK,
        ),
    }
}

/// Routes a proof to its verifier if the estimated cost is within the gas
/// budget; a higher estimate fails with `GasBudgetExceeded`. Public inputs
/// of `2^32` bytes or more are turned away with `InvalidInputSize` before
/// anything is estimated.
pub fn verify_universal_proof_with_budget(
    proof_system: u8,
    proof_bytes: &[u8],
    public_inputs: &[u8],
    vk: &[u8],
    gas_budget: u64,
) -> (result: Result<bool, Error>)
    ensures
        result == match ProofSystem::from_code(proof_system) {
            None => Err::<bool, Error>(Error::InvalidProofType),
            Some(system) => if public_inputs@.len() >= 0x1_0000_0000 {
                Err::<bool, Error>(Error::InvalidInputSize)
            } else if budget_estimate(system, public_inputs@).estimated_total > gas_budget {
                Err::<bool, Error>(Error::GasBudgetExceeded)
            } else {
                routed_verdict(system, proof_bytes@, public_inputs@, vk@)
            },
        },
{
    let system = match ProofSystem::from_u8(proof_system) {
        Some(system) => system,
        None => {
            return Err(Error::InvalidProofType);
        },
    };
    if public_inputs.len() as u128 >= 0x1_0000_0000u128 {
        return Err(Error::InvalidInputSize);
    }
    let count: usize = public_inputs.len() / 32;
    let cost = match system {
        ProofSystem::Groth16 => VerificationCost::for_groth16(count),
        ProofSystem::Plonk => VerificationCost::for_plonk(count, 65536),
        ProofSystem::Stark => VerificationCost::for_stark(1024, 128),
    };
    if cost.estimated_total > gas_budget {
        return Err(Error::GasBudgetExceeded);
    }
    verify_universal_proof(proof_system, proof_bytes, public_inputs, vk)
}

/// The first error among the first `n` proofs, if any proof fails with one.
pub open spec fn first_batch_error(
    proof_systems: Seq<u8>,
    proofs: Seq<Vec<u8>>,
    public_inputs: Seq<Vec<u8>>,
    vks: Seq<Vec<u8>>,
    n: nat,
) -> Option<Error>
    decreases n,
{
    if n == 0 {
        None
    } else {
        match first_batch_error(proof_systems, proofs, public_inputs, vks, (n - 1) as nat) {
            Some(e) => Some(e),
            None => match universal_verdict(
                proof_systems[n - 1],
                proofs[n - 1]@,
                public_inputs[n - 1]@,
                vks[n - 1]@,
            ) {
                Err(e) => Some(e),
                Ok(_) => None,
            },
        }
    }
}

/// Verifies proofs of possibly different proof systems, each against its
/// own key. The four lists have to be of one length, else the call fails
/// with `InvalidInputSize`. The first proof that fails with an error ends
/// the batch with that error; otherwise the verdicts come back in order.
pub fn batch_verify_universal_proofs(
    proof_systems: &[u8],
    proofs: &[Vec<u8>],
    public_inputs: &[Vec<u8>],
    vks: &[Vec<u8>],
) -> (result: Result<Vec<bool>, Error>)
    ensures
        match result {
            Ok(results) => {
                &&& proof_systems@.len() == proofs@.len() == public_inputs@.len() == vks@.len()
                &&& results@.len() == proofs@.len()
                &&& first_batch_error(proof_systems@, proofs@, public_inputs@, vks@, proofs@.len())
                    is None
                &&& forall|i: int|
                    0 <= i < results@.len() ==> universal_verdict(
                        proof_systems@[i],
                        proofs@[i]@,
                        public_inputs@[i]@,
                        vks@[i]@,
                    ) == Ok::<bool, Error>(#[trigger] results@[i])
            },
            Err(e) => if proof_systems@.len() != proofs@.len() || proofs@.len()
                != public_inputs@.len() || public_inputs@.len() != vks@.len() {
                e == Error::InvalidInputSize
            } else {
                first_batch_error(proof_systems@, proofs@, public_inputs@, vks@, proofs@.len())
                    == Some(e)
            },
        },
{
    if proof_systems.len() != proofs.len() || proofs.len() != public_inputs.len()
        || public_inputs.len() != vks.len() {
        return Err(Error::InvalidInputSize);
    }
    let mut results: Vec<bool> = Vec::new();
    let mut i: usize = 0;
    while i < proof_systems.len()
        invariant
            i <= proofs@.len(),
            proof_systems@.len() == proofs@.len() == public_inputs@.len() == vks@.len(),
            results@.len() == i,
            first_batch_error(proof_systems@, proofs@, public_inputs@, vks@, i as nat) is None,
            forall|k: int|
                0 <= k < i ==> universal_verdict(
                    proof_systems@[k],
                    proofs@[k]@,
                    public_inputs@[k]@,
                    vks@[k]@,
                ) == Ok::<bool, Error>(#[trigger] results@[k]),
        decreases proofs@.len() - i,
    {
        match verify_universal_proof(
            proof_systems[i],
            proofs[i].as_slice(),
            public_inputs[i].as_slice(),
            vks[i].as_slice(),
        ) {
            Ok(valid) => results.push(valid),
            Err(e) => {
                proof {
                    lemma_batch_error_stays(
                        proof_systems@,
                        proofs@,
                        public_inputs@,
                        vks@,
                        (i + 1) as nat,
                        proofs@.len(),
                    );
                }
                return Err(e);
            },
        }
        i = i + 1;
    }
    Ok(results)
}

/// The first error of a batch is the first error of every longer batch.
pub proof fn lemma_batch_error_stays(
    proof_systems: Seq<u8>,
    proofs: Seq<Vec<u8>>,
    public_inputs: Seq<Vec<u8>>,
    vks: Seq<Vec<u8>>,
    n: nat,
    m: nat,
)
    requires
        n <= m,
        first_batch_error(proof_systems, proofs, public_inputs, vks, n) is Some,
    ensures
        first_batch_error(proof_systems, proofs, public_inputs, vks, m) == first_batch_error(
            proof_systems,
            proofs,
            public_inputs,
            vks,
            n,
        ),
    decreases m,
{
    if n < m {
        lemma_batch_error_stays(proof_systems, proofs, public_inputs, vks, n, (m - 1) as nat);
    }
}

/// The proof system that an envelope's proof type stands for.
pub open spec fn system_of(proof_type: ProofType) -> ProofSystem {
    match proof_type {
        ProofType::Groth16 => ProofSystem::Groth16,
        ProofType::PLONK => ProofSystem::Plonk,
        ProofType::STARK => ProofSystem::Stark,
    }
}

/// The security model of a proof type.
pub open spec fn security_model_of(proof_type: ProofType) -> SecurityModel {
    match proof_type {
        ProofType::Groth16 => SecurityModel {
            setup_type: crate::verifier_traits::SetupType::Trusted,
            crypto_assumption: crate::verifier_traits::CryptoAssumption::Pairing,
            post_quantum_secure: false,
            security_bits: 128,
            formally_verified: true,
        },
        ProofType::PLONK => SecurityModel {
            setup_type: crate::verifier_traits::SetupType::Universal,
            crypto_assumption: crate::verifier_traits::CryptoAssumption::Pairing,
            post_quantum_secure: false,
            security_bits: 128,
            formally_verified: false,
        },
        ProofType::STARK => SecurityModel {
            setup_type: crate::verifier_traits::SetupType::Transparent,
            crypto_assumption: crate::verifier_traits::CryptoAssumption::HashBased,
            post_quantum_secure: true,
            security_bits: 128,
            formally_verified: false,
        },
    }
}

/// The circuit identifier of a program: 28 zero bytes, then the program
/// number in four big-endian bytes.
pub open spec fn circuit_id_spec(program_id: u32) -> Seq<u8> {
    zeros(28) + be_bytes(program_id as nat, 4)
}

/// The number of 32-byte public inputs, 65,535 at most.
pub open spec fn input_count_spec(public_inputs: Seq<u8>) -> u16 {
    if public_inputs.len() / 32 > 0xffff {
        0xffffu16
    } else {
        (public_inputs.len() / 32) as u16
    }
}

/// What an envelope says of its proof: proof system and key hash as in the
/// envelope, the circuit of its program, the curve BN254, the hash function
/// of the proof system, no recursion, and the lengths of proof and public
/// inputs.
pub open spec fn descriptor_of(envelope: UniversalProofView) -> UniversalProofDescriptor {
    UniversalProofDescriptor {
        proof_system_id: envelope.proof_type.code(),
        curve_id: CurveId::BN254,
        hash_function_id: if envelope.proof_type == ProofType::STARK {
            HashFunctionId::Blake3
        } else {
            HashFunctionId::Keccak256
        },
        recursion_depth: 0,
        public_input_count: input_count_spec(envelope.public_inputs_bytes),
        proof_length: envelope.proof_bytes.len() as u32,
        vk_commitment: array32(envelope.vk_hash),
        circuit_id: array32(circuit_id_spec(envelope.program_id)),
    }
}

/// The circuit of a program: its number in the last four bytes of 32, most
/// significant byte first.
pub fn circuit_id(program_id: u32) -> (id: [u8; 32])
    ensures
        id == array32(circuit_id_spec(program_id)),
{
    let mut buf: Vec<u8> = Vec::new();
    append_zeros(&mut buf, 28);
    append_be(&mut buf, program_id as u128, 4);
    proof {
        lemma_be_bytes_len(program_id as nat, 4);
        assert(buf@ =~= circuit_id_spec(program_id));
        assert(buf@.subrange(0, 32) =~= buf@);
    }
    read_array32(buf.as_slice(), 0)
}

/// The descriptor of the proof in an envelope. The proof has to be shorter
/// than `2^32` bytes, as every proof that was decoded is.
pub fn describe(envelope: &UniversalProof) -> (descriptor: UniversalProofDescriptor)
    requires
        envelope.proof_bytes@.len() < 0x1_0000_0000,
    ensures
        descriptor == descriptor_of(envelope@),
{
    let count: usize = envelope.public_inputs_bytes.len() / 32;
    let public_input_count: u16 = if count > 0xffff {
        0xffff
    } else {
        count as u16
    };
    proof {
        lemma_array32_of_view(envelope.vk_hash);
    }
    let hash_function_id = match envelope.proof_type {
        ProofType::STARK => HashFunctionId::Blake3,
        _ => HashFunctionId::Keccak256,
    };
    UniversalProofDescriptor {
        proof_system_id: envelope.proof_type.to_u8(),
        curve_id: CurveId::BN254,
        hash_function_id,
        recursion_depth: 0,
        public_input_count,
        proof_length: envelope.proof_bytes.len() as u32,
        vk_commitment: envelope.vk_hash,
        circuit_id: circuit_id(envelope.program_id),
    }
}

/// The order in which the registry is asked for a key hash: under the proof
/// system that the envelope names first, then under the other two.
pub open spec fn resolution_order_spec(asked: ProofType) -> Seq<ProofType> {
    match asked {
        ProofType::Groth16 => seq![ProofType::Groth16, ProofType::PLONK, ProofType::STARK],
        ProofType::PLONK => seq![ProofType::PLONK, ProofType::Groth16, ProofType::STARK],
        ProofType::STARK => seq![ProofType::STARK, ProofType::Groth16, ProofType::PLONK],
    }
}

/// The order in which the registry is asked for a key hash.
pub fn resolution_order(asked: ProofType) -> (order: [ProofType; 3])
    ensures
        order@ == resolution_order_spec(asked),
{
    let order = match asked {
        ProofType::Groth16 => [ProofType::Groth16, ProofType::PLONK, ProofType::STARK],
        ProofType::PLONK => [ProofType::PLONK, ProofType::Groth16, ProofType::STARK],
        ProofType::STARK => [ProofType::STARK, ProofType::Groth16, ProofType::PLONK],
    };
    assert(order@ =~= resolution_order_spec(asked));
    order
}

/// The proof system under which a key hash is taken from the registry.
/// `registered[k]` says whether the hash is registered for the proof system
/// with the number `k`. The system that the envelope names is taken where
/// the hash is registered for it; else the first other system for which it
/// is registered, so that the binding check finds the key and names the
/// mismatch; `None` where the hash is registered for no system.
pub open spec fn resolved_system(asked: ProofType, registered: Seq<bool>) -> Option<ProofType> {
    let order = resolution_order_spec(asked);
    if registered[order[0].code() as int] {
        Some(order[0])
    } else if registered[order[1].code() as int] {
        Some(order[1])
    } else if registered[order[2].code() as int] {
        Some(order[2])
    } else {
        None
    }
}

/// The proof system under which a key hash is taken from the registry,
/// given for each of the three systems whether the hash is registered for
/// it.
pub fn resolve_system(asked: ProofType, registered: &[bool; 3]) -> (system: Option<ProofType>)
    ensures
        system == resolved_system(asked, registered@),
{
    let order = resolution_order(asked);
    let mut k: usize = 0;
    while k < 3
        invariant
            k <= 3,
            order@ == resolution_order_spec(asked),
            forall|j: int| 0 <= j < k ==> !registered@[(#[trigger] order@[j]).code() as int],
        decreases 3 - k,
    {
        let candidate = order[k];
        if registered[candidate.to_u8() as usize] {
            return Some(candidate);
        }
        k = k + 1;
    }
    None
}

/// A key hash that is registered for one proof system alone is taken from
/// the registry under that system, whichever system the envelope names.
pub proof fn lemma_sole_registration_is_resolved(
    asked: ProofType,
    holder: ProofType,
    registered: Seq<bool>,
)
    requires
        registered.len() == 3,
        forall|k: int| 0 <= k < 3 ==> registered[k] == (k == holder.code()),
    ensures
        resolved_system(asked, registered) == Some(holder),
{
}

/// What the registry holds of a key that was registered for a proof system
/// and a program: an active key over BN254 for up to 256 public inputs, with
/// the program's circuit.
pub fn registry_entry(
    proof_type: ProofType,
    program_id: u32,
    vk_hash: [u8; 32],
    vk_data: Vec<u8>,
    precomputed: Vec<u8>,
) -> (entry: RegistryEntry)
    ensures
        entry.registered == (RegisteredVK {
            proof_type,
            vk_hash,
            circuit_id: array32(circuit_id_spec(program_id)),
            curve_id: CurveId::BN254,
            max_public_inputs: 256,
            active: true,
        }),
        entry.vk_data == vk_data,
        entry.precomputed == precomputed,
{
    RegistryEntry {
        registered: RegisteredVK::new(
            proof_type,
            vk_hash,
            circuit_id(program_id),
            CurveId::BN254,
            256,
        ),
        vk_data,
        precomputed,
    }
}

/// The first step of a dispatch: nothing is decoded while the verifier is
/// paused, and a buffer that holds no envelope is refused.
pub fn decode_envelope(paused: bool, universal_proof_bytes: &[u8]) -> (result: Result<
    UniversalProof,
    Error,
>)
    ensures
        match result {
            Ok(envelope) => !paused && UniversalProofView::decoding(universal_proof_bytes@) == Some(
                envelope@,
            ),
            Err(e) => if paused {
                e == Error::ContractPaused
            } else {
                UniversalProofView::decoding(universal_proof_bytes@).is_none() && e
                    == Error::InvalidProofFormat
            },
        },
{
    if paused {
        return Err(Error::ContractPaused);
    }
    match UniversalProof::decode(universal_proof_bytes) {
        Some(envelope) => Ok(envelope),
        None => Err(Error::InvalidProofFormat),
    }
}

/// The verdict of the dispatcher on a decoded envelope and what the
/// registry holds under its key hash. Without an entry the key is not
/// registered. With one, the descriptor of the proof is held against the
/// entry, and the first check that fails is the result; no verifier has been
/// asked by then. What passes goes to the verifier of its proof system, a
/// Groth16 proof with the stored pairing where the entry has one.
pub open spec fn dispatch_verdict(
    envelope: UniversalProofView,
    entry: Option<RegistryEntry>,
    validator: DispatchValidator,
) -> Result<bool, DispatchError> {
    match entry {
        None => Err(DispatchError::Verification(Error::VKNotRegistered)),
        Some(entry) => match validator.all(
            descriptor_of(envelope),
            entry.registered,
            security_model_of(envelope.proof_type),
        ) {
            Err(e) => Err(DispatchError::Security(e)),
            Ok(_) => {
                let verdict = if envelope.proof_type == ProofType::Groth16
                    && entry.precomputed@.len() != 0 {
                    match crate::groth16::verdict_precomputed(
                        envelope.proof_bytes,
                        envelope.public_inputs_bytes,
                        entry.vk_data@,
                        entry.precomputed@,
                    ) {
                        Ok(valid) => Ok(valid),
                        Err(e) => Err(Error::of_groth16(e)),
                    }
                } else {
                    routed_verdict(
                        system_of(envelope.proof_type),
                        envelope.proof_bytes,
                        envelope.public_inputs_bytes,
                        entry.vk_data@,
                    )
                };
                match verdict {
                    Ok(valid) => Ok(valid),
                    Err(e) => Err(DispatchError::Verification(e)),
                }
            },
        },
    }
}

/// The second step of a dispatch: validates the binding of the envelope to
/// the registered key and routes the proof to its verifier.
pub fn verify_universal(
    envelope: &UniversalProof,
    entry: Option<&RegistryEntry>,
    validator: &DispatchValidator,
) -> (result: Result<bool, DispatchError>)
    requires
        envelope.proof_bytes@.len() < 0x1_0000_0000,
    ensures
        result == dispatch_verdict(
            envelope@,
            match entry {
                Some(e) => Some(*e),
                None => None,
            },
            *validator,
        ),
{
    let descriptor = describe(envelope);
    let entry = match entry {
        Some(entry) => entry,
        None => {
            return Err(DispatchError::Verification(Error::VKNotRegistered));
        },
    };
    let model = match envelope.proof_type {
        ProofType::Groth16 => SecurityModel::groth16_bn254(),
        ProofType::PLONK => SecurityModel::plonk_kzg_bn254(),
        ProofType::STARK => SecurityModel::stark_fri(),
    };
    match validator.validate_all(&descriptor, &entry.registered, &model) {
        Ok(_) => {},
        Err(e) => {
            return Err(DispatchError::Security(e));
        },
    }
    let verdict = match envelope.proof_type {
        ProofType::Groth16 => {
            if entry.precomputed.len() != 0 {
                match crate::groth16::verify_with_precomputed(
                    envelope.proof_bytes.as_slice(),
                    envelope.public_inputs_bytes.as_slice(),
                    entry.vk_data.as_slice(),
                    entry.precomputed.as_slice(),
                ) {
                    Ok(valid) => Ok(valid),
                    Err(e) => Err(Error::from_groth16(e)),
                }
            } else {
                verify_universal_proof(
                    0,
                    envelope.proof_bytes.as_slice(),
                    envelope.public_inputs_bytes.as_slice(),
                    entry.vk_data.as_slice(),
                )
            }
        },
        ProofType::PLONK => verify_universal_proof(
            1,
            envelope.proof_bytes.as_slice(),
            envelope.public_inputs_bytes.as_slice(),
            entry.vk_data.as_slice(),
        ),
        ProofType::STARK => verify_universal_proof(
            2,
            envelope.proof_bytes.as_slice(),
            envelope.public_inputs_bytes.as_slice(),
            entry.vk_data.as_slice(),
        ),
    };
    match verdict {
        Ok(valid) => Ok(valid),
        Err(e) => Err(DispatchError::Verification(e)),
    }
}

/// A proof of one proof system whose key hash is registered for another
/// fails with `ProofTypeMismatch`, whatever proof, public inputs and key
/// hold: the verdict is fixed before any verifier is asked, so that no
/// pairing is computed.
pub proof fn lemma_dispatch_refuses_cross_system_key(
    envelope: UniversalProofView,
    entry: RegistryEntry,
    validator: DispatchValidator,
)
    requires
        entry.registered.active,
        entry.registered.proof_type != envelope.proof_type,
    ensures
        dispatch_verdict(envelope, Some(entry), validator) == Err::<bool, DispatchError>(
            DispatchError::Security(
                SecurityError::ProofTypeMismatch {
                    expected: entry.registered.proof_type.code(),
                    actual: envelope.proof_type.code(),
                },
            ),
        ),
{
}

} // verus!
