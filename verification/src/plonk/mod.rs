//! PLONK over BN254 with KZG commitments.

pub mod host;
pub mod kzg;
pub mod labels;
pub mod plonk;
pub mod srs;
pub mod transcript;

pub use host::verify_host;
pub use kzg::{verify_kzg_batch_opening, verify_kzg_opening};
pub use plonk::{verify_plonk_proof, PlonkProof, PlonkVerificationKey};
pub use srs::{Srs, SrsDegree, SrsRegistry};
pub use transcript::Transcript;

use crate::plonk::host::host_verdict;
use crate::verifier_traits::{
    all_invalid, results_of, CryptoAssumption, GasCost, RecursionSupport, SecurityModel,
    SetupType, VerifyResult, ZkVerifier,
};
use vstd::prelude::*;

verus! {

/// Why a PLONK operation gave no verdict.
#[derive(Debug, Clone, Copy, PartialEq, Eq, Structural)]
pub enum Error {
    /// Proof deserialization failed.
    DeserializationError,
    /// Proof contains invalid curve points.
    MalformedProof,
    /// Verification key deserialization failed.
    InvalidVerificationKey,
    /// Public inputs deserialization failed.
    InvalidPublicInputs,
    /// Proof verification failed.
    VerificationFailed,
    /// Input size constraints violated.
    InvalidInputSize,
    /// KZG opening proof verification failed.
    KZGVerificationFailed,
    /// The reference string is invalid or missing.
    InvalidSRS,
    /// Transcript error.
    TranscriptError,
    /// Polynomial evaluation mismatch.
    EvaluationMismatch,
    /// Invalid proof format or structure.
    InvalidProof,
    /// Invalid G1 point.
    InvalidG1Point,
    /// Invalid G2 point.
    InvalidG2Point,
    /// Invalid public input.
    InvalidPublicInput,
    /// Pairing check failed.
    PairingCheckFailed,
    /// Invalid size of the reference string.
    InvalidSrsSize,
    /// Invalid circuit domain.
    InvalidDomain,
    /// Multi-scalar multiplication error.
    MsmError,
    /// Invalid circuit size.
    InvalidCircuitSize,
}

impl Error {
    pub open spec fn message_spec(self) -> &'static str {
        match self {
            Error::DeserializationError => "Failed to deserialize proof",
            Error::MalformedProof => "Proof contains invalid curve points",
            Error::InvalidVerificationKey => "Invalid verification key",
            Error::InvalidPublicInputs => "Invalid public inputs",
            Error::VerificationFailed => "Proof verification failed",
            Error::InvalidInputSize => "Input size exceeds limits",
            Error::KZGVerificationFailed => "KZG opening proof verification failed",
            Error::InvalidSRS => "Invalid or missing SRS",
            Error::TranscriptError => "Transcript error",
            Error::EvaluationMismatch => "Polynomial evaluation mismatch",
            Error::InvalidProof => "Invalid proof format or structure",
            Error::InvalidG1Point => "Invalid G1 point (not on curve or not in subgroup)",
            Error::InvalidG2Point => "Invalid G2 point (not on curve or not in subgroup)",
            Error::InvalidPublicInput => "Invalid public input",
            Error::PairingCheckFailed => "Pairing check failed",
            Error::InvalidSrsSize => "Invalid SRS size",
            Error::InvalidDomain => "Invalid circuit domain",
            Error::MsmError => "Multi-scalar multiplication error",
            Error::InvalidCircuitSize => "Invalid circuit size",
        }
    }

    /// The message that goes with this error.
    pub fn to_string(&self) -> (text: String)
        ensures
            text@ == self.message_spec()@,
    {
        let text: &'static str = match self {
            Error::DeserializationError => "Failed to deserialize proof",
            Error::MalformedProof => "Proof contains invalid curve points",
            Error::InvalidVerificationKey => "Invalid verification key",
            Error::InvalidPublicInputs => "Invalid public inputs",
            Error::VerificationFailed => "Proof verification failed",
            Error::InvalidInputSize => "Input size exceeds limits",
            Error::KZGVerificationFailed => "KZG opening proof verification failed",
            Error::InvalidSRS => "Invalid or missing SRS",
            Error::TranscriptError => "Transcript error",
            Error::EvaluationMismatch => "Polynomial evaluation mismatch",
            Error::InvalidProof => "Invalid proof format or structure",
            Error::InvalidG1Point => "Invalid G1 point (not on curve or not in subgroup)",
            Error::InvalidG2Point => "Invalid G2 point (not on curve or not in subgroup)",
            Error::InvalidPublicInput => "Invalid public input",
            Error::PairingCheckFailed => "Pairing check failed",
            Error::InvalidSrsSize => "Invalid SRS size",
            Error::InvalidDomain => "Invalid circuit domain",
            Error::MsmError => "Multi-scalar multiplication error",
            Error::InvalidCircuitSize => "Invalid circuit size",
        };
        text.to_owned()
    }
}


/// Most bytes of a serialized proof.
pub const MAX_PROOF_SIZE: usize = 4096;

/// Most bytes of a serialized key.
pub const MAX_VK_SIZE: usize = 8192;

/// Most public inputs of one proof.
pub const MAX_PUBLIC_INPUTS: usize = 256;

/// The verdict of `verify`: sizes first, then what `verify_host` finds.
pub open spec fn verdict(proof_bytes: Seq<u8>, public_inputs: Seq<u8>, vk_bytes: Seq<u8>) -> Result<
    bool,
    Error,
> {
    if proof_bytes.len() > 4096 || vk_bytes.len() > 8192 || public_inputs.len() > 256 * 32 {
        Err(Error::InvalidInputSize)
    } else if public_inputs.len() % 32 != 0 {
        Err(Error::InvalidPublicInputs)
    } else {
        host_verdict(proof_bytes, public_inputs, vk_bytes)
    }
}

/// Verifies a serialized proof; inputs above the size limits are turned away
/// before anything is read.
pub fn verify(proof_bytes: &[u8], public_inputs_bytes: &[u8], vk_bytes: &[u8]) -> (result: Result<
    bool,
    Error,
>)
    ensures
        result == verdict(proof_bytes@, public_inputs_bytes@, vk_bytes@),
{
    if proof_bytes.len() > MAX_PROOF_SIZE {
        return Err(Error::InvalidInputSize);
    }
    if vk_bytes.len() > MAX_VK_SIZE {
        return Err(Error::InvalidInputSize);
    }
    if public_inputs_bytes.len() > MAX_PUBLIC_INPUTS * 32 {
        return Err(Error::InvalidInputSize);
    }
    if public_inputs_bytes.len() % 32 != 0 {
        return Err(Error::InvalidPublicInputs);
    }
    verify_host(proof_bytes, public_inputs_bytes, vk_bytes)
}

/// Verifies proofs one after the other against one key. The lists have to
/// be of one length, else the call fails with `InvalidInputSize`. The
/// verdict on each proof is whether `verify` accepts it.
pub fn batch_verify(proofs: &[Vec<u8>], public_inputs: &[Vec<u8>], vk_bytes: &[u8]) -> (result: Result<
    Vec<bool>,
    Error,
>)
    ensures
        match result {
            Ok(results) => {
                &&& proofs@.len() == public_inputs@.len()
                &&& results@.len() == proofs@.len()
                &&& forall|i: int|
                    0 <= i < results@.len() ==> #[trigger] results@[i] == (verdict(
                        proofs@[i]@,
                        public_inputs@[i]@,
                        vk_bytes@,
                    ) == Ok::<bool, Error>(true))
            },
            Err(e) => proofs@.len() != public_inputs@.len() && e == Error::InvalidInputSize,
        },
{
    if proofs.len() != public_inputs.len() {
        return Err(Error::InvalidInputSize);
    }
    let mut results: Vec<bool> = Vec::new();
    let mut i: usize = 0;
    while i < proofs.len()
        invariant
            i <= proofs@.len(),
            proofs@.len() == public_inputs@.len(),
            results@.len() == i,
            forall|k: int|
                0 <= k < i ==> #[trigger] results@[k] == (verdict(
                    proofs@[k]@,
                    public_inputs@[k]@,
                    vk_bytes@,
                ) == Ok::<bool, Error>(true)),
        decreases proofs@.len() - i,
    {
        match verify(proofs[i].as_slice(), public_inputs[i].as_slice(), vk_bytes) {
            Ok(valid) => results.push(valid),
            Err(_) => results.push(false),
        }
        i = i + 1;
    }
    Ok(results)
}

/// The reason that the verifier capability gives with a verdict; none with
/// the verdict that the proof is valid.
pub open spec fn failure_reason(outcome: Result<bool, Error>) -> Option<&'static str> {
    match outcome {
        Ok(true) => None,
        Ok(false) => Some("PLONK proof verification failed"),
        Err(Error::DeserializationError) => Some("Failed to deserialize proof"),
        Err(Error::MalformedProof) => Some("Proof contains invalid curve points"),
        Err(Error::InvalidVerificationKey) => Some("Invalid verification key"),
        Err(Error::InvalidPublicInputs) => Some("Invalid public inputs"),
        Err(Error::KZGVerificationFailed) => Some("KZG opening proof failed"),
        Err(_) => Some("PLONK verification error"),
    }
}

/// PLONK as a verifier capability.
pub struct PlonkVerifier;

impl ZkVerifier for PlonkVerifier {
    open spec fn verdict(proof_bytes: Seq<u8>, public_inputs: Seq<u8>, vk: Seq<u8>) -> bool {
        verdict(proof_bytes, public_inputs, vk) == Ok::<bool, Error>(true)
    }

    open spec fn cost_model() -> GasCost {
        GasCost { base: 350_000, per_public_input: 10_000, per_proof_byte: 0 }
    }

    fn proof_system_id() -> (id: u8)
        ensures
            id == 1,
    {
        1
    }

    fn name() -> (name: &'static str)
        ensures
            name == "PLONK (KZG/BN254)",
    {
        "PLONK (KZG/BN254)"
    }

    fn security_model() -> (model: SecurityModel)
        ensures
            model == (SecurityModel {
                setup_type: SetupType::Universal,
                crypto_assumption: CryptoAssumption::Pairing,
                post_quantum_secure: false,
                security_bits: 128,
                formally_verified: false,
            }),
    {
        SecurityModel {
            setup_type: SetupType::Universal,
            crypto_assumption: CryptoAssumption::Pairing,
            post_quantum_secure: false,
            security_bits: 128,
            formally_verified: false,
        }
    }

    fn gas_cost_model() -> GasCost {
        GasCost { base: 350_000, per_public_input: 10_000, per_proof_byte: 0 }
    }

    fn recursion_support() -> (support: RecursionSupport)
        ensures
            support == (RecursionSupport {
                can_verify_groth16: false,
                can_verify_plonk: false,
                can_verify_stark: false,
                max_depth: 0,
            }),
    {
        RecursionSupport {
            can_verify_groth16: false,
            can_verify_plonk: false,
            can_verify_stark: false,
            max_depth: 0,
        }
    }

    fn verify(proof_bytes: &[u8], public_inputs: &[u8], vk: &[u8]) -> (result: VerifyResult)
        ensures
            result.gas_used.is_none(),
            result.error_message == failure_reason(verdict(proof_bytes@, public_inputs@, vk@)),
    {
        match verify(proof_bytes, public_inputs, vk) {
            Ok(true) => VerifyResult::valid(),
            Ok(false) => VerifyResult::invalid("PLONK proof verification failed"),
            Err(Error::DeserializationError) => VerifyResult::invalid("Failed to deserialize proof"),
            Err(Error::MalformedProof) => VerifyResult::invalid("Proof contains invalid curve points"),
            Err(Error::InvalidVerificationKey) => VerifyResult::invalid("Invalid verification key"),
            Err(Error::InvalidPublicInputs) => VerifyResult::invalid("Invalid public inputs"),
            Err(Error::KZGVerificationFailed) => VerifyResult::invalid("KZG opening proof failed"),
            Err(_) => VerifyResult::invalid("PLONK verification error"),
        }
    }

    /// There is a result for every proof. Where the lists differ in length,
    /// no proof is valid.
    fn batch_verify(proofs: &[Vec<u8>], public_inputs: &[Vec<u8>], vk: &[u8]) -> (results: Vec<
        VerifyResult,
    >)
        ensures
            results@.len() == proofs@.len(),
            forall|i: int|
                0 <= i < results@.len() ==> (#[trigger] results@[i]).gas_used.is_none()
                    && results@[i].error_message == if proofs@.len() != public_inputs@.len() {
                    Some("PLONK batch verification not implemented")
                } else if results@[i].valid {
                    None::<&'static str>
                } else {
                    Some("PLONK batch verification failed for proof")
                },
    {
        let verdicts = match batch_verify(proofs, public_inputs, vk) {
            Ok(verdicts) => verdicts,
            Err(_) => {
                return all_invalid(proofs.len(), "PLONK batch verification not implemented");
            },
        };
        results_of(verdicts.as_slice(), "PLONK batch verification failed for proof")
    }
}

} // verus!
