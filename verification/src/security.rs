//! Checks at the dispatch boundary.
//!
//! Before any proof system is asked for a verdict, the descriptor of the
//! proof is held against the registered key: the key must be active, and
//! proof system, key commitment, circuit and curve must be the ones it was
//! registered for. None of the checks touches curve arithmetic.

use crate::bytes::array32_eq;
use crate::types::{CurveId, ProofType, UniversalProofDescriptor};
use crate::verifier_traits::SecurityModel;
use vstd::prelude::*;

verus! {

/// Why a proof was turned away at the dispatch boundary.
#[derive(Debug, Clone, PartialEq, Eq, Structural)]
pub enum SecurityError {
    /// The descriptor names another proof system than the key was
    /// registered for.
    ProofTypeMismatch { expected: u8, actual: u8 },
    /// The descriptor commits to another key.
    VKCommitmentMismatch,
    /// The descriptor names another curve than the key is defined over.
    CurveMismatch { descriptor_curve: CurveId, verifier_curve: CurveId },
    /// The proof is nested deeper than allowed.
    ExcessiveRecursionDepth { depth: u8, max_allowed: u8 },
    /// The proof has more public inputs than the key supports.
    TooManyPublicInputs { count: u16, max_allowed: u16 },
    /// The proof is larger than its proof system allows.
    ProofTooLarge { size: u32, max_allowed: u32 },
    /// The proof failed a structural check.
    InvalidProofStructure,
    /// The descriptor names another circuit than the key was registered for.
    UnknownCircuitId,
    /// The proof system is unknown, or the key is not active.
    UnsupportedProofSystem,
    /// The proof system offers fewer security bits than required.
    InsufficientSecurityLevel { required_bits: u8, provided_bits: u8 },
    /// Post-quantum security is required and the proof system has none.
    PostQuantumRequired,
}

/// What the registry holds of a verification key.
#[derive(Debug, Clone, PartialEq, Eq)]
pub struct RegisteredVK {
    /// Proof system the key is for.
    pub proof_type: ProofType,
    /// Hash of the key bytes.
    pub vk_hash: [u8; 32],
    /// Circuit the key belongs to.
    pub circuit_id: [u8; 32],
    /// Curve the key is defined over.
    pub curve_id: CurveId,
    /// Most public inputs the key supports.
    pub max_public_inputs: u16,
    /// Whether the key accepts proofs.
    pub active: bool,
}

impl RegisteredVK {
    /// A key as it is registered: active.
    pub fn new(
        proof_type: ProofType,
        vk_hash: [u8; 32],
        circuit_id: [u8; 32],
        curve_id: CurveId,
        max_public_inputs: u16,
    ) -> (result: Self)
        ensures
            result == (RegisteredVK {
                proof_type,
                vk_hash,
                circuit_id,
                curve_id,
                max_public_inputs,
                active: true,
            }),
    {
        RegisteredVK { proof_type, vk_hash, circuit_id, curve_id, max_public_inputs, active: true }
    }
}

/// The limits that the dispatch boundary enforces.
#[derive(Debug, Clone, Copy, PartialEq, Eq, Structural)]
pub struct DispatchValidator {
    /// Deepest allowed nesting of proofs.
    pub max_recursion_depth: u8,
    /// Whether post-quantum security is required.
    pub require_post_quantum: bool,
    /// Fewest security bits required.
    pub min_security_bits: u8,
}

/// The largest proof, in bytes, that a proof system allows: 512 for
/// Groth16, 4,096 for PLONK, 1,000,000 for STARK.
pub open spec fn max_proof_size(proof_system_id: u8) -> Option<u32> {
    if proof_system_id == 0 {
        Some(512u32)
    } else if proof_system_id == 1 {
        Some(4_096u32)
    } else if proof_system_id == 2 {
        Some(1_000_000u32)
    } else {
        None
    }
}

impl DispatchValidator {
    /// The outcome of the binding check: the key is active, and proof
    /// system, key commitment and circuit are the key's, tested in this
    /// order.
    pub open spec fn proof_type_binding(
        self,
        descriptor: UniversalProofDescriptor,
        registered_vk: RegisteredVK,
    ) -> Result<(), SecurityError> {
        if !registered_vk.active {
            Err(SecurityError::UnsupportedProofSystem)
        } else if registered_vk.proof_type.code() != descriptor.proof_system_id {
            Err(
                SecurityError::ProofTypeMismatch {
                    expected: registered_vk.proof_type.code(),
                    actual: descriptor.proof_system_id,
                },
            )
        } else if descriptor.vk_commitment@ != registered_vk.vk_hash@ {
            Err(SecurityError::VKCommitmentMismatch)
        } else if descriptor.circuit_id@ != registered_vk.circuit_id@ {
            Err(SecurityError::UnknownCircuitId)
        } else {
            Ok(())
        }
    }

    /// The outcome of the curve check.
    pub open spec fn curve_match(
        self,
        descriptor: UniversalProofDescriptor,
        registered_vk: RegisteredVK,
    ) -> Result<(), SecurityError> {
        if descriptor.curve_id != registered_vk.curve_id {
            Err(
                SecurityError::CurveMismatch {
                    descriptor_curve: descriptor.curve_id,
                    verifier_curve: registered_vk.curve_id,
                },
            )
        } else {
            Ok(())
        }
    }

    /// The outcome of the depth check.
    pub open spec fn recursion_depth(self, descriptor: UniversalProofDescriptor) -> Result<
        (),
        SecurityError,
    > {
        if descriptor.recursion_depth > self.max_recursion_depth {
            Err(
                SecurityError::ExcessiveRecursionDepth {
                    depth: descriptor.recursion_depth,
                    max_allowed: self.max_recursion_depth,
                },
            )
        } else {
            Ok(())
        }
    }

    /// The outcome of the input count check.
    pub open spec fn input_count(
        self,
        descriptor: UniversalProofDescriptor,
        registered_vk: RegisteredVK,
    ) -> Result<(), SecurityError> {
        if descriptor.public_input_count > registered_vk.max_public_inputs {
            Err(
                SecurityError::TooManyPublicInputs {
                    count: descriptor.public_input_count,
                    max_allowed: registered_vk.max_public_inputs,
                },
            )
        } else {
            Ok(())
        }
    }

    /// The outcome of the size check.
    pub open spec fn proof_size(self, descriptor: UniversalProofDescriptor) -> Result<
        (),
        SecurityError,
    > {
        match max_proof_size(descriptor.proof_system_id) {
            None => Err(SecurityError::UnsupportedProofSystem),
            Some(max_allowed) => if descriptor.proof_length > max_allowed {
                Err(SecurityError::ProofTooLarge { size: descriptor.proof_length, max_allowed })
            } else {
                Ok(())
            },
        }
    }

    /// The outcome of the security level check: enough bits first, then
    /// post-quantum security where it is required.
    pub open spec fn security_level(self, security_model: SecurityModel) -> Result<
        (),
        SecurityError,
    > {
        if security_model.security_bits < self.min_security_bits {
            Err(
                SecurityError::InsufficientSecurityLevel {
                    required_bits: self.min_security_bits,
                    provided_bits: security_model.security_bits,
                },
            )
        } else if self.require_post_quantum && !security_model.post_quantum_secure {
            Err(SecurityError::PostQuantumRequired)
        } else {
            Ok(())
        }
    }

    /// The outcome of all checks: the first failure of binding, curve,
    /// depth, input count, size and security level, in this order.
    pub open spec fn all(
        self,
        descriptor: UniversalProofDescriptor,
        registered_vk: RegisteredVK,
        security_model: SecurityModel,
    ) -> Result<(), SecurityError> {
        if self.proof_type_binding(descriptor, registered_vk).is_err() {
            self.proof_type_binding(descriptor, registered_vk)
        } else if self.curve_match(descriptor, registered_vk).is_err() {
            self.curve_match(descriptor, registered_vk)
        } else if self.recursion_depth(descriptor).is_err() {
            self.recursion_depth(descriptor)
        } else if self.input_count(descriptor, registered_vk).is_err() {
            self.input_count(descriptor, registered_vk)
        } else if self.proof_size(descriptor).is_err() {
            self.proof_size(descriptor)
        } else {
            self.security_level(security_model)
        }
    }

    /// The default limits: depth 8, 128 bits, post-quantum security not
    /// required.
    pub fn new() -> (result: Self)
        ensures
            result == (DispatchValidator {
                max_recursion_depth: 8,
                require_post_quantum: false,
                min_security_bits: 128,
            }),
    {
        DispatchValidator { max_recursion_depth: 8, require_post_quantum: false, min_security_bits: 128 }
    }

    /// Strict limits: depth 4, 128 bits, post-quantum security required.
    pub fn strict() -> (result: Self)
        ensures
            result == (DispatchValidator {
                max_recursion_depth: 4,
                require_post_quantum: true,
                min_security_bits: 128,
            }),
    {
        DispatchValidator { max_recursion_depth: 4, require_post_quantum: true, min_security_bits: 128 }
    }

    /// Holds the descriptor against the key it names.
    pub fn validate_proof_type_binding(
        &self,
        descriptor: &UniversalProofDescriptor,
        registered_vk: &RegisteredVK,
    ) -> (result: Result<(), SecurityError>)
        ensures
            result == self.proof_type_binding(*descriptor, *registered_vk),
    {
        if !registered_vk.active {
            return Err(SecurityError::UnsupportedProofSystem);
        }
        let expected: u8 = registered_vk.proof_type.to_u8();
        let actual: u8 = descriptor.proof_system_id;
        if expected != actual {
            return Err(SecurityError::ProofTypeMismatch { expected, actual });
        }
        if !array32_eq(&descriptor.vk_commitment, &registered_vk.vk_hash) {
            return Err(SecurityError::VKCommitmentMismatch);
        }
        if !array32_eq(&descriptor.circuit_id, &registered_vk.circuit_id) {
            return Err(SecurityError::UnknownCircuitId);
        }
        Ok(())
    }

    /// Holds the descriptor's curve against the key's.
    pub fn validate_curve_match(
        &self,
        descriptor: &UniversalProofDescriptor,
        registered_vk: &RegisteredVK,
    ) -> (result: Result<(), SecurityError>)
        ensures
            result == self.curve_match(*descriptor, *registered_vk),
    {
        if descriptor.curve_id != registered_vk.curve_id {
            return Err(
                SecurityError::CurveMismatch {
                    descriptor_curve: descriptor.curve_id,
                    verifier_curve: registered_vk.curve_id,
                },
            );
        }
        Ok(())
    }

    /// Holds the descriptor's nesting against the allowed depth.
    pub fn validate_recursion_depth(&self, descriptor: &UniversalProofDescriptor) -> (result: Result<
        (),
        SecurityError,
    >)
        ensures
            result == self.recursion_depth(*descriptor),
    {
        if descriptor.recursion_depth > self.max_recursion_depth {
            return Err(
                SecurityError::ExcessiveRecursionDepth {
                    depth: descriptor.recursion_depth,
                    max_allowed: self.max_recursion_depth,
                },
            );
        }
        Ok(())
    }

    /// Holds the descriptor's input count against the key's limit.
    pub fn validate_input_count(
        &self,
        descriptor: &UniversalProofDescriptor,
        registered_vk: &RegisteredVK,
    ) -> (result: Result<(), SecurityError>)
        ensures
            result == self.input_count(*descriptor, *registered_vk),
    {
        if descriptor.public_input_count > registered_vk.max_public_inputs {
            return Err(
                SecurityError::TooManyPublicInputs {
                    count: descriptor.public_input_count,
                    max_allowed: registered_vk.max_public_inputs,
                },
            );
        }
        Ok(())
    }

    /// Holds the descriptor's proof length against its proof system's limit.
    pub fn validate_proof_size(&self, descriptor: &UniversalProofDescriptor) -> (result: Result<
        (),
        SecurityError,
    >)
        ensures
            result == self.proof_size(*descriptor),
    {
        let max_size: u32 = match descriptor.proof_system_id {
            0 => 512,
            1 => 4_096,
            2 => 1_000_000,
            _ => {
                return Err(SecurityError::UnsupportedProofSystem);
            },
        };
        if descriptor.proof_length > max_size {
            return Err(
                SecurityError::ProofTooLarge { size: descriptor.proof_length, max_allowed: max_size },
            );
        }
        Ok(())
    }

    /// Holds a proof system's security model against the required level.
    pub fn validate_security_level(&self, security_model: &SecurityModel) -> (result: Result<
        (),
        SecurityError,
    >)
        ensures
            result == self.security_level(*security_model),
    {
        if security_model.security_bits < self.min_security_bits {
            return Err(
                SecurityError::InsufficientSecurityLevel {
                    required_bits: self.min_security_bits,
                    provided_bits: security_model.security_bits,
                },
            );
        }
        if self.require_post_quantum && !security_model.post_quantum_secure {
            return Err(SecurityError::PostQuantumRequired);
        }
        Ok(())
    }

    /// Runs every check; the first failure is the result.
    pub fn validate_all(
        &self,
        descriptor: &UniversalProofDescriptor,
        registered_vk: &RegisteredVK,
        security_model: &SecurityModel,
    ) -> (result: Result<(), SecurityError>)
        ensures
            result == self.all(*descriptor, *registered_vk, *security_model),
    {
        match self.validate_proof_type_binding(descriptor, registered_vk) {
            Err(e) => {
                return Err(e);
            },
            Ok(_) => {},
        }
        match self.validate_curve_match(descriptor, registered_vk) {
            Err(e) => {
                return Err(e);
            },
            Ok(_) => {},
        }
        match self.validate_recursion_depth(descriptor) {
            Err(e) => {
                return Err(e);
            },
            Ok(_) => {},
        }
        match self.validate_input_count(descriptor, registered_vk) {
            Err(e) => {
                return Err(e);
            },
            Ok(_) => {},
        }
        match self.validate_proof_size(descriptor) {
            Err(e) => {
                return Err(e);
            },
            Ok(_) => {},
        }
        self.validate_security_level(security_model)
    }
}

impl Default for DispatchValidator {
    fn default() -> (result: Self)
        ensures
            result == (DispatchValidator {
                max_recursion_depth: 8,
                require_post_quantum: false,
                min_security_bits: 128,
            }),
    {
        DispatchValidator { max_recursion_depth: 8, require_post_quantum: false, min_security_bits: 128 }
    }
}

/// A proof made by one proof system is never checked against a key that is
/// registered for another: whatever else the descriptor and the key hold,
/// the binding check and the checks as a whole fail with
/// `ProofTypeMismatch`, which names both systems.
pub proof fn lemma_cross_system_key_is_refused(
    validator: DispatchValidator,
    descriptor: UniversalProofDescriptor,
    registered_vk: RegisteredVK,
    security_model: SecurityModel,
)
    requires
        registered_vk.active,
        descriptor.proof_system_id != registered_vk.proof_type.code(),
    ensures
        validator.proof_type_binding(descriptor, registered_vk) == Err::<(), SecurityError>(
            SecurityError::ProofTypeMismatch {
                expected: registered_vk.proof_type.code(),
                actual: descriptor.proof_system_id,
            },
        ),
        validator.all(descriptor, registered_vk, security_model) == validator.proof_type_binding(
            descriptor,
            registered_vk,
        ),
{
}

/// What is kept of one validation.
#[derive(Debug, Clone)]
pub struct SecurityAuditRecord {
    /// Hash of the descriptor.
    pub descriptor_hash: [u8; 32],
    /// Hash of the key that was used.
    pub vk_hash: [u8; 32],
    /// Proof system.
    pub proof_type: ProofType,
    /// The failure, if validation failed.
    pub error: Option<SecurityError>,
    /// Gas that validation consumed.
    pub validation_gas: u64,
}

/// The first `n` bytes of `bytes` folded into 32 by exclusive or: byte `i`
/// goes into position `i mod 32`.
pub open spec fn xor_fold(bytes: Seq<u8>, n: nat) -> Seq<u8>
    decreases n,
{
    if n == 0 {
        Seq::new(32, |i: int| 0u8)
    } else {
        let before = xor_fold(bytes, (n - 1) as nat);
        let at = (n - 1) % 32;
        before.update(at, before[at] ^ bytes[n - 1])
    }
}

/// A 32-byte digest of a descriptor for the audit log: its encoding folded
/// by exclusive or. It is no commitment.
pub fn hash_descriptor(descriptor: &UniversalProofDescriptor) -> (output: [u8; 32])
    ensures
        output@ == xor_fold(descriptor.encoding(), descriptor.encoding().len()),
{
    let encoded = descriptor.encode();
    let mut output: [u8; 32] = crate::bytes::zero_word();
    assert(output@ =~= xor_fold(encoded@, 0));
    let mut i: usize = 0;
    while i < encoded.len()
        invariant
            i <= encoded@.len(),
            output@ == xor_fold(encoded@, i as nat),
        decreases encoded@.len() - i,
    {
        let at: usize = i % 32;
        let folded: u8 = output[at] ^ encoded[i];
        output[at] = folded;
        assert(output@ =~= xor_fold(encoded@, (i + 1) as nat));
        i = i + 1;
    }
    output
}

} // verus!
