//! Errors and parameters of the transparent-setup path.

use vstd::prelude::*;

verus! {

/// Why a transparent-setup proof was not accepted.
#[derive(Debug, Clone, Copy, PartialEq, Eq, Structural)]
pub enum Error {
    /// Proof deserialization failed.
    DeserializationError,
    /// Proof structure is malformed.
    MalformedProof,
    /// Invalid proof structure.
    InvalidProofStructure,
    /// Verification key is invalid.
    InvalidVerificationKey,
    /// Public inputs are invalid.
    InvalidPublicInputs,
    /// Proof verification failed.
    VerificationFailed,
    /// Input size exceeds limits.
    InvalidInputSize,
    /// FRI proof verification failed.
    FriVerificationFailed,
    /// AIR constraint check failed.
    AirConstraintFailed,
    /// Boundary constraint check failed.
    BoundaryConstraintFailed,
    /// Out-of-domain frame verification failed.
    OodFrameVerificationFailed,
    /// Merkle proof verification failed.
    MerkleProofFailed,
    /// Invalid field element.
    InvalidFieldElement,
    /// Invalid proof options.
    InvalidProofOptions,
    /// Polynomial evaluation mismatch.
    EvaluationMismatch,
    /// Degree bound violation.
    DegreeBoundViolation,
    /// Invalid query position.
    InvalidQueryPosition,
    /// Constraint check failed.
    ConstraintFailed,
    /// A constraint refers to a value outside the trace window.
    ConstraintSchemaInvalid,
}

impl Error {
    pub open spec fn message_spec(self) -> &'static str {
        match self {
            Error::DeserializationError => "Failed to deserialize proof",
            Error::MalformedProof => "Proof structure is malformed",
            Error::InvalidProofStructure => "Invalid proof structure",
            Error::InvalidVerificationKey => "Invalid verification key",
            Error::InvalidPublicInputs => "Invalid public inputs",
            Error::VerificationFailed => "Proof verification failed",
            Error::InvalidInputSize => "Input size exceeds limits",
            Error::FriVerificationFailed => "FRI proof verification failed",
            Error::AirConstraintFailed => "AIR constraint check failed",
            Error::BoundaryConstraintFailed => "Boundary constraint check failed",
            Error::OodFrameVerificationFailed => "OOD frame verification failed",
            Error::MerkleProofFailed => "Merkle proof verification failed",
            Error::InvalidFieldElement => "Invalid field element",
            Error::InvalidProofOptions => "Invalid proof options",
            Error::EvaluationMismatch => "Polynomial evaluation mismatch",
            Error::DegreeBoundViolation => "Degree bound violation",
            Error::InvalidQueryPosition => "Invalid query position",
            Error::ConstraintFailed => "Constraint check failed",
            Error::ConstraintSchemaInvalid => "Constraint refers outside the trace window",
        }
    }

    /// The message that goes with this error.
    pub fn to_string(&self) -> (text: String)
        ensures
            text@ == self.message_spec()@,
    {
        let text: &'static str = match self {
            Error::DeserializationError => "Failed to deserialize proof",
            Error::MalformedProof => "Proof structure is malformed",
            Error::InvalidProofStructure => "Invalid proof structure",
            Error::InvalidVerificationKey => "Invalid verification key",
            Error::InvalidPublicInputs => "Invalid public inputs",
            Error::VerificationFailed => "Proof verification failed",
            Error::InvalidInputSize => "Input size exceeds limits",
            Error::FriVerificationFailed => "FRI proof verification failed",
            Error::AirConstraintFailed => "AIR constraint check failed",
            Error::BoundaryConstraintFailed => "Boundary constraint check failed",
            Error::OodFrameVerificationFailed => "OOD frame verification failed",
            Error::MerkleProofFailed => "Merkle proof verification failed",
            Error::InvalidFieldElement => "Invalid field element",
            Error::InvalidProofOptions => "Invalid proof options",
            Error::EvaluationMismatch => "Polynomial evaluation mismatch",
            Error::DegreeBoundViolation => "Degree bound violation",
            Error::InvalidQueryPosition => "Invalid query position",
            Error::ConstraintFailed => "Constraint check failed",
            Error::ConstraintSchemaInvalid => "Constraint refers outside the trace window",
        };
        text.to_owned()
    }
}

/// How many bits of security a proof is made for.
#[derive(Debug, Clone, Copy, PartialEq, Eq, Structural)]
pub enum SecurityLevel {
    /// 96 bits.
    Test96,
    /// 100 bits.
    Proven100,
    /// 128 bits.
    High128,
}

impl SecurityLevel {
    /// Queries per proof: 27, 28, 36.
    pub open spec fn queries(self) -> nat {
        match self {
            SecurityLevel::Test96 => 27,
            SecurityLevel::Proven100 => 28,
            SecurityLevel::High128 => 36,
        }
    }

    /// Size of the evaluation domain over the trace length: 8, 8, 16.
    pub open spec fn blowup(self) -> nat {
        match self {
            SecurityLevel::Test96 => 8,
            SecurityLevel::Proven100 => 8,
            SecurityLevel::High128 => 16,
        }
    }

    /// Bits of proof of work: 16, 20, 28.
    pub open spec fn grinding(self) -> nat {
        match self {
            SecurityLevel::Test96 => 16,
            SecurityLevel::Proven100 => 20,
            SecurityLevel::High128 => 28,
        }
    }

    pub fn num_queries(&self) -> (count: usize)
        ensures
            count == self.queries(),
    {
        match self {
            SecurityLevel::Test96 => 27,
            SecurityLevel::Proven100 => 28,
            SecurityLevel::High128 => 36,
        }
    }

    pub fn blowup_factor(&self) -> (factor: usize)
        ensures
            factor == self.blowup(),
    {
        match self {
            SecurityLevel::Test96 => 8,
            SecurityLevel::Proven100 => 8,
            SecurityLevel::High128 => 16,
        }
    }

    pub fn grinding_factor(&self) -> (bits: u32)
        ensures
            bits == self.grinding(),
    {
        match self {
            SecurityLevel::Test96 => 16,
            SecurityLevel::Proven100 => 20,
            SecurityLevel::High128 => 28,
        }
    }
}

/// Gas estimate of the Fibonacci verifier, part by part.
#[derive(Debug, Clone)]
pub struct GasEstimate {
    pub merkle_proofs: usize,
    pub constraint_checks: usize,
    pub field_operations: usize,
    pub overhead: usize,
    pub total: usize,
}

} // verus!
