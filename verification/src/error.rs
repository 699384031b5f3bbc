//! Errors of the dispatch boundary.

use vstd::prelude::*;
use vstd::string::StringSliceAdditionalSpecFns;

verus! {

/// Why a call at the dispatch boundary could not give a verdict.
#[derive(Debug, Clone, Copy, PartialEq, Eq, Structural)]
pub enum Error {
    /// Proof deserialization failed.
    DeserializationError,
    /// Proof contains invalid curve points.
    MalformedProof,
    /// Verification key deserialization failed.
    InvalidVerificationKey,
    /// Public inputs deserialization failed.
    InvalidPublicInputs,
    /// Proof verification failed.
    VerificationFailed,
    /// Input size constraints violated.
    InvalidInputSize,
    /// The verifier is paused.
    ContractPaused,
    /// Verification key not registered.
    VKNotRegistered,
    /// Unauthorized access.
    Unauthorized,
    /// Invalid proof type.
    InvalidProofType,
    /// Proof type not supported.
    ProofTypeNotSupported,
    /// The envelope could not be decoded.
    InvalidProofFormat,
    /// The estimated cost is above the gas budget.
    GasBudgetExceeded,
}

impl Error {
    /// The error of the dispatch boundary that stands for a Groth16 error.
    pub open spec fn of_groth16(e: crate::groth16::Error) -> Error {
        match e {
            crate::groth16::Error::DeserializationError => Error::DeserializationError,
            crate::groth16::Error::MalformedProof => Error::MalformedProof,
            crate::groth16::Error::InvalidVerificationKey => Error::InvalidVerificationKey,
            crate::groth16::Error::InvalidPublicInputs => Error::InvalidPublicInputs,
            crate::groth16::Error::VerificationFailed => Error::VerificationFailed,
            crate::groth16::Error::InvalidInputSize => Error::InvalidInputSize,
        }
    }

    /// The error of the dispatch boundary that stands for a Groth16 error.
    pub fn from_groth16(e: crate::groth16::Error) -> (result: Error)
        ensures
            result == Self::of_groth16(e),
    {
        match e {
            crate::groth16::Error::DeserializationError => Error::DeserializationError,
            crate::groth16::Error::MalformedProof => Error::MalformedProof,
            crate::groth16::Error::InvalidVerificationKey => Error::InvalidVerificationKey,
            crate::groth16::Error::InvalidPublicInputs => Error::InvalidPublicInputs,
            crate::groth16::Error::VerificationFailed => Error::VerificationFailed,
            crate::groth16::Error::InvalidInputSize => Error::InvalidInputSize,
        }
    }

    /// The message that goes with this error.
    pub fn message(self) -> (text: &'static str)
        ensures
            text@ == self.message_spec()@,
    {
        match self {
            Error::DeserializationError => "Failed to deserialize proof",
            Error::MalformedProof => "Proof contains invalid curve points",
            Error::InvalidVerificationKey => "Invalid verification key",
            Error::InvalidPublicInputs => "Invalid public inputs",
            Error::VerificationFailed => "Proof verification failed",
            Error::InvalidInputSize => "Input size exceeds limits",
            Error::ContractPaused => "Contract is paused",
            Error::VKNotRegistered => "Verification key not registered",
            Error::Unauthorized => "Unauthorized access",
            Error::InvalidProofType => "Invalid proof type",
            Error::ProofTypeNotSupported => "Proof type not supported yet",
            Error::InvalidProofFormat => "Invalid UniversalProof format",
            Error::GasBudgetExceeded => "Gas budget exceeded",
        }
    }

    pub open spec fn message_spec(self) -> &'static str {
        match self {
            Error::DeserializationError => "Failed to deserialize proof",
            Error::MalformedProof => "Proof contains invalid curve points",
            Error::InvalidVerificationKey => "Invalid verification key",
            Error::InvalidPublicInputs => "Invalid public inputs",
            Error::VerificationFailed => "Proof verification failed",
            Error::InvalidInputSize => "Input size exceeds limits",
            Error::ContractPaused => "Contract is paused",
            Error::VKNotRegistered => "Verification key not registered",
            Error::Unauthorized => "Unauthorized access",
            Error::InvalidProofType => "Invalid proof type",
            Error::ProofTypeNotSupported => "Proof type not supported yet",
            Error::InvalidProofFormat => "Invalid UniversalProof format",
            Error::GasBudgetExceeded => "Gas budget exceeded",
        }
    }

    /// The message as an owned string.
    pub fn to_string(&self) -> (text: String)
        ensures
            text@ == self.message_spec()@,
    {
        self.message().to_owned()
    }

    /// The message as bytes, the form in which a contract returns it.
    pub fn into_bytes(self) -> (out: Vec<u8>)
        ensures
            out@ == self.message_spec().spec_bytes(),
    {
        let text = self.message();
        let raw = text.as_bytes();
        crate::bytes::copy_range(raw, 0, raw.len())
    }
}

impl From<crate::groth16::Error> for Error {
    fn from(e: crate::groth16::Error) -> (result: Error) {
        Error::from_groth16(e)
    }
}

impl vstd::std_specs::convert::FromSpecImpl<crate::groth16::Error> for Error {
    open spec fn obeys_from_spec() -> bool {
        true
    }

    open spec fn from_spec(e: crate::groth16::Error) -> Error {
        Error::of_groth16(e)
    }
}

} // verus!
