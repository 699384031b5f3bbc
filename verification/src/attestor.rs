//! What a proof attestor decides: a contract in which one account, the
//! attestor, records the hashes of proofs that were verified elsewhere.
//!
//! As with the verifier contract, storage and caller belong to the
//! contract; the functions here take what was read as plain values.

use crate::bytes::append_bytes;
use crate::groth16::bytes_equal;
use crate::hash::{keccak256, spec_keccak256};
use vstd::prelude::*;
use vstd::string::StringSliceAdditionalSpecFns;

verus! {

/// Why the attestor refused a call.
#[derive(Debug, Clone, Copy, PartialEq, Eq, Structural)]
pub enum Error {
    AlreadyInitialized,
    NotAttestor,
    AlreadyAttested,
    NotOwnerForAttestor,
    NotOwnerForTransfer,
    RecoveryUnavailable,
}

impl Error {
    pub open spec fn message_spec(self) -> &'static str {
        match self {
            Error::AlreadyInitialized => "Already initialized",
            Error::NotAttestor => "Only attestor can attest",
            Error::AlreadyAttested => "Proof already attested",
            Error::NotOwnerForAttestor => "Only owner can set attestor",
            Error::NotOwnerForTransfer => "Only owner can transfer ownership",
            Error::RecoveryUnavailable => "ecrecover not available in SDK 0.5.0",
        }
    }

    /// The message that goes with this error.
    pub fn message(self) -> (text: &'static str)
        ensures
            text@ == self.message_spec()@,
    {
        match self {
            Error::AlreadyInitialized => "Already initialized",
            Error::NotAttestor => "Only attestor can attest",
            Error::AlreadyAttested => "Proof already attested",
            Error::NotOwnerForAttestor => "Only owner can set attestor",
            Error::NotOwnerForTransfer => "Only owner can transfer ownership",
            Error::RecoveryUnavailable => "ecrecover not available in SDK 0.5.0",
        }
    }

    /// The message as bytes, the form in which a contract returns it.
    pub fn into_bytes(self) -> (out: Vec<u8>)
        ensures
            out@ == self.message_spec().spec_bytes(),
    {
        let text = self.message();
        let raw = text.as_bytes();
        crate::bytes::copy_range(raw, 0, raw.len())
    }
}

/// Sets the contract up; it can be set up once.
pub fn initialize(initialized: bool) -> (result: Result<(), Error>)
    ensures
        result == if initialized {
            Err::<(), Error>(Error::AlreadyInitialized)
        } else {
            Ok::<(), Error>(())
        },
{
    if initialized {
        Err(Error::AlreadyInitialized)
    } else {
        Ok(())
    }
}

/// Records a proof hash. Only the attestor may, and a hash is recorded
/// once; `attested` says whether the contract holds it already. The caller
/// is looked at first.
pub fn attest_proof(sender: &[u8; 20], attestor: &[u8; 20], attested: bool) -> (result: Result<
    (),
    Error,
>)
    ensures
        result == if sender@ != attestor@ {
            Err::<(), Error>(Error::NotAttestor)
        } else if attested {
            Err::<(), Error>(Error::AlreadyAttested)
        } else {
            Ok::<(), Error>(())
        },
{
    if !bytes_equal(sender.as_slice(), attestor.as_slice()) {
        return Err(Error::NotAttestor);
    }
    if attested {
        return Err(Error::AlreadyAttested);
    }
    Ok(())
}

/// Names another attestor. Only the owner may.
pub fn set_attestor(sender: &[u8; 20], owner: &[u8; 20]) -> (result: Result<(), Error>)
    ensures
        result == if sender@ == owner@ {
            Ok::<(), Error>(())
        } else {
            Err::<(), Error>(Error::NotOwnerForAttestor)
        },
{
    if bytes_equal(sender.as_slice(), owner.as_slice()) {
        Ok(())
    } else {
        Err(Error::NotOwnerForAttestor)
    }
}

/// Hands the contract to another owner. Only the owner may.
pub fn transfer_ownership(sender: &[u8; 20], owner: &[u8; 20]) -> (result: Result<(), Error>)
    ensures
        result == if sender@ == owner@ {
            Ok::<(), Error>(())
        } else {
            Err::<(), Error>(Error::NotOwnerForTransfer)
        },
{
    if bytes_equal(sender.as_slice(), owner.as_slice()) {
        Ok(())
    } else {
        Err(Error::NotOwnerForTransfer)
    }
}

/// The prefix of a signed message of 32 bytes:
/// `"\x19Ethereum Signed Message:\n32"`.
pub open spec fn signed_prefix() -> Seq<u8> {
    seq![
        0x19u8, 0x45u8, 0x74u8, 0x68u8, 0x65u8, 0x72u8, 0x65u8, 0x75u8, 0x6du8, 0x20u8, 0x53u8,
        0x69u8, 0x67u8, 0x6eu8, 0x65u8, 0x64u8, 0x20u8, 0x4du8, 0x65u8, 0x73u8, 0x73u8, 0x61u8,
        0x67u8, 0x65u8, 0x3au8, 0x0au8, 0x33u8, 0x32u8,
    ]
}

/// The digest that the signer of a proof hash signed: the Keccak-256 digest
/// of the prefix and the hash.
pub fn signed_message_hash(proof_hash: &[u8; 32]) -> (digest: [u8; 32])
    ensures
        digest@ == spec_keccak256(signed_prefix() + proof_hash@),
{
    let prefix: [u8; 28] = [
        0x19u8, 0x45u8, 0x74u8, 0x68u8, 0x65u8, 0x72u8, 0x65u8, 0x75u8, 0x6du8, 0x20u8, 0x53u8,
        0x69u8, 0x67u8, 0x6eu8, 0x65u8, 0x64u8, 0x20u8, 0x4du8, 0x65u8, 0x73u8, 0x73u8, 0x61u8,
        0x67u8, 0x65u8, 0x3au8, 0x0au8, 0x33u8, 0x32u8,
    ];
    let mut message: Vec<u8> = Vec::new();
    append_bytes(&mut message, prefix.as_slice());
    assert(message@ =~= signed_prefix());
    append_bytes(&mut message, proof_hash.as_slice());
    keccak256(message.as_slice())
}

/// Recovers the signer of a proof hash from a signature. No signer is
/// recovered: the call fails with `RecoveryUnavailable` on every input.
pub fn recover_signer(proof_hash: &[u8; 32], v: u8, r: &[u8; 32], s: &[u8; 32]) -> (result: Result<
    [u8; 20],
    Error,
>)
    ensures
        result == Err::<[u8; 20], Error>(Error::RecoveryUnavailable),
{
    Err(Error::RecoveryUnavailable)
}

} // verus!
