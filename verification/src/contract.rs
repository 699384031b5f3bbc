//! What a verifier contract decides.
//!
//! Storage, the caller and the clock belong to the contract that runs the
//! verifier. Every function here takes what was read from them as plain
//! values and says what the call returns and what is to be written or
//! logged; the contract does the reading, the writing and the logging.

use crate::bytes::{append_bytes, append_word, append_zeros, be_bytes, read_array32, zeros};
use crate::error::Error;
use crate::groth16::bytes_equal;
use crate::hash::{keccak256, spec_keccak256};
use crate::types::ProofType;
use vstd::prelude::*;

verus! {

/// The first topic of the log entry for a verified proof.
pub const PROOF_VERIFIED_TOPIC: [u8; 32] = [
    0x4d, 0x3b, 0x2d, 0x4e, 0x8c, 0x5b, 0x1a, 0x5d,
    0x9e, 0x7f, 0x3c, 0x2b, 0x1a, 0x9d, 0x8e, 0x7f,
    0x6c, 0x5b, 0x4a, 0x3d, 0x2e, 0x1f, 0x0c, 0x9b,
    0x8a, 0x7d, 0x6e, 0x5f, 0x4c, 0x3b, 0x2a, 0x1d,
];

/// The first topic of the log entry for a registered key.
pub const VK_REGISTERED_TOPIC: [u8; 32] = [
    0x7e, 0x4d, 0x5f, 0x3c, 0x2b, 0x1a, 0x9d, 0x8e,
    0x7f, 0x6c, 0x5b, 0x4a, 0x3d, 0x2e, 0x1f, 0x0c,
    0x9b, 0x8a, 0x7d, 0x6e, 0x5f, 0x4c, 0x3b, 0x2a,
    0x1d, 0x0e, 0x9f, 0x8c, 0x7b, 0x6a, 0x5d, 0x4e,
];

/// A log entry: four topics and the data that is not indexed.
#[derive(Debug, Clone, PartialEq, Eq)]
pub struct Event {
    /// The topic that names the kind of entry.
    pub signature: [u8; 32],
    /// The number of the proof system, as a word.
    pub proof_type: [u8; 32],
    /// The number of the program, as a word.
    pub program_id: [u8; 32],
    /// The hash of the key.
    pub vk_hash: [u8; 32],
    pub data: Vec<u8>,
}

/// The data of the entry for a verified proof: the caller, the verdict and
/// the time, a word each.
pub open spec fn proof_verified_data(caller: [u8; 20], success: bool, timestamp: u64) -> Seq<u8> {
    zeros(12) + caller@ + be_bytes(
        if success {
            1
        } else {
            0
        },
        32,
    ) + be_bytes(timestamp as nat, 32)
}

/// The data of the entry for a registered key: who registered it and when,
/// a word each.
pub open spec fn vk_registered_data(registrar: [u8; 20], timestamp: u64) -> Seq<u8> {
    zeros(12) + registrar@ + be_bytes(timestamp as nat, 32)
}

/// A number as a topic.
fn topic_of(value: u32) -> (topic: [u8; 32])
    ensures
        topic@ == be_bytes(value as nat, 32),
{
    let mut buf: Vec<u8> = Vec::new();
    append_word(&mut buf, value as u128);
    proof {
        crate::bytes::lemma_be_bytes_len(value as nat, 32);
        assert(buf@ =~= be_bytes(value as nat, 32));
        assert(buf@.subrange(0, 32) =~= buf@);
    }
    read_array32(buf.as_slice(), 0)
}

/// The log entry for a proof that was verified at `timestamp` on behalf of
/// `caller`, with the verdict `success`.
pub fn proof_verified_event(
    proof_type: u8,
    program_id: u32,
    vk_hash: [u8; 32],
    caller: &[u8; 20],
    success: bool,
    timestamp: u64,
) -> (event: Event)
    ensures
        event.signature == PROOF_VERIFIED_TOPIC,
        event.proof_type@ == be_bytes(proof_type as nat, 32),
        event.program_id@ == be_bytes(program_id as nat, 32),
        event.vk_hash == vk_hash,
        event.data@ == proof_verified_data(*caller, success, timestamp),
{
    let mut data: Vec<u8> = Vec::new();
    append_zeros(&mut data, 12);
    append_bytes(&mut data, caller.as_slice());
    let flag: u128 = if success {
        1
    } else {
        0
    };
    append_word(&mut data, flag);
    append_word(&mut data, timestamp as u128);
    assert(data@ =~= proof_verified_data(*caller, success, timestamp));
    Event {
        signature: PROOF_VERIFIED_TOPIC,
        proof_type: topic_of(proof_type as u32),
        program_id: topic_of(program_id),
        vk_hash,
        data,
    }
}

/// The log entry for a key that `registrar` registered at `timestamp`.
pub fn vk_registered_event(
    proof_type: u8,
    program_id: u32,
    vk_hash: [u8; 32],
    registrar: &[u8; 20],
    timestamp: u64,
) -> (event: Event)
    ensures
        event.signature == VK_REGISTERED_TOPIC,
        event.proof_type@ == be_bytes(proof_type as nat, 32),
        event.program_id@ == be_bytes(program_id as nat, 32),
        event.vk_hash == vk_hash,
        event.data@ == vk_registered_data(*registrar, timestamp),
{
    let mut data: Vec<u8> = Vec::new();
    append_zeros(&mut data, 12);
    append_bytes(&mut data, registrar.as_slice());
    append_word(&mut data, timestamp as u128);
    assert(data@ =~= vk_registered_data(*registrar, timestamp));
    Event {
        signature: VK_REGISTERED_TOPIC,
        proof_type: topic_of(proof_type as u32),
        program_id: topic_of(program_id),
        vk_hash,
        data,
    }
}

/// The verdict on a Groth16 proof under what is stored for a key hash: an
/// empty key is a key that was never registered; a stored pairing is used
/// where there is one.
pub open spec fn stored_groth16_verdict(
    proof_bytes: Seq<u8>,
    public_inputs: Seq<u8>,
    vk_data: Seq<u8>,
    precomputed: Seq<u8>,
) -> Result<bool, Error> {
    if vk_data.len() == 0 {
        Err(Error::VKNotRegistered)
    } else if precomputed.len() != 0 {
        match crate::groth16::verdict_precomputed(proof_bytes, public_inputs, vk_data, precomputed) {
            Ok(valid) => Ok(valid),
            Err(e) => Err(Error::of_groth16(e)),
        }
    } else {
        match crate::groth16::verdict(proof_bytes, public_inputs, vk_data) {
            Ok(valid) => Ok(valid),
            Err(e) => Err(Error::of_groth16(e)),
        }
    }
}

fn verify_stored_groth16(
    proof_bytes: &[u8],
    public_inputs: &[u8],
    vk_data: &[u8],
    precomputed: &[u8],
) -> (result: Result<bool, Error>)
    ensures
        result == stored_groth16_verdict(proof_bytes@, public_inputs@, vk_data@, precomputed@),
{
    if vk_data.len() == 0 {
        return Err(Error::VKNotRegistered);
    }
    let verdict = if precomputed.len() != 0 {
        crate::groth16::verify_with_precomputed(proof_bytes, public_inputs, vk_data, precomputed)
    } else {
        crate::groth16::verify(proof_bytes, public_inputs, vk_data)
    };
    match verdict {
        Ok(valid) => Ok(valid),
        Err(e) => Err(Error::from_groth16(e)),
    }
}

/// Verifies a Groth16 proof under the key and the pairing that the contract
/// holds for a key hash. Nothing is verified while the contract is paused.
/// The contract counts the proof where the result is `Ok(true)`.
pub fn verify_groth16(
    paused: bool,
    proof_bytes: &[u8],
    public_inputs: &[u8],
    vk_data: &[u8],
    precomputed: &[u8],
) -> (result: Result<bool, Error>)
    ensures
        result == if paused {
            Err::<bool, Error>(Error::ContractPaused)
        } else {
            stored_groth16_verdict(proof_bytes@, public_inputs@, vk_data@, precomputed@)
        },
{
    if paused {
        return Err(Error::ContractPaused);
    }
    verify_stored_groth16(proof_bytes, public_inputs, vk_data, precomputed)
}

/// The verdict of `verify`: the pause comes first, then the number of the
/// proof system, then the key, which Groth16 and PLONK need and STARK does
/// not. An error of PLONK or STARK verification is `VerificationFailed`.
pub open spec fn entry_verdict(
    paused: bool,
    proof_type: u8,
    proof_bytes: Seq<u8>,
    public_inputs: Seq<u8>,
    vk_data: Seq<u8>,
    precomputed: Seq<u8>,
) -> Result<bool, Error> {
    if paused {
        Err(Error::ContractPaused)
    } else {
        match ProofType::from_code(proof_type) {
            None => Err(Error::InvalidProofType),
            Some(ProofType::Groth16) => stored_groth16_verdict(
                proof_bytes,
                public_inputs,
                vk_data,
                precomputed,
            ),
            Some(ProofType::PLONK) => if vk_data.len() == 0 {
                Err(Error::VKNotRegistered)
            } else {
                match crate::plonk::verdict(proof_bytes, public_inputs, vk_data) {
                    Ok(valid) => Ok(valid),
                    Err(_) => Err(Error::VerificationFailed),
                }
            },
            Some(ProofType::STARK) => match crate::stark::byte_verdict(proof_bytes, public_inputs) {
                Ok(valid) => Ok(valid),
                Err(_) => Err(Error::VerificationFailed),
            },
        }
    }
}

/// Verifies a proof of the proof system with the given number under what
/// the contract holds for a key hash.
pub fn verify(
    paused: bool,
    proof_type: u8,
    proof_bytes: &[u8],
    public_inputs: &[u8],
    vk_data: &[u8],
    precomputed: &[u8],
) -> (result: Result<bool, Error>)
    ensures
        result == entry_verdict(
            paused,
            proof_type,
            proof_bytes@,
            public_inputs@,
            vk_data@,
            precomputed@,
        ),
{
    if paused {
        return Err(Error::ContractPaused);
    }
    let system = match ProofType::from_u8(proof_type) {
        Some(system) => system,
        None => {
            return Err(Error::InvalidProofType);
        },
    };
    match system {
        ProofType::Groth16 => verify_stored_groth16(
            proof_bytes,
            public_inputs,
            vk_data,
            precomputed,
        ),
        ProofType::PLONK => {
            if vk_data.len() == 0 {
                return Err(Error::VKNotRegistered);
            }
            match crate::plonk::verify(proof_bytes, public_inputs, vk_data) {
                Ok(valid) => Ok(valid),
                Err(_) => Err(Error::VerificationFailed),
            }
        },
        ProofType::STARK => match crate::stark::verify_proof(proof_bytes, public_inputs) {
            Ok(valid) => Ok(valid),
            Err(_) => Err(Error::VerificationFailed),
        },
    }
}

/// What a batch needs before its first proof is looked at.
pub open spec fn batch_admission(
    paused: bool,
    proof_type: u8,
    proofs: Seq<Vec<u8>>,
    public_inputs: Seq<Vec<u8>>,
    vk_data: Seq<u8>,
    precomputed: Seq<u8>,
) -> Result<ProofType, Error> {
    if paused {
        Err(Error::ContractPaused)
    } else if proofs.len() != public_inputs.len() {
        Err(Error::InvalidInputSize)
    } else {
        match ProofType::from_code(proof_type) {
            None => Err(Error::InvalidProofType),
            Some(ProofType::Groth16) => if vk_data.len() == 0 {
                Err(Error::VKNotRegistered)
            } else {
                match crate::groth16::batch_admission(proofs, public_inputs, vk_data, precomputed) {
                    Ok(_) => Ok(ProofType::Groth16),
                    Err(e) => Err(Error::of_groth16(e)),
                }
            },
            Some(ProofType::PLONK) => if vk_data.len() == 0 {
                Err(Error::VKNotRegistered)
            } else {
                Ok(ProofType::PLONK)
            },
            Some(ProofType::STARK) => Ok(ProofType::STARK),
        }
    }
}

/// The verdict on one proof of a batch: whether single verification accepts
/// it.
pub open spec fn batch_verdict(
    system: ProofType,
    proof_bytes: Seq<u8>,
    public_inputs: Seq<u8>,
    vk_data: Seq<u8>,
    precomputed: Seq<u8>,
) -> bool {
    match system {
        ProofType::Groth16 => crate::groth16::batch_verdict(
            proof_bytes,
            public_inputs,
            vk_data,
            precomputed,
        ),
        ProofType::PLONK => crate::plonk::verdict(proof_bytes, public_inputs, vk_data) == Ok::<
            bool,
            crate::plonk::Error,
        >(true),
        ProofType::STARK => crate::stark::byte_verdict(proof_bytes, public_inputs) == Ok::<
            bool,
            crate::stark::types::Error,
        >(true),
    }
}

/// Verifies proofs of one proof system under one key. The contract counts
/// as many proofs as `count_valid` finds in the result.
pub fn batch_verify(
    paused: bool,
    proof_type: u8,
    proofs: &[Vec<u8>],
    public_inputs: &[Vec<u8>],
    vk_data: &[u8],
    precomputed: &[u8],
) -> (result: Result<Vec<bool>, Error>)
    ensures
        match result {
            Ok(results) => match batch_admission(
                paused,
                proof_type,
                proofs@,
                public_inputs@,
                vk_data@,
                precomputed@,
            ) {
                Ok(system) => {
                    &&& results@.len() == proofs@.len()
                    &&& forall|i: int|
                        0 <= i < results@.len() ==> #[trigger] results@[i] == batch_verdict(
                            system,
                            proofs@[i]@,
                            public_inputs@[i]@,
                            vk_data@,
                            precomputed@,
                        )
                },
                Err(_) => false,
            },
            Err(e) => batch_admission(
                paused,
                proof_type,
                proofs@,
                public_inputs@,
                vk_data@,
                precomputed@,
            ) == Err::<ProofType, Error>(e),
        },
{
    if paused {
        return Err(Error::ContractPaused);
    }
    if proofs.len() != public_inputs.len() {
        return Err(Error::InvalidInputSize);
    }
    let system = match ProofType::from_u8(proof_type) {
        Some(system) => system,
        None => {
            return Err(Error::InvalidProofType);
        },
    };
    match system {
        ProofType::Groth16 => {
            if vk_data.len() == 0 {
                return Err(Error::VKNotRegistered);
            }
            match crate::groth16::batch_verify(proofs, public_inputs, vk_data, precomputed) {
                Ok(results) => Ok(results),
                Err(e) => Err(Error::from_groth16(e)),
            }
        },
        ProofType::PLONK => {
            if vk_data.len() == 0 {
                return Err(Error::VKNotRegistered);
            }
            match crate::plonk::batch_verify(proofs, public_inputs, vk_data) {
                Ok(results) => Ok(results),
                Err(_) => Err(Error::VerificationFailed),
            }
        },
        ProofType::STARK => match crate::stark::batch_verify_proofs(proofs, public_inputs) {
            Ok(results) => Ok(results),
            Err(_) => Err(Error::VerificationFailed),
        },
    }
}

/// How many of the first `n` verdicts are `true`.
pub open spec fn valid_count(results: Seq<bool>, n: nat) -> nat
    decreases n,
{
    if n == 0 {
        0
    } else {
        valid_count(results, (n - 1) as nat) + if results[n - 1] {
            1nat
        } else {
            0nat
        }
    }
}

/// The number of accepted proofs in the result of a batch.
pub fn count_valid(results: &[bool]) -> (count: usize)
    ensures
        count == valid_count(results@, results@.len()),
{
    let mut count: usize = 0;
    let mut i: usize = 0;
    while i < results.len()
        invariant
            i <= results@.len(),
            count == valid_count(results@, i as nat),
            count <= i,
        decreases results@.len() - i,
    {
        if results[i] {
            count = count + 1;
        }
        i = i + 1;
    }
    count
}

/// The hash under which a key is registered, the Keccak-256 digest of its
/// bytes.
pub fn key_hash(vk: &[u8]) -> (hash: [u8; 32])
    ensures
        hash@ == spec_keccak256(vk@),
{
    keccak256(vk)
}

/// What is stored beside a key of the given proof system: for a Groth16
/// key, the pairing of its `alpha` and `beta`, where the key is valid and
/// the pairing has a value; else nothing.
pub open spec fn precomputation(system: ProofType, vk: Seq<u8>) -> Option<Seq<u8>> {
    if system == ProofType::Groth16 && crate::groth16::vk_layout_ok(vk)
        && crate::groth16::vk_valid(crate::groth16::parse_vk_spec(vk)) {
        crate::groth16::alpha_beta_spec(crate::groth16::parse_vk_spec(vk))
    } else {
        None
    }
}

/// What a registration does.
#[derive(Debug, Clone, PartialEq, Eq)]
pub struct Registration {
    /// The hash of the key, which the call returns.
    pub vk_hash: [u8; 32],
    /// Whether the key is to be stored; it is not where it is stored
    /// already.
    pub store: bool,
    /// The pairing to be stored beside the key; empty where there is none.
    pub precomputed: Vec<u8>,
}

/// What `register` does to a key that is, or is not, registered already.
pub open spec fn registration_of(system: ProofType, vk: Seq<u8>, registered: bool, r: Registration) -> bool {
    &&& r.vk_hash@ == spec_keccak256(vk)
    &&& r.store == !registered
    &&& r.precomputed@ == if registered {
        Seq::<u8>::empty()
    } else {
        match precomputation(system, vk) {
            Some(pairing) => pairing,
            None => Seq::<u8>::empty(),
        }
    }
}

/// Registers a key of a proof system. `registered` says whether the
/// contract holds the key already, under the hash that `key_hash` gives:
/// registering it again changes nothing. A key that fails the
/// precomputation is registered without a stored pairing.
pub fn register(system: ProofType, vk: &[u8], registered: bool) -> (registration: Registration)
    ensures
        registration_of(system, vk@, registered, registration),
{
    let vk_hash = keccak256(vk);
    if registered {
        return Registration { vk_hash, store: false, precomputed: Vec::new() };
    }
    let precomputed = match system {
        ProofType::Groth16 => match crate::groth16::compute_precomputed_pairing(vk) {
            Ok(pairing) => pairing,
            Err(_) => Vec::new(),
        },
        _ => Vec::new(),
    };
    Registration { vk_hash, store: true, precomputed }
}

/// Registers a key without naming its proof system: the key is taken for a
/// Groth16 key.
pub fn register_vk(vk: &[u8], registered: bool) -> (registration: Registration)
    ensures
        registration_of(ProofType::Groth16, vk@, registered, registration),
{
    register(ProofType::Groth16, vk, registered)
}

/// Registers a key for the proof system with the given number; an unknown
/// number fails with `InvalidProofType`.
pub fn register_vk_typed(proof_type: u8, vk: &[u8], registered: bool) -> (result: Result<
    Registration,
    Error,
>)
    ensures
        match result {
            Ok(registration) => match ProofType::from_code(proof_type) {
                Some(system) => registration_of(system, vk@, registered, registration),
                None => false,
            },
            Err(e) => ProofType::from_code(proof_type).is_none() && e == Error::InvalidProofType,
        },
{
    match ProofType::from_u8(proof_type) {
        Some(system) => Ok(register(system, vk, registered)),
        None => Err(Error::InvalidProofType),
    }
}

/// Registers a key for a proof system and a program. Beside what
/// `register_vk_typed` gives, the result holds the log entry of the
/// registration, where the key was not registered before.
pub fn register_vk_universal(
    proof_type: u8,
    program_id: u32,
    vk: &[u8],
    registered: bool,
    registrar: &[u8; 20],
    timestamp: u64,
) -> (result: Result<(Registration, Option<Event>), Error>)
    ensures
        match result {
            Ok((registration, event)) => match ProofType::from_code(proof_type) {
                Some(system) => {
                    &&& registration_of(system, vk@, registered, registration)
                    &&& event.is_some() == !registered
                    &&& match event {
                        Some(entry) => {
                            &&& entry.signature == VK_REGISTERED_TOPIC
                            &&& entry.proof_type@ == be_bytes(proof_type as nat, 32)
                            &&& entry.program_id@ == be_bytes(program_id as nat, 32)
                            &&& entry.vk_hash == registration.vk_hash
                            &&& entry.data@ == vk_registered_data(*registrar, timestamp)
                        },
                        None => true,
                    }
                },
                None => false,
            },
            Err(e) => ProofType::from_code(proof_type).is_none() && e == Error::InvalidProofType,
        },
{
    let system = match ProofType::from_u8(proof_type) {
        Some(system) => system,
        None => {
            return Err(Error::InvalidProofType);
        },
    };
    let registration = register(system, vk, registered);
    let event = if registered {
        None
    } else {
        Some(vk_registered_event(proof_type, program_id, registration.vk_hash, registrar, timestamp))
    };
    Ok((registration, event))
}

/// Marks a nullifier as used. `used` says whether the contract holds it
/// already. The result says whether it is to be stored now: a nullifier is
/// stored once, and not while the contract is paused.
pub fn mark_nullifier_used(paused: bool, used: bool) -> (result: Result<bool, Error>)
    ensures
        result == if paused {
            Err::<bool, Error>(Error::ContractPaused)
        } else {
            Ok::<bool, Error>(!used)
        },
{
    if paused {
        return Err(Error::ContractPaused);
    }
    Ok(!used)
}

/// Whether `sender` may do what only the administrator may.
pub fn only_admin(sender: &[u8; 20], admin: &[u8; 20]) -> (result: Result<(), Error>)
    ensures
        result == if sender@ == admin@ {
            Ok::<(), Error>(())
        } else {
            Err::<(), Error>(Error::Unauthorized)
        },
{
    if bytes_equal(sender.as_slice(), admin.as_slice()) {
        Ok(())
    } else {
        Err(Error::Unauthorized)
    }
}

/// Pauses the contract: the pause flag that is to be stored, where the
/// administrator asks.
pub fn pause(sender: &[u8; 20], admin: &[u8; 20]) -> (result: Result<bool, Error>)
    ensures
        result == if sender@ == admin@ {
            Ok::<bool, Error>(true)
        } else {
            Err::<bool, Error>(Error::Unauthorized)
        },
{
    match only_admin(sender, admin) {
        Ok(_) => Ok(true),
        Err(e) => Err(e),
    }
}

/// Ends a pause: the pause flag that is to be stored, where the
/// administrator asks.
pub fn unpause(sender: &[u8; 20], admin: &[u8; 20]) -> (result: Result<bool, Error>)
    ensures
        result == if sender@ == admin@ {
            Ok::<bool, Error>(false)
        } else {
            Err::<bool, Error>(Error::Unauthorized)
        },
{
    match only_admin(sender, admin) {
        Ok(_) => Ok(false),
        Err(e) => Err(e),
    }
}

} // verus!
