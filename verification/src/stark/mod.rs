//! Transparent-setup proofs: hash commitments, low-degree tests and
//! constraint evaluation over an execution trace.

pub mod air;
pub mod congruence;
pub mod constraints;
pub mod domain;
pub mod fibonacci;
pub mod fri;
pub mod merkle;
pub mod stark;
pub mod types;
pub mod fibonacci_verifier;
pub mod wire;

pub use fibonacci::{FibonacciProof, FibonacciTrace};
pub use types::{Error, GasEstimate, SecurityLevel};
pub use fibonacci_verifier::{estimate_gas_cost, StarkVerifier};

use crate::bytes::{be_value, lemma_be_value_bound, lemma_pow256_values, read_be};
use crate::field::{scalar_of, Scalar};
use crate::pow2::{is_pow2, is_power_of_two, log2_floor, next_pow2};
use crate::stark::air::{field_fib, Assertion, FibonacciAir, FibonacciTraceGenerator};
use crate::stark::congruence::{
    is_fibonacci_key, lemma_verdict_same, same_key, same_proof, same_query,
};
use crate::stark::domain::{evaluation_domain, evaluation_domain_spec};
use crate::stark::stark::{stark_verdict, StarkProof, StarkVerificationKey};
use crate::stark::wire::{
    decode_proof, decodes_to, fri_base, fri_path_len, item_decodes, item_size, layer_decodes,
    layer_size, layout_ok, query_decodes, query_size, trace_path_len,
};
use crate::verifier_traits::{
    all_invalid, results_of, CryptoAssumption, GasCost, RecursionSupport, SecurityModel,
    SetupType, VerifyResult, ZkVerifier,
};
use vstd::prelude::*;

verus! {

/// The security level of proofs that come as bytes: 100 bits.
pub open spec fn entry_level() -> SecurityLevel {
    SecurityLevel::Proven100
}

/// The FRI layers of the key for a trace of `trace_length` rows at the
/// level of the byte entry.
pub open spec fn entry_layers(trace_length: usize) -> nat {
    log2_floor(next_pow2(((trace_length * entry_level().blowup()) / 7) as nat))
}

/// The assertions that follow from the public inputs: the two initial
/// values in the first two rows, and in the last row the value of the
/// Fibonacci sequence that starts with them.
pub open spec fn fibonacci_assertions(trace_length: usize, first: u64, second: u64) -> Seq<
    Assertion,
> {
    seq![
        Assertion { column: 0, step: 0, value: scalar_of(first as nat) },
        Assertion { column: 0, step: 1, value: scalar_of(second as nat) },
        Assertion {
            column: 0,
            step: (trace_length - 1) as usize,
            value: field_fib(
                scalar_of(first as nat),
                scalar_of(second as nat),
                (trace_length - 1) as nat,
            ),
        },
    ]
}

/// What the verdict of the verifier is at the byte entry. A proof that
/// passes is valid. A proof whose constraints, boundary values, Merkle
/// paths or FRI layers fail is a false proof, which is no error. Whatever
/// else the verifier finds is an error: the proof could not be checked.
pub open spec fn outcome_of(verdict: Result<(), Error>) -> Result<bool, Error> {
    match verdict {
        Ok(_) => Ok(true),
        Err(Error::ConstraintFailed) => Ok(false),
        Err(Error::BoundaryConstraintFailed) => Ok(false),
        Err(Error::MerkleProofFailed) => Ok(false),
        Err(Error::FriVerificationFailed) => Ok(false),
        Err(e) => Err(e),
    }
}

/// The verdict on the proof that a byte string of the layout holds, under
/// the Fibonacci key for the trace length, the assertions of the public
/// inputs and the evaluation domain of the key. The verdict is that of
/// `StarkVerifier::verify` on any key of the computation and any proof that
/// the bytes decode to; all of them have one verdict.
pub open spec fn decoded_verdict(
    proof_bytes: Seq<u8>,
    trace_length: usize,
    first: u64,
    second: u64,
) -> Result<(), Error> {
    let pair = choose|pair: (StarkVerificationKey, StarkProof)|
        is_fibonacci_key(pair.0, trace_length, entry_level()) && decodes_to(
            proof_bytes,
            entry_level().queries(),
            entry_layers(trace_length),
            pair.1,
        );
    stark_verdict(
        pair.0,
        pair.1,
        fibonacci_assertions(trace_length, first, second),
        evaluation_domain_spec((trace_length * entry_level().blowup()) as nat),
    )
}

/// The outcome of the byte-level entry point. A proof has 32 bytes at least
/// and 1,000,000 at most; the public inputs start with the trace length and
/// the two initial values, eight big-endian bytes each; the trace length is
/// a power of two from 8 to 1,000,000. The proof bytes have to have the
/// layout of a proof for the key of that trace length at 100 bits, else
/// the call fails with `DeserializationError`. The proof they hold is then
/// verified in full: constraints, boundary values and Merkle paths of every
/// query, and the FRI proof.
pub open spec fn byte_verdict(proof_bytes: Seq<u8>, public_inputs: Seq<u8>) -> Result<bool, Error> {
    if proof_bytes.len() < 32 {
        Err(Error::DeserializationError)
    } else if proof_bytes.len() > 1_000_000 {
        Err(Error::InvalidInputSize)
    } else if public_inputs.len() < 24 {
        Err(Error::DeserializationError)
    } else {
        let trace_length = be_value(public_inputs.subrange(0, 8));
        let first = be_value(public_inputs.subrange(8, 16)) as u64;
        let second = be_value(public_inputs.subrange(16, 24)) as u64;
        if trace_length < 8 || trace_length > 1_000_000 || !is_pow2(trace_length) {
            Err(Error::InvalidInputSize)
        } else if !layout_ok(
            proof_bytes,
            entry_level().queries(),
            entry_layers(trace_length as usize),
        ) {
            Err(Error::DeserializationError)
        } else {
            outcome_of(decoded_verdict(proof_bytes, trace_length as usize, first, second))
        }
    }
}

/// A serialized proof is reported valid only where its bytes have the
/// layout of a proof and the verifier accepts the proof they hold:
/// constraints, boundary values, Merkle paths and FRI layers all pass.
pub proof fn lemma_valid_means_verified(proof_bytes: Seq<u8>, public_inputs: Seq<u8>)
    requires
        byte_verdict(proof_bytes, public_inputs) == Ok::<bool, Error>(true),
    ensures
        public_inputs.len() >= 24,
        layout_ok(
            proof_bytes,
            entry_level().queries(),
            entry_layers(be_value(public_inputs.subrange(0, 8)) as usize),
        ),
        decoded_verdict(
            proof_bytes,
            be_value(public_inputs.subrange(0, 8)) as usize,
            be_value(public_inputs.subrange(8, 16)) as u64,
            be_value(public_inputs.subrange(16, 24)) as u64,
        ) == Ok::<(), Error>(()),
{
}

/// Two keys of one Fibonacci computation hold the same.
pub proof fn lemma_fibonacci_keys_same(
    a: StarkVerificationKey,
    b: StarkVerificationKey,
    trace_length: usize,
    level: SecurityLevel,
)
    requires
        is_fibonacci_key(a, trace_length, level),
        is_fibonacci_key(b, trace_length, level),
    ensures
        same_key(a, b),
{
}

/// Two proofs that one byte string decodes to hold the same.
pub proof fn lemma_decoded_proofs_same(
    bytes: Seq<u8>,
    queries: nat,
    layers: nat,
    a: StarkProof,
    b: StarkProof,
)
    requires
        decodes_to(bytes, queries, layers, a),
        decodes_to(bytes, queries, layers, b),
    ensures
        same_proof(a, b),
{
    let dt = trace_path_len(bytes);
    let df = fri_path_len(bytes);
    assert forall|i: int| 0 <= i < a.trace_query_proofs@.len() implies same_query(
        #[trigger] a.trace_query_proofs@[i],
        b.trace_query_proofs@[i],
    ) by {
        assert(query_decodes(bytes, 108 + i * query_size(dt), dt, a.trace_query_proofs@[i]));
        assert(query_decodes(bytes, 108 + i * query_size(dt), dt, b.trace_query_proofs@[i]));
    }
    let fa = a.fri_proof;
    let fb = b.fri_proof;
    let base = fri_base(queries, dt) as int;
    assert(fa.layer_commitments@ =~= fb.layer_commitments@);
    assert forall|l: int| 0 <= l < fa.layer_evaluations@.len() implies (
    #[trigger] fa.layer_evaluations@[l])@ == fb.layer_evaluations@[l]@ by {
        let at = base + l * layer_size(queries, df);
        assert(layer_decodes(bytes, at, queries, df, fa.layer_proofs@[l]@, fa.layer_evaluations@[l]@));
        assert(layer_decodes(bytes, at, queries, df, fb.layer_proofs@[l]@, fb.layer_evaluations@[l]@));
        assert forall|q: int| 0 <= q < queries implies fa.layer_evaluations@[l]@[q]
            == fb.layer_evaluations@[l]@[q] by {
            assert(item_decodes(
                bytes,
                at + 32 + q * item_size(df),
                df,
                fa.layer_proofs@[l]@[q],
                fa.layer_evaluations@[l]@[q],
            ));
            assert(item_decodes(
                bytes,
                at + 32 + q * item_size(df),
                df,
                fb.layer_proofs@[l]@[q],
                fb.layer_evaluations@[l]@[q],
            ));
        }
        assert(fa.layer_evaluations@[l]@ =~= fb.layer_evaluations@[l]@);
    }
    assert forall|l: int| 0 <= l < fa.layer_proofs@.len() implies (#[trigger] fa.layer_proofs@[l])@.len()
        == fb.layer_proofs@[l]@.len() by {
        let at = base + l * layer_size(queries, df);
        assert(layer_decodes(bytes, at, queries, df, fa.layer_proofs@[l]@, fa.layer_evaluations@[l]@));
        assert(layer_decodes(bytes, at, queries, df, fb.layer_proofs@[l]@, fb.layer_evaluations@[l]@));
    }
    assert forall|l: int, q: int|
        0 <= l < fa.layer_proofs@.len() && 0 <= q < fa.layer_proofs@[l]@.len() implies {
        &&& (#[trigger] fa.layer_proofs@[l]@[q]).index == fb.layer_proofs@[l]@[q].index
        &&& fa.layer_proofs@[l]@[q].path@ == fb.layer_proofs@[l]@[q].path@
    } by {
        let at = base + l * layer_size(queries, df);
        assert(layer_decodes(bytes, at, queries, df, fa.layer_proofs@[l]@, fa.layer_evaluations@[l]@));
        assert(layer_decodes(bytes, at, queries, df, fb.layer_proofs@[l]@, fb.layer_evaluations@[l]@));
        assert(item_decodes(
            bytes,
            at + 32 + q * item_size(df),
            df,
            fa.layer_proofs@[l]@[q],
            fa.layer_evaluations@[l]@[q],
        ));
        assert(item_decodes(
            bytes,
            at + 32 + q * item_size(df),
            df,
            fb.layer_proofs@[l]@[q],
            fb.layer_evaluations@[l]@[q],
        ));
    }
}

/// Verifies a serialized proof of the Fibonacci computation against its
/// public inputs. `Ok(true)` is given to a proof that passes every check of
/// the verifier, and to no other.
pub fn verify_proof(proof_bytes: &[u8], public_inputs: &[u8]) -> (result: Result<bool, Error>)
    ensures
        result == byte_verdict(proof_bytes@, public_inputs@),
{
    if proof_bytes.len() < 32 {
        return Err(Error::DeserializationError);
    }
    if proof_bytes.len() > 1_000_000 {
        return Err(Error::InvalidInputSize);
    }
    if public_inputs.len() < 24 {
        return Err(Error::DeserializationError);
    }
    let length_wide: u128 = read_be(public_inputs, 0, 8);
    let first_wide: u128 = read_be(public_inputs, 8, 8);
    let second_wide: u128 = read_be(public_inputs, 16, 8);
    proof {
        lemma_be_value_bound(public_inputs@.subrange(8, 16));
        lemma_be_value_bound(public_inputs@.subrange(16, 24));
        lemma_pow256_values();
    }
    if length_wide < 8 || length_wide > 1_000_000 {
        return Err(Error::InvalidInputSize);
    }
    let trace_length: usize = length_wide as usize;
    if !is_power_of_two(trace_length) {
        return Err(Error::InvalidInputSize);
    }
    let first: u64 = first_wide as u64;
    let second: u64 = second_wide as u64;
    let level = SecurityLevel::Proven100;
    let vk = match StarkVerificationKey::new_fibonacci(trace_length, level) {
        Ok(vk) => vk,
        Err(e) => {
            return Err(e);
        },
    };
    let proof_ = match decode_proof(proof_bytes, level.num_queries(), vk.fri_options.num_layers) {
        Some(proof_) => proof_,
        None => {
            return Err(Error::DeserializationError);
        },
    };
    let initial_0 = Scalar::from_u64(first);
    let initial_1 = Scalar::from_u64(second);
    let expected = FibonacciTraceGenerator::new(initial_0, initial_1).get_nth_fibonacci(
        trace_length - 1,
    );
    let assertions = FibonacciAir::new(trace_length, initial_0, initial_1, expected).get_assertions();
    let domain = evaluation_domain(trace_length * 8);
    let verdict = crate::stark::stark::StarkVerifier::new().verify(
        &vk,
        &proof_,
        assertions.as_slice(),
        domain.as_slice(),
    );
    proof {
        let queries = entry_level().queries();
        let layers = entry_layers(trace_length);
        assert(is_fibonacci_key(vk, trace_length, entry_level()));
        assert(decodes_to(proof_bytes@, queries, layers, proof_));
        let witness = (vk, proof_);
        assert(is_fibonacci_key(witness.0, trace_length, entry_level()) && decodes_to(
            proof_bytes@,
            queries,
            layers,
            witness.1,
        ));
        let pair = choose|pair: (StarkVerificationKey, StarkProof)|
            is_fibonacci_key(pair.0, trace_length, entry_level()) && decodes_to(
                proof_bytes@,
                queries,
                layers,
                pair.1,
            );
        lemma_fibonacci_keys_same(vk, pair.0, trace_length, entry_level());
        lemma_decoded_proofs_same(proof_bytes@, queries, layers, proof_, pair.1);
        lemma_verdict_same(
            vk,
            pair.0,
            proof_,
            pair.1,
            fibonacci_assertions(trace_length, first, second),
            evaluation_domain_spec((trace_length * 8) as nat),
        );
        assert(assertions@ =~= fibonacci_assertions(trace_length, first, second));
        assert(verdict == decoded_verdict(proof_bytes@, trace_length, first, second));
    }
    match verdict {
        Ok(_) => Ok(true),
        Err(Error::ConstraintFailed) => Ok(false),
        Err(Error::BoundaryConstraintFailed) => Ok(false),
        Err(Error::MerkleProofFailed) => Ok(false),
        Err(Error::FriVerificationFailed) => Ok(false),
        Err(e) => Err(e),
    }
}

/// Checks proofs one after the other. The lists have to be of one length,
/// else the call fails with `InvalidInputSize`; a proof that fails its check
/// counts as not valid.
pub fn batch_verify_proofs(proofs: &[Vec<u8>], public_inputs: &[Vec<u8>]) -> (result: Result<
    Vec<bool>,
    Error,
>)
    ensures
        match result {
            Ok(results) => {
                &&& proofs@.len() == public_inputs@.len()
                &&& results@.len() == proofs@.len()
                &&& forall|i: int|
                    0 <= i < results@.len() ==> #[trigger] results@[i] == (byte_verdict(
                        proofs@[i]@,
                        public_inputs@[i]@,
                    ) == Ok::<bool, Error>(true))
            },
            Err(e) => proofs@.len() != public_inputs@.len() && e == Error::InvalidInputSize,
        },
{
    if proofs.len() != public_inputs.len() {
        return Err(Error::InvalidInputSize);
    }
    let mut results: Vec<bool> = Vec::new();
    let mut i: usize = 0;
    while i < proofs.len()
        invariant
            i <= proofs@.len(),
            proofs@.len() == public_inputs@.len(),
            results@.len() == i,
            forall|k: int|
                0 <= k < i ==> #[trigger] results@[k] == (byte_verdict(
                    proofs@[k]@,
                    public_inputs@[k]@,
                ) == Ok::<bool, Error>(true)),
        decreases proofs@.len() - i,
    {
        match verify_proof(proofs[i].as_slice(), public_inputs[i].as_slice()) {
            Ok(valid) => results.push(valid),
            Err(_) => results.push(false),
        }
        i = i + 1;
    }
    Ok(results)
}

/// The reason that the verifier capability gives with a verdict; none with
/// the verdict that the proof is valid.
pub open spec fn failure_reason(outcome: Result<bool, Error>) -> Option<&'static str> {
    match outcome {
        Ok(true) => None,
        Ok(false) => Some("STARK proof verification failed"),
        Err(Error::DeserializationError) => Some("Failed to deserialize proof"),
        Err(Error::InvalidInputSize) => Some("Invalid input size"),
        Err(_) => Some("STARK verification error"),
    }
}

/// The transparent-setup proof system as a verifier capability.
pub struct StarkVerifierImpl;

impl ZkVerifier for StarkVerifierImpl {
    open spec fn verdict(proof_bytes: Seq<u8>, public_inputs: Seq<u8>, vk: Seq<u8>) -> bool {
        byte_verdict(proof_bytes, public_inputs) == Ok::<bool, Error>(true)
    }

    open spec fn cost_model() -> GasCost {
        GasCost { base: 200_000, per_public_input: 5_000, per_proof_byte: 10 }
    }

    fn proof_system_id() -> (id: u8)
        ensures
            id == 2,
    {
        2
    }

    fn name() -> (name: &'static str)
        ensures
            name == "STARK (FRI)",
    {
        "STARK (FRI)"
    }

    fn security_model() -> (model: SecurityModel)
        ensures
            model == (SecurityModel {
                setup_type: SetupType::Transparent,
                crypto_assumption: CryptoAssumption::HashBased,
                post_quantum_secure: true,
                security_bits: 128,
                formally_verified: false,
            }),
    {
        SecurityModel {
            setup_type: SetupType::Transparent,
            crypto_assumption: CryptoAssumption::HashBased,
            post_quantum_secure: true,
            security_bits: 128,
            formally_verified: false,
        }
    }

    fn gas_cost_model() -> GasCost {
        GasCost { base: 200_000, per_public_input: 5_000, per_proof_byte: 10 }
    }

    fn recursion_support() -> (support: RecursionSupport)
        ensures
            support == (RecursionSupport {
                can_verify_groth16: false,
                can_verify_plonk: false,
                can_verify_stark: true,
                max_depth: 16,
            }),
    {
        RecursionSupport {
            can_verify_groth16: false,
            can_verify_plonk: false,
            can_verify_stark: true,
            max_depth: 16,
        }
    }

    /// A STARK has no key: `vk` is not read.
    fn verify(proof_bytes: &[u8], public_inputs: &[u8], vk: &[u8]) -> (result: VerifyResult)
        ensures
            result.gas_used.is_none(),
            result.error_message == failure_reason(byte_verdict(proof_bytes@, public_inputs@)),
    {
        match verify_proof(proof_bytes, public_inputs) {
            Ok(true) => VerifyResult::valid(),
            Ok(false) => VerifyResult::invalid("STARK proof verification failed"),
            Err(Error::DeserializationError) => VerifyResult::invalid("Failed to deserialize proof"),
            Err(Error::InvalidInputSize) => VerifyResult::invalid("Invalid input size"),
            Err(_) => VerifyResult::invalid("STARK verification error"),
        }
    }

    /// There is a result for every proof. Where the lists differ in length,
    /// no proof is valid.
    fn batch_verify(proofs: &[Vec<u8>], public_inputs: &[Vec<u8>], vk: &[u8]) -> (results: Vec<
        VerifyResult,
    >)
        ensures
            results@.len() == proofs@.len(),
            forall|i: int|
                0 <= i < results@.len() ==> (#[trigger] results@[i]).gas_used.is_none()
                    && results@[i].error_message == if proofs@.len() != public_inputs@.len() {
                    Some("STARK batch verification error")
                } else if results@[i].valid {
                    None::<&'static str>
                } else {
                    Some("STARK batch verification failed for proof")
                },
    {
        let verdicts = match batch_verify_proofs(proofs, public_inputs) {
            Ok(verdicts) => verdicts,
            Err(_) => {
                return all_invalid(proofs.len(), "STARK batch verification error");
            },
        };
        results_of(verdicts.as_slice(), "STARK batch verification failed for proof")
    }
}

} // verus!
