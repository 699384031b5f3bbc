//! The STARK verifier.
//!
//! A proof commits to an execution trace and is queried at positions that
//! follow from the proof itself. For each query three things are checked in
//! turn: that the opened window of the trace is authenticated by the trace
//! commitment; that every constraint of the key evaluates to zero on it,
//! where the window lies inside the trace; and that every asserted cell in
//! it holds the asserted value. Last, the FRI proof is verified. All of it
//! must pass.

use crate::bytes::{
    append_bytes, append_le, array32_eq, be_value, le_bytes, le_value, lemma_be_value_bound,
    lemma_pow256_values, read_be, read_le,
};
use crate::field::{fr_reduce, reduce_spec, scalar_of, Scalar};
use crate::hash::{blake3, spec_blake3};
use crate::stark::air::{AirContext, Assertion};
use crate::stark::constraints::{
    constraint_value, window_rows, window_rows_spec, AirConstraint, AirTerm, ConstraintEvaluator,
};
use crate::stark::fri::{
    blake_fold, blake_pair, fri_accepts, generate_fri_challenges, layer_challenge, FriOptions,
    FriProof, FriVerifier,
};
use crate::stark::merkle::rows;
use crate::stark::types::{Error, SecurityLevel};
use vstd::prelude::*;

verus! {

/// The opening of the trace at one position: the window of rows that starts
/// there, cell after cell, and its authentication path.
#[derive(Debug, Clone)]
pub struct QueryProof {
    /// The first row of the window.
    pub index: usize,
    /// Siblings from the leaf up.
    pub merkle_proof: Vec<[u8; 32]>,
    /// The cells of the window, each in eight big-endian bytes.
    pub trace_values: Vec<Vec<u8>>,
}

/// The trace at a point outside the domain.
#[derive(Debug, Clone)]
pub struct OodFrame {
    /// The row at the point.
    pub current: Vec<Vec<u8>>,
    /// The row after it.
    pub next: Vec<Vec<u8>>,
}

/// A STARK proof.
#[derive(Debug, Clone)]
pub struct StarkProof {
    /// Merkle root of the trace.
    pub trace_commitment: [u8; 32],
    /// Merkle root of the composition polynomial.
    pub composition_commitment: [u8; 32],
    /// Low-degree proof of the composition polynomial.
    pub fri_proof: FriProof,
    /// Openings of the trace at the queried positions.
    pub trace_query_proofs: Vec<QueryProof>,
    /// The out-of-domain frame.
    pub ood_frame: OodFrame,
}

/// A STARK verification key.
#[derive(Debug, Clone)]
pub struct StarkVerificationKey {
    /// Shape of the trace.
    pub air_context: AirContext,
    /// Parameters of the low-degree proof.
    pub fri_options: FriOptions,
    /// Security level, which fixes the number of queries.
    pub security_level: SecurityLevel,
    /// The constraints that every interior row has to meet.
    pub constraints: Vec<AirConstraint>,
}

/// Gas estimate of STARK verification, part by part.
#[derive(Debug, Clone)]
pub struct GasEstimate {
    pub merkle_proofs: usize,
    pub fri_verification: usize,
    pub air_constraints: usize,
    pub field_operations: usize,
    pub overhead: usize,
    pub total: usize,
}

/// Verifier of STARK proofs.
#[derive(Debug, Clone, Copy)]
pub struct StarkVerifier;

/// The bytes of `stark_query_positions`.
pub open spec fn positions_label() -> Seq<u8> {
    seq![
        0x73u8, 0x74u8, 0x61u8, 0x72u8, 0x6bu8, 0x5fu8, 0x71u8, 0x75u8, 0x65u8, 0x72u8, 0x79u8,
        0x5fu8, 0x70u8, 0x6fu8, 0x73u8, 0x69u8, 0x74u8, 0x69u8, 0x6fu8, 0x6eu8, 0x73u8,
    ]
}

/// The bytes of `stark_ood_challenge`.
pub open spec fn ood_label() -> Seq<u8> {
    seq![
        0x73u8, 0x74u8, 0x61u8, 0x72u8, 0x6bu8, 0x5fu8, 0x6fu8, 0x6fu8, 0x64u8, 0x5fu8, 0x63u8,
        0x68u8, 0x61u8, 0x6cu8, 0x6cu8, 0x65u8, 0x6eu8, 0x67u8, 0x65u8,
    ]
}

/// The first `n` byte strings of a list, one after the other.
pub open spec fn joined(values: Seq<Vec<u8>>, n: nat) -> Seq<u8>
    decreases n,
{
    if n == 0 {
        Seq::empty()
    } else {
        joined(values, (n - 1) as nat) + values[n - 1]@
    }
}

/// The out-of-domain point: the first 16 bytes, little-endian, of the BLAKE3
/// digest of label and both commitments.
pub open spec fn ood_challenge_spec(trace_commitment: Seq<u8>, composition_commitment: Seq<u8>) -> Scalar {
    scalar_of(
        le_value(
            spec_blake3(ood_label() + trace_commitment + composition_commitment).subrange(0, 16),
        ),
    )
}

/// The seed of the query positions: the BLAKE3 digest of label, composition
/// commitment and out-of-domain frame.
pub open spec fn positions_seed(proof_: StarkProof) -> Seq<u8> {
    spec_blake3(
        positions_label() + proof_.composition_commitment@ + joined(
            proof_.ood_frame.current@,
            proof_.ood_frame.current@.len(),
        ) + joined(proof_.ood_frame.next@, proof_.ood_frame.next@.len()),
    )
}

/// The `i`-th queried row: the first eight bytes, little-endian, of the
/// BLAKE3 digest of the seed and `i` in eight little-endian bytes, reduced
/// into the trace.
pub open spec fn query_position(proof_: StarkProof, trace_length: usize, i: nat) -> nat {
    le_value(spec_blake3(positions_seed(proof_) + le_bytes(i, 8)).subrange(0, 8)) % (
    trace_length as nat)
}

/// The cells that a query opens.
pub open spec fn window_of(query: QueryProof) -> Seq<u64> {
    Seq::new(
        query.trace_values@.len(),
        |k: int| be_value(query.trace_values@[k]@.subrange(0, 8)) as u64,
    )
}

/// Whether the opened window is as large as the key needs it and every cell
/// has its eight bytes.
pub open spec fn window_shape_ok(vk: StarkVerificationKey, query: QueryProof) -> bool {
    &&& query.trace_values@.len() == window_rows_spec(vk.constraints@, vk.constraints@.len())
        * vk.air_context.trace_width
    &&& forall|k: int|
        0 <= k < query.trace_values@.len() ==> (#[trigger] query.trace_values@[k])@.len() >= 8
}

/// The leaf of a query, the BLAKE3 digest of its cells.
pub open spec fn query_leaf(query: QueryProof) -> Seq<u8> {
    spec_blake3(joined(query.trace_values@, query.trace_values@.len()))
}

/// What the first `n` constraints find on a window: a constraint that names
/// a cell outside the window makes the key's schema invalid, a constraint
/// that does not evaluate to zero has failed.
pub open spec fn constraints_defect(constraints: Seq<AirConstraint>, window: Seq<u64>, width: usize, n: nat) -> Option<
    Error,
>
    decreases n,
{
    if n == 0 {
        None
    } else {
        match constraints_defect(constraints, window, width, (n - 1) as nat) {
            Some(e) => Some(e),
            None => match constraint_value(constraints[n - 1], window, width) {
                None => Some(Error::ConstraintSchemaInvalid),
                Some(value) => if value != scalar_of(0) {
                    Some(Error::ConstraintFailed)
                } else {
                    None
                },
            },
        }
    }
}

/// Whether an assertion speaks of a cell of the window that starts at row
/// `index`, and the cell holds another value than the asserted one.
pub open spec fn assertion_broken(
    assertion: Assertion,
    window: Seq<u64>,
    width: usize,
    index: usize,
) -> bool {
    &&& assertion.column < width
    &&& index <= assertion.step
    &&& (assertion.step - index) * width + assertion.column < window.len()
    &&& scalar_of(window[(assertion.step - index) * width + assertion.column] as nat)
        != reduce_spec(assertion.value)
}

/// What is wrong with one query, if anything. The checks run in this
/// order: the position, the shape of the window, the authentication path,
/// the constraints where the window lies inside the trace, the assertions.
pub open spec fn query_defect(
    vk: StarkVerificationKey,
    proof_: StarkProof,
    assertions: Seq<Assertion>,
    i: int,
) -> Option<Error> {
    let query = proof_.trace_query_proofs@[i];
    let window = window_of(query);
    let width = vk.air_context.trace_width;
    let rows_needed = window_rows_spec(vk.constraints@, vk.constraints@.len());
    if query.index != query_position(proof_, vk.air_context.trace_length, i as nat) {
        Some(Error::InvalidQueryPosition)
    } else if !window_shape_ok(vk, query) {
        Some(Error::DeserializationError)
    } else if blake_fold(query_leaf(query), query.index as int, rows(query.merkle_proof@))
        != proof_.trace_commitment@ {
        Some(Error::MerkleProofFailed)
    } else if query.index + rows_needed <= vk.air_context.trace_length && constraints_defect(
        vk.constraints@,
        window,
        width,
        vk.constraints@.len(),
    ) is Some {
        constraints_defect(vk.constraints@, window, width, vk.constraints@.len())
    } else if exists|a: int|
        0 <= a < assertions.len() && assertion_broken(
            #[trigger] assertions[a],
            window,
            width,
            query.index,
        ) {
        Some(Error::BoundaryConstraintFailed)
    } else {
        None
    }
}

/// The defect of the first of the first `n` queries that has one.
pub open spec fn first_query_defect(
    vk: StarkVerificationKey,
    proof_: StarkProof,
    assertions: Seq<Assertion>,
    n: nat,
) -> Option<Error>
    decreases n,
{
    if n == 0 {
        None
    } else {
        match first_query_defect(vk, proof_, assertions, (n - 1) as nat) {
            Some(e) => Some(e),
            None => query_defect(vk, proof_, assertions, n - 1),
        }
    }
}

/// Whether the proof has the shape that the key asks for: a trace of one
/// row and one column at least, as many queries as the security level has,
/// and an out-of-domain frame of the trace's width.
pub open spec fn proof_shape_ok(vk: StarkVerificationKey, proof_: StarkProof) -> bool {
    &&& vk.air_context.trace_length >= 1
    &&& vk.air_context.trace_width >= 1
    &&& proof_.trace_query_proofs@.len() == vk.security_level.queries()
    &&& proof_.ood_frame.current@.len() == vk.air_context.trace_width
    &&& proof_.ood_frame.next@.len() == vk.air_context.trace_width
}

/// Whether every value of the out-of-domain frame has its 16 bytes.
pub open spec fn ood_values_ok(frame: OodFrame) -> bool {
    &&& forall|k: int| 0 <= k < frame.current@.len() ==> (#[trigger] frame.current@[k])@.len() >= 16
    &&& forall|k: int| 0 <= k < frame.next@.len() ==> (#[trigger] frame.next@[k])@.len() >= 16
}

/// The challenges of the FRI layers, seeded with the composition commitment.
pub open spec fn fri_challenges_spec(proof_: StarkProof) -> Seq<Scalar> {
    Seq::new(
        proof_.fri_proof.layer_commitments@.len(),
        |i: int|
            layer_challenge(
                proof_.fri_proof.layer_commitments@[i]@,
                proof_.composition_commitment@,
                i as nat,
            ),
    )
}

/// The verdict on a proof: its shape, its out-of-domain frame, its queries
/// one after the other, its FRI proof. The first failure is the result.
pub open spec fn stark_verdict(
    vk: StarkVerificationKey,
    proof_: StarkProof,
    assertions: Seq<Assertion>,
    domain: Seq<Scalar>,
) -> Result<(), Error> {
    if !proof_shape_ok(vk, proof_) {
        Err(Error::InvalidProofStructure)
    } else if !ood_values_ok(proof_.ood_frame) {
        Err(Error::DeserializationError)
    } else if first_query_defect(vk, proof_, assertions, proof_.trace_query_proofs@.len())
        is Some {
        Err(first_query_defect(vk, proof_, assertions, proof_.trace_query_proofs@.len())->0)
    } else if !fri_accepts(vk.fri_options, proof_.fri_proof, fri_challenges_spec(proof_), domain) {
        Err(Error::FriVerificationFailed)
    } else {
        Ok(())
    }
}

/// The constraint of the Fibonacci computation,
/// `T(i+2) - T(i+1) - T(i) = 0`, with `-1` as the field order less one.
pub open spec fn fibonacci_terms() -> Seq<AirTerm> {
    seq![
        AirTerm { coefficient: scalar_of(1), offset: 2, register: 0, power: 1 },
        AirTerm {
            coefficient: scalar_of((crate::field::scalar_modulus() - 1) as nat),
            offset: 1,
            register: 0,
            power: 1,
        },
        AirTerm {
            coefficient: scalar_of((crate::field::scalar_modulus() - 1) as nat),
            offset: 0,
            register: 0,
            power: 1,
        },
    ]
}

impl StarkVerificationKey {
    /// The key of the Fibonacci computation over a trace of the given
    /// length, a power of two; any other length fails with
    /// `InvalidInputSize`.
    pub fn new_fibonacci(trace_length: usize, security_level: SecurityLevel) -> (result: Result<
        StarkVerificationKey,
        Error,
    >)
        ensures
            match result {
                Ok(vk) => {
                    &&& crate::pow2::is_pow2(trace_length as nat)
                    &&& vk.air_context == (AirContext {
                        trace_length,
                        trace_width: 1,
                        num_transition_constraints: 1,
                        num_boundary_constraints: 3,
                    })
                    &&& vk.security_level == security_level
                    &&& vk.fri_options.blowup_factor == security_level.blowup()
                    &&& vk.fri_options.num_queries == security_level.queries()
                    &&& vk.fri_options.max_remainder_degree == 7
                    &&& vk.fri_options.num_layers == crate::pow2::log2_floor(
                        crate::pow2::next_pow2(
                            ((trace_length * security_level.blowup()) / 7) as nat,
                        ),
                    )
                    &&& vk.constraints@.len() == 1
                    &&& vk.constraints@[0].degree == 1
                    &&& vk.constraints@[0].terms@ == fibonacci_terms()
                },
                Err(e) => !crate::pow2::is_pow2(trace_length as nat) && e
                    == Error::InvalidInputSize,
            },
    {
        let air_context = match AirContext::new_fibonacci(trace_length) {
            Ok(context) => context,
            Err(e) => {
                return Err(e);
            },
        };
        let fri_options = FriOptions::from_security_level(security_level, trace_length);
        let minus_one = Scalar::from_halves(
            0x30644e72e131a029b85045b68181585d,
            0x2833e84879b9709143e1f593f0000000,
        );
        let mut terms: Vec<AirTerm> = Vec::new();
        terms.push(AirTerm { coefficient: Scalar::one(), offset: 2, register: 0, power: 1 });
        terms.push(AirTerm { coefficient: minus_one, offset: 1, register: 0, power: 1 });
        terms.push(AirTerm { coefficient: minus_one, offset: 0, register: 0, power: 1 });
        assert(terms@ =~= fibonacci_terms());
        let mut constraints: Vec<AirConstraint> = Vec::new();
        constraints.push(AirConstraint { degree: 1, terms });
        Ok(StarkVerificationKey { air_context, fri_options, security_level, constraints })
    }
}

/// Appends every byte string of a list.
fn append_joined(buf: &mut Vec<u8>, values: &Vec<Vec<u8>>)
    ensures
        final(buf)@ == old(buf)@ + joined(values@, values@.len()),
{
    let mut k: usize = 0;
    assert(buf@ =~= old(buf)@ + joined(values@, 0));
    while k < values.len()
        invariant
            k <= values@.len(),
            buf@ == old(buf)@ + joined(values@, k as nat),
        decreases values@.len() - k,
    {
        let ghost before = buf@;
        append_bytes(buf, values[k].as_slice());
        assert(before + values@[k as int]@ =~= old(buf)@ + joined(values@, (k + 1) as nat));
        k = k + 1;
    }
}

/// The node above two nodes.
fn hash_nodes(left: &[u8; 32], right: &[u8; 32]) -> (out: [u8; 32])
    ensures
        out@ == blake_pair(left@, right@),
{
    let mut buf: Vec<u8> = Vec::new();
    append_bytes(&mut buf, left.as_slice());
    append_bytes(&mut buf, right.as_slice());
    blake3(buf.as_slice())
}

impl StarkVerifier {
    pub fn new() -> (verifier: StarkVerifier) {
        StarkVerifier
    }

    /// The out-of-domain point that the two commitments give.
    pub fn generate_ood_challenge(&self, trace_commitment: &[u8; 32], composition_commitment: &[
        u8;
        32
    ]) -> (result: Result<Scalar, Error>)
        ensures
            result == Ok::<Scalar, Error>(
                ood_challenge_spec(trace_commitment@, composition_commitment@),
            ),
    {
        let mut buf: Vec<u8> = Vec::new();
        let label: [u8; 19] = [
            0x73u8, 0x74u8, 0x61u8, 0x72u8, 0x6bu8, 0x5fu8, 0x6fu8, 0x6fu8, 0x64u8, 0x5fu8, 0x63u8,
            0x68u8, 0x61u8, 0x6cu8, 0x6cu8, 0x65u8, 0x6eu8, 0x67u8, 0x65u8,
        ];
        append_bytes(&mut buf, label.as_slice());
        assert(buf@ =~= ood_label());
        append_bytes(&mut buf, trace_commitment.as_slice());
        append_bytes(&mut buf, composition_commitment.as_slice());
        let digest = blake3(buf.as_slice());
        let word: u128 = read_le(digest.as_slice(), 0, 16);
        Ok(Scalar::from_u128(word))
    }

    /// The seed of the query positions.
    fn query_seed(proof_: &StarkProof) -> (seed: [u8; 32])
        ensures
            seed@ == positions_seed(*proof_),
    {
        let mut buf: Vec<u8> = Vec::new();
        let label: [u8; 21] = [
            0x73u8, 0x74u8, 0x61u8, 0x72u8, 0x6bu8, 0x5fu8, 0x71u8, 0x75u8, 0x65u8, 0x72u8, 0x79u8,
            0x5fu8, 0x70u8, 0x6fu8, 0x73u8, 0x69u8, 0x74u8, 0x69u8, 0x6fu8, 0x6eu8, 0x73u8,
        ];
        append_bytes(&mut buf, label.as_slice());
        assert(buf@ =~= positions_label());
        append_bytes(&mut buf, proof_.composition_commitment.as_slice());
        append_joined(&mut buf, &proof_.ood_frame.current);
        append_joined(&mut buf, &proof_.ood_frame.next);
        blake3(buf.as_slice())
    }

    /// The rows that the queries have to open, drawn from the composition
    /// commitment and the out-of-domain frame.
    fn generate_query_positions(vk: &StarkVerificationKey, proof_: &StarkProof) -> (positions: Vec<
        usize,
    >)
        requires
            vk.air_context.trace_length >= 1,
        ensures
            positions@.len() == vk.security_level.queries(),
            forall|i: int|
                0 <= i < positions@.len() ==> #[trigger] positions@[i] == query_position(
                    *proof_,
                    vk.air_context.trace_length,
                    i as nat,
                ),
    {
        let seed = Self::query_seed(proof_);
        let num_queries: usize = vk.security_level.num_queries();
        let trace_length: usize = vk.air_context.trace_length;
        let mut positions: Vec<usize> = Vec::new();
        let mut i: usize = 0;
        while i < num_queries
            invariant
                i <= num_queries,
                num_queries == vk.security_level.queries(),
                trace_length == vk.air_context.trace_length,
                trace_length >= 1,
                seed@ == positions_seed(*proof_),
                positions@.len() == i,
                forall|k: int|
                    0 <= k < i ==> #[trigger] positions@[k] == query_position(
                        *proof_,
                        trace_length,
                        k as nat,
                    ),
            decreases num_queries - i,
        {
            let mut buf: Vec<u8> = Vec::new();
            append_bytes(&mut buf, seed.as_slice());
            append_le(&mut buf, i as u128, 8);
            let digest = blake3(buf.as_slice());
            let word: u128 = read_le(digest.as_slice(), 0, 8);
            positions.push((word % (trace_length as u128)) as usize);
            i = i + 1;
        }
        positions
    }

    /// The leaf hash of a row of cells.
    pub fn compute_trace_leaf_hash(trace_values: &Vec<Vec<u8>>) -> (leaf: [u8; 32])
        ensures
            leaf@ == spec_blake3(joined(trace_values@, trace_values@.len())),
    {
        let mut buf: Vec<u8> = Vec::new();
        append_joined(&mut buf, trace_values);
        assert(buf@ =~= joined(trace_values@, trace_values@.len()));
        blake3(buf.as_slice())
    }

    /// Whether the path leads from the leaf at `index` to the root.
    pub fn verify_merkle_proof(leaf_hash: &[u8; 32], expected_root: &[u8; 32], merkle_path: &[[
        u8;
        32
    ]], index: usize) -> (ok: bool)
        ensures
            ok == (blake_fold(leaf_hash@, index as int, rows(merkle_path@)) == expected_root@),
    {
        let ghost siblings = rows(merkle_path@);
        let mut current: [u8; 32] = *leaf_hash;
        let mut current_index: usize = index;
        let mut k: usize = 0;
        assert(siblings.skip(0) =~= siblings);
        while k < merkle_path.len()
            invariant
                k <= merkle_path@.len(),
                siblings == rows(merkle_path@),
                blake_fold(current@, current_index as int, siblings.skip(k as int)) == blake_fold(
                    leaf_hash@,
                    index as int,
                    siblings,
                ),
            decreases merkle_path@.len() - k,
        {
            let sibling: [u8; 32] = merkle_path[k];
            proof {
                let rest = siblings.skip(k as int);
                assert(rest[0] == sibling@);
                assert(rest.skip(1) =~= siblings.skip(k + 1));
            }
            current = if current_index % 2 == 0 {
                hash_nodes(&current, &sibling)
            } else {
                hash_nodes(&sibling, &current)
            };
            current_index = current_index / 2;
            k = k + 1;
        }
        array32_eq(&current, expected_root)
    }

    /// The cells of a query, where the window has the shape that the key
    /// needs.
    fn deserialize_trace_values(vk: &StarkVerificationKey, query: &QueryProof) -> (window: Option<Vec<u64>>)
        ensures
            match window {
                Some(cells) => window_shape_ok(*vk, *query) && cells@ == window_of(*query),
                None => !window_shape_ok(*vk, *query),
            },
    {
        let rows_needed: u64 = window_rows(vk.constraints.as_slice());
        let width: usize = vk.air_context.trace_width;
        assert((rows_needed as int) * (width as int) <= 0x1_0000_0000 * 0xffff_ffff_ffff_ffff)
            by (nonlinear_arith)
            requires
                0 <= rows_needed <= 0x1_0000_0000,
                0 <= width <= 0xffff_ffff_ffff_ffff,
        ;
        let cells_needed: u128 = (rows_needed as u128) * (width as u128);
        if query.trace_values.len() as u128 != cells_needed {
            return None;
        }
        let mut cells: Vec<u64> = Vec::new();
        let mut k: usize = 0;
        while k < query.trace_values.len()
            invariant
                k <= query.trace_values@.len(),
                query.trace_values@.len() == window_rows_spec(
                    vk.constraints@,
                    vk.constraints@.len(),
                ) * vk.air_context.trace_width,
                cells@.len() == k,
                forall|j: int|
                    0 <= j < k ==> (#[trigger] query.trace_values@[j])@.len() >= 8,
                forall|j: int|
                    0 <= j < k ==> #[trigger] cells@[j] == be_value(
                        query.trace_values@[j]@.subrange(0, 8),
                    ) as u64,
            decreases query.trace_values@.len() - k,
        {
            let value = &query.trace_values[k];
            if value.len() < 8 {
                return None;
            }
            let cell: u128 = read_be(value.as_slice(), 0, 8);
            proof {
                lemma_be_value_bound(value@.subrange(0, 8));
                lemma_pow256_values();
            }
            cells.push(cell as u64);
            k = k + 1;
        }
        assert(cells@ =~= window_of(*query));
        Some(cells)
    }

    /// What the constraints find on a window.
    fn verify_constraints(constraints: &Vec<AirConstraint>, window: &[u64], width: usize) -> (defect:
        Option<Error>)
        ensures
            defect == constraints_defect(constraints@, window@, width, constraints@.len()),
    {
        let zero = Scalar::zero();
        let mut i: usize = 0;
        while i < constraints.len()
            invariant
                i <= constraints@.len(),
                zero == scalar_of(0),
                constraints_defect(constraints@, window@, width, i as nat).is_none(),
            decreases constraints@.len() - i,
        {
            let defect = match ConstraintEvaluator::evaluate(&constraints[i], window, width) {
                Err(_) => Some(Error::ConstraintSchemaInvalid),
                Ok(value) => if !value.equals(&zero) {
                    Some(Error::ConstraintFailed)
                } else {
                    None
                },
            };
            if defect.is_some() {
                proof {
                    lemma_constraints_defect_stays(
                        constraints@,
                        window@,
                        width,
                        (i + 1) as nat,
                        constraints@.len(),
                    );
                }
                return defect;
            }
            i = i + 1;
        }
        None
    }

    /// Whether an assertion is broken on a window.
    fn check_assertion(assertion: &Assertion, window: &[u64], width: usize, index: usize) -> (broken:
        bool)
        ensures
            broken == assertion_broken(*assertion, window@, width, index),
    {
        if assertion.column >= width || assertion.step < index {
            return false;
        }
        let row: u128 = (assertion.step - index) as u128;
        assert((row as int) * (width as int) <= 0xffff_ffff_ffff_ffff * 0xffff_ffff_ffff_ffff)
            by (nonlinear_arith)
            requires
                0 <= row <= 0xffff_ffff_ffff_ffff,
                0 <= width <= 0xffff_ffff_ffff_ffff,
        ;
        let cell_index: u128 = row * (width as u128) + (assertion.column as u128);
        if cell_index >= window.len() as u128 {
            return false;
        }
        let cell = Scalar::from_u64(window[cell_index as usize]);
        let expected = fr_reduce(assertion.value);
        !cell.equals(&expected)
    }

    /// What is wrong with query `i`, if anything; `expected` is the row
    /// that it has to open.
    fn verify_trace_query(
        vk: &StarkVerificationKey,
        proof_: &StarkProof,
        assertions: &[Assertion],
        expected: usize,
        i: usize,
    ) -> (defect: Option<Error>)
        requires
            i < proof_.trace_query_proofs@.len(),
            expected == query_position(*proof_, vk.air_context.trace_length, i as nat),
        ensures
            defect == query_defect(*vk, *proof_, assertions@, i as int),
    {
        let query = &proof_.trace_query_proofs[i];
        if query.index != expected {
            return Some(Error::InvalidQueryPosition);
        }
        let window = match Self::deserialize_trace_values(vk, query) {
            Some(window) => window,
            None => {
                return Some(Error::DeserializationError);
            },
        };
        let leaf = Self::compute_trace_leaf_hash(&query.trace_values);
        if !Self::verify_merkle_proof(
            &leaf,
            &proof_.trace_commitment,
            query.merkle_proof.as_slice(),
            query.index,
        ) {
            return Some(Error::MerkleProofFailed);
        }
        let width: usize = vk.air_context.trace_width;
        let rows_needed: u64 = window_rows(vk.constraints.as_slice());
        if (query.index as u128) + (rows_needed as u128) <= vk.air_context.trace_length as u128 {
            let defect = Self::verify_constraints(&vk.constraints, window.as_slice(), width);
            if defect.is_some() {
                return defect;
            }
        }
        if Self::any_assertion_broken(assertions, window.as_slice(), width, query.index) {
            return Some(Error::BoundaryConstraintFailed);
        }
        None
    }

    /// Checks the queries one after the other against the rows that they
    /// have to open; the first defect is the result.
    fn verify_trace_queries(
        vk: &StarkVerificationKey,
        proof_: &StarkProof,
        assertions: &[Assertion],
        query_positions: &[usize],
    ) -> (result: Result<(), Error>)
        requires
            query_positions@.len() == proof_.trace_query_proofs@.len(),
            forall|i: int|
                0 <= i < query_positions@.len() ==> #[trigger] query_positions@[i]
                    == query_position(*proof_, vk.air_context.trace_length, i as nat),
        ensures
            result == match first_query_defect(
                *vk,
                *proof_,
                assertions@,
                proof_.trace_query_proofs@.len(),
            ) {
                Some(e) => Err::<(), Error>(e),
                None => Ok::<(), Error>(()),
            },
    {
        let mut i: usize = 0;
        while i < proof_.trace_query_proofs.len()
            invariant
                i <= proof_.trace_query_proofs@.len(),
                query_positions@.len() == proof_.trace_query_proofs@.len(),
                forall|k: int|
                    0 <= k < query_positions@.len() ==> #[trigger] query_positions@[k]
                        == query_position(*proof_, vk.air_context.trace_length, k as nat),
                first_query_defect(*vk, *proof_, assertions@, i as nat).is_none(),
            decreases proof_.trace_query_proofs@.len() - i,
        {
            match Self::verify_trace_query(vk, proof_, assertions, query_positions[i], i) {
                Some(e) => {
                    proof {
                        lemma_query_defect_stays(
                            *vk,
                            *proof_,
                            assertions@,
                            (i + 1) as nat,
                            proof_.trace_query_proofs@.len(),
                        );
                    }
                    return Err(e);
                },
                None => {},
            }
            i = i + 1;
        }
        Ok(())
    }

    /// Whether one of the assertions is broken on a window.
    fn any_assertion_broken(assertions: &[Assertion], window: &[u64], width: usize, index: usize) -> (broken:
        bool)
        ensures
            broken == exists|a: int|
                0 <= a < assertions@.len() && assertion_broken(
                    #[trigger] assertions@[a],
                    window@,
                    width,
                    index,
                ),
    {
        let mut a: usize = 0;
        while a < assertions.len()
            invariant
                a <= assertions@.len(),
                forall|k: int|
                    0 <= k < a ==> !assertion_broken(#[trigger] assertions@[k], window@, width, index),
            decreases assertions@.len() - a,
        {
            if Self::check_assertion(&assertions[a], window, width, index) {
                return true;
            }
            a = a + 1;
        }
        false
    }

    /// Whether the proof has the shape that the key asks for.
    fn validate_proof_structure(vk: &StarkVerificationKey, proof_: &StarkProof) -> (result: Result<
        (),
        Error,
    >)
        ensures
            result == if proof_shape_ok(*vk, *proof_) {
                Ok::<(), Error>(())
            } else {
                Err::<(), Error>(Error::InvalidProofStructure)
            },
    {
        let expected_queries: usize = vk.security_level.num_queries();
        if vk.air_context.trace_length < 1 || vk.air_context.trace_width < 1
            || proof_.trace_query_proofs.len() != expected_queries || proof_.ood_frame.current.len()
            != vk.air_context.trace_width || proof_.ood_frame.next.len()
            != vk.air_context.trace_width {
            return Err(Error::InvalidProofStructure);
        }
        Ok(())
    }

    /// Whether every value of the out-of-domain frame can be read: each has
    /// its 16 bytes.
    fn verify_ood_constraints(frame: &OodFrame) -> (result: Result<(), Error>)
        ensures
            result == if ood_values_ok(*frame) {
                Ok::<(), Error>(())
            } else {
                Err::<(), Error>(Error::DeserializationError)
            },
    {
        let mut k: usize = 0;
        while k < frame.current.len()
            invariant
                k <= frame.current@.len(),
                forall|j: int| 0 <= j < k ==> (#[trigger] frame.current@[j])@.len() >= 16,
            decreases frame.current@.len() - k,
        {
            if frame.current[k].len() < 16 {
                return Err(Error::DeserializationError);
            }
            k = k + 1;
        }
        let mut m: usize = 0;
        while m < frame.next.len()
            invariant
                m <= frame.next@.len(),
                forall|j: int|
                    0 <= j < frame.current@.len() ==> (#[trigger] frame.current@[j])@.len() >= 16,
                forall|j: int| 0 <= j < m ==> (#[trigger] frame.next@[j])@.len() >= 16,
            decreases frame.next@.len() - m,
        {
            if frame.next[m].len() < 16 {
                return Err(Error::DeserializationError);
            }
            m = m + 1;
        }
        Ok(())
    }

    /// Verifies a proof against a key, the assertions on the trace that
    /// follow from the public inputs, and the evaluation domain of the first
    /// FRI layer.
    pub fn verify(
        &self,
        vk: &StarkVerificationKey,
        proof_: &StarkProof,
        assertions: &[Assertion],
        evaluation_domain: &[Scalar],
    ) -> (result: Result<(), Error>)
        ensures
            result == stark_verdict(*vk, *proof_, assertions@, evaluation_domain@),
    {
        match Self::validate_proof_structure(vk, proof_) {
            Ok(_) => {},
            Err(e) => {
                return Err(e);
            },
        }
        match Self::verify_ood_constraints(&proof_.ood_frame) {
            Ok(_) => {},
            Err(e) => {
                return Err(e);
            },
        }
        let query_positions = Self::generate_query_positions(vk, proof_);
        match Self::verify_trace_queries(vk, proof_, assertions, query_positions.as_slice()) {
            Ok(_) => {},
            Err(e) => {
                return Err(e);
            },
        }
        let challenges = generate_fri_challenges(
            proof_.fri_proof.layer_commitments.as_slice(),
            proof_.composition_commitment.as_slice(),
        );
        assert(challenges@ =~= fri_challenges_spec(*proof_));
        let fri_verifier = FriVerifier::new(vk.fri_options);
        match fri_verifier.verify(&proof_.fri_proof, challenges.as_slice(), evaluation_domain) {
            Ok(_) => Ok(()),
            Err(e) => Err(e),
        }
    }
}

/// Once a constraint has a defect, the defect is the first however many
/// constraints follow.
pub proof fn lemma_constraints_defect_stays(
    constraints: Seq<AirConstraint>,
    window: Seq<u64>,
    width: usize,
    n: nat,
    m: nat,
)
    requires
        n <= m,
        constraints_defect(constraints, window, width, n) is Some,
    ensures
        constraints_defect(constraints, window, width, m) == constraints_defect(
            constraints,
            window,
            width,
            n,
        ),
    decreases m,
{
    if n < m {
        lemma_constraints_defect_stays(constraints, window, width, n, (m - 1) as nat);
    }
}

/// Once a query has a defect, the defect is the first however many queries
/// follow.
pub proof fn lemma_query_defect_stays(
    vk: StarkVerificationKey,
    proof_: StarkProof,
    assertions: Seq<Assertion>,
    n: nat,
    m: nat,
)
    requires
        n <= m,
        first_query_defect(vk, proof_, assertions, n) is Some,
    ensures
        first_query_defect(vk, proof_, assertions, m) == first_query_defect(
            vk,
            proof_,
            assertions,
            n,
        ),
    decreases m,
{
    if n < m {
        lemma_query_defect_stays(vk, proof_, assertions, n, (m - 1) as nat);
    }
}

/// The gas that verifying a proof under a key costs: 5,000 for the path of
/// each query, 5,000 for each query in each FRI layer, and 50,000 each for
/// constraints, field operations and overhead. The estimate has to be a
/// length on this machine.
pub fn estimate_gas_cost(vk: &StarkVerificationKey) -> (estimate: GasEstimate)
    requires
        vk.fri_options.num_layers * vk.security_level.queries() * 5_000 + vk.security_level.queries()
            * 5_000 + 150_000 <= usize::MAX,
    ensures
        estimate.merkle_proofs == vk.security_level.queries() * 5_000,
        estimate.fri_verification == vk.fri_options.num_layers * vk.security_level.queries()
            * 5_000,
        estimate.air_constraints == 50_000,
        estimate.field_operations == 50_000,
        estimate.overhead == 50_000,
        estimate.total == estimate.merkle_proofs + estimate.fri_verification + 150_000,
{
    let num_queries: usize = vk.security_level.num_queries();
    let num_fri_layers: usize = vk.fri_options.num_layers;
    let merkle_gas: usize = num_queries * 5_000;
    assert(num_fri_layers * num_queries <= num_fri_layers * num_queries * 5_000)
        by (nonlinear_arith)
        requires
            0 <= num_fri_layers,
            0 <= num_queries,
    ;
    let fri_gas: usize = num_fri_layers * num_queries * 5_000;
    let air_gas: usize = 50_000;
    let field_ops_gas: usize = 50_000;
    let overhead_gas: usize = 50_000;
    let total: usize = merkle_gas + fri_gas + air_gas + field_ops_gas + overhead_gas;
    GasEstimate {
        merkle_proofs: merkle_gas,
        fri_verification: fri_gas,
        air_constraints: air_gas,
        field_operations: field_ops_gas,
        overhead: overhead_gas,
        total,
    }
}

} // verus!
