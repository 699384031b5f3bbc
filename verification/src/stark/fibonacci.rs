//! The Fibonacci sequence as an execution trace.
//!
//! The trace proves `F(n+2) = F(n+1) + F(n)` over 64-bit words; sums wrap.

use crate::bytes::{append_bytes, append_le, le_bytes, le_value, read_le};
use crate::hash::{blake3, spec_blake3};
use crate::pow2::{is_pow2, is_power_of_two};
use crate::stark::types::Error;
use vstd::prelude::*;

verus! {

/// The sequence that starts with `first`, `second` and goes on by wrapping
/// addition.
pub open spec fn fib_from(first: u64, second: u64, n: nat) -> u64
    decreases n,
{
    if n == 0 {
        first
    } else if n == 1 {
        second
    } else {
        ((fib_from(first, second, (n - 1) as nat) + fib_from(first, second, (n - 2) as nat))
            % 0x1_0000_0000_0000_0000) as u64
    }
}

/// The bytes of `fibonacci_trace`.
pub open spec fn trace_label() -> Seq<u8> {
    seq![
        0x66u8, 0x69u8, 0x62u8, 0x6fu8, 0x6eu8, 0x61u8, 0x63u8, 0x63u8, 0x69u8, 0x5fu8, 0x74u8,
        0x72u8, 0x61u8, 0x63u8, 0x65u8,
    ]
}

/// The bytes of `query_position`.
pub open spec fn query_label() -> Seq<u8> {
    seq![
        0x71u8, 0x75u8, 0x65u8, 0x72u8, 0x79u8, 0x5fu8, 0x70u8, 0x6fu8, 0x73u8, 0x69u8, 0x74u8,
        0x69u8, 0x6fu8, 0x6eu8,
    ]
}

/// The first `n` values, each as eight little-endian bytes.
pub open spec fn values_bytes(values: Seq<u64>, n: nat) -> Seq<u8>
    decreases n,
{
    if n == 0 {
        Seq::empty()
    } else {
        values_bytes(values, (n - 1) as nat) + le_bytes(values[n - 1] as nat, 8)
    }
}

/// The commitment to a trace: the BLAKE3 digest of the label and the
/// values.
pub open spec fn commitment_spec(values: Seq<u64>) -> Seq<u8> {
    spec_blake3(trace_label() + values_bytes(values, values.len()))
}

/// The `i`-th queried position: the first eight bytes, little-endian, of the
/// BLAKE3 digest of label, seed and `i` in eight little-endian bytes,
/// reduced into the domain.
pub open spec fn sampled_position(seed: Seq<u8>, domain_size: nat, i: nat) -> nat {
    le_value(spec_blake3(query_label() + seed + le_bytes(i, 8)).subrange(0, 8)) % domain_size
}

/// A Fibonacci execution trace.
#[derive(Debug, Clone)]
pub struct FibonacciTrace {
    /// The values `F(0), F(1), ...`.
    pub values: Vec<u64>,
}

/// A proof about a Fibonacci trace: the commitment, the queried values and
/// the claimed last value.
#[derive(Debug, Clone)]
pub struct FibonacciProof {
    /// Commitment to the trace.
    pub trace_commitment: [u8; 32],
    /// Queried positions with the values there.
    pub query_values: Vec<(usize, u64)>,
    /// Authentication paths of the queries.
    pub merkle_proofs: Vec<Vec<[u8; 32]>>,
    /// The last value of the trace.
    pub expected_result: u64,
}

impl FibonacciTrace {
    /// The trace of the sequence from 1, 1. The length has to be a power of
    /// two; any other fails with `InvalidInputSize`.
    pub fn generate(length: usize) -> (result: Result<FibonacciTrace, Error>)
        ensures
            match result {
                Ok(trace) => {
                    &&& is_pow2(length as nat)
                    &&& trace.values@.len() == length
                    &&& forall|i: int|
                        0 <= i < length ==> #[trigger] trace.values@[i] == fib_from(1, 1, i as nat)
                },
                Err(e) => !is_pow2(length as nat) && e == Error::InvalidInputSize,
            },
    {
        if !is_power_of_two(length) {
            return Err(Error::InvalidInputSize);
        }
        let mut values: Vec<u64> = Vec::new();
        values.push(1u64);
        if length > 1 {
            values.push(1u64);
        }
        let mut i: usize = 2;
        while i < length
            invariant
                2 <= i,
                length >= 1,
                values@.len() == if length < i {
                    length
                } else {
                    i
                },
                forall|k: int|
                    0 <= k < values@.len() ==> #[trigger] values@[k] == fib_from(1, 1, k as nat),
            decreases length - i,
        {
            let next: u64 = values[i - 1].wrapping_add(values[i - 2]);
            values.push(next);
            i = i + 1;
        }
        Ok(FibonacciTrace { values })
    }

    /// Whether the value two places after `i` is the wrapping sum of the
    /// values at `i` and after it. False where the trace has no value two
    /// places after `i`.
    pub fn verify_constraint(&self, i: usize) -> (holds: bool)
        ensures
            holds == (i + 2 < self.values@.len() && self.values@[i + 2] as int == (
            self.values@[i as int] + self.values@[i + 1]) % 0x1_0000_0000_0000_0000),
    {
        if self.values.len() < 3 || i >= self.values.len() - 2 {
            return false;
        }
        let expected: u64 = self.values[i].wrapping_add(self.values[i + 1]);
        self.values[i + 2] == expected
    }

    /// The commitment to the trace.
    pub fn compute_commitment(&self) -> (commitment: [u8; 32])
        ensures
            commitment@ == commitment_spec(self.values@),
    {
        let mut buf: Vec<u8> = Vec::new();
        let label: [u8; 15] = [
            0x66u8, 0x69u8, 0x62u8, 0x6fu8, 0x6eu8, 0x61u8, 0x63u8, 0x63u8, 0x69u8, 0x5fu8, 0x74u8,
            0x72u8, 0x61u8, 0x63u8, 0x65u8,
        ];
        append_bytes(&mut buf, label.as_slice());
        assert(buf@ =~= trace_label());
        let mut i: usize = 0;
        while i < self.values.len()
            invariant
                i <= self.values@.len(),
                buf@ == trace_label() + values_bytes(self.values@, i as nat),
            decreases self.values@.len() - i,
        {
            let ghost before = buf@;
            append_le(&mut buf, self.values[i] as u128, 8);
            assert(before + le_bytes(self.values@[i as int] as nat, 8) =~= trace_label()
                + values_bytes(self.values@, (i + 1) as nat));
            i = i + 1;
        }
        blake3(buf.as_slice())
    }
}

impl FibonacciProof {
    /// The proof for a trace with `num_queries` queries. The queried
    /// positions follow from the commitment; the authentication paths are
    /// empty. The trace must not be empty.
    pub fn generate(trace: &FibonacciTrace, num_queries: usize) -> (proof_of_trace: FibonacciProof)
        requires
            trace.values@.len() > 0,
        ensures
            proof_of_trace.trace_commitment@ == commitment_spec(trace.values@),
            proof_of_trace.expected_result == trace.values@.last(),
            proof_of_trace.query_values@.len() == num_queries,
            proof_of_trace.merkle_proofs@.len() == num_queries,
            forall|i: int|
                0 <= i < num_queries ==> (#[trigger] proof_of_trace.merkle_proofs@[i])@.len() == 0,
            forall|i: int|
                0 <= i < num_queries ==> {
                    let position = sampled_position(
                        commitment_spec(trace.values@),
                        trace.values@.len(),
                        i as nat,
                    );
                    (#[trigger] proof_of_trace.query_values@[i]) == (
                        position as usize,
                        trace.values@[position as int],
                    )
                },
    {
        let trace_commitment = trace.compute_commitment();
        let positions = Self::sample_positions(&trace_commitment, trace.values.len(), num_queries);
        let mut query_values: Vec<(usize, u64)> = Vec::new();
        let mut merkle_proofs: Vec<Vec<[u8; 32]>> = Vec::new();
        let mut i: usize = 0;
        while i < num_queries
            invariant
                i <= num_queries,
                positions@.len() == num_queries,
                query_values@.len() == i,
                merkle_proofs@.len() == i,
                trace.values@.len() > 0,
                trace_commitment@ == commitment_spec(trace.values@),
                forall|k: int|
                    0 <= k < num_queries ==> #[trigger] positions@[k] == sampled_position(
                        trace_commitment@,
                        trace.values@.len(),
                        k as nat,
                    ),
                forall|k: int| 0 <= k < i ==> (#[trigger] merkle_proofs@[k])@.len() == 0,
                forall|k: int|
                    0 <= k < i ==> (#[trigger] query_values@[k]) == (
                        positions@[k],
                        trace.values@[positions@[k] as int],
                    ),
            decreases num_queries - i,
        {
            let position: usize = positions[i];
            query_values.push((position, trace.values[position]));
            merkle_proofs.push(Vec::new());
            i = i + 1;
        }
        let expected_result: u64 = trace.values[trace.values.len() - 1];
        FibonacciProof { trace_commitment, query_values, merkle_proofs, expected_result }
    }

    /// The queried positions that follow from a seed.
    pub fn sample_positions(seed: &[u8; 32], domain_size: usize, count: usize) -> (positions: Vec<
        usize,
    >)
        requires
            domain_size > 0,
        ensures
            positions@.len() == count,
            forall|i: int|
                0 <= i < count ==> #[trigger] positions@[i] == sampled_position(
                    seed@,
                    domain_size as nat,
                    i as nat,
                ),
    {
        let mut positions: Vec<usize> = Vec::new();
        let mut i: usize = 0;
        while i < count
            invariant
                i <= count,
                domain_size > 0,
                positions@.len() == i,
                forall|k: int|
                    0 <= k < i ==> #[trigger] positions@[k] == sampled_position(
                        seed@,
                        domain_size as nat,
                        k as nat,
                    ),
            decreases count - i,
        {
            let mut buf: Vec<u8> = Vec::new();
            let label: [u8; 14] = [
                0x71u8, 0x75u8, 0x65u8, 0x72u8, 0x79u8, 0x5fu8, 0x70u8, 0x6fu8, 0x73u8, 0x69u8,
                0x74u8, 0x69u8, 0x6fu8, 0x6eu8,
            ];
            append_bytes(&mut buf, label.as_slice());
            assert(buf@ =~= query_label());
            append_bytes(&mut buf, seed.as_slice());
            append_le(&mut buf, i as u128, 8);
            let digest = blake3(buf.as_slice());
            let word: u128 = read_le(digest.as_slice(), 0, 8);
            let position: u128 = word % (domain_size as u128);
            positions.push(position as usize);
            i = i + 1;
        }
        positions
    }
}

} // verus!
