//! The verifier of Fibonacci proofs.

use crate::stark::fibonacci::{fib_from, FibonacciProof};
use crate::stark::types::{Error, GasEstimate, SecurityLevel};
use vstd::prelude::*;

verus! {

/// Verifier of Fibonacci proofs at one security level.
#[derive(Debug, Clone, Copy)]
pub struct StarkVerifier {
    pub security_level: SecurityLevel,
}

/// What the structure check finds: as many queries and as many
/// authentication paths as the security level asks for.
pub open spec fn structure_ok(level: SecurityLevel, proof_of_trace: FibonacciProof) -> bool {
    &&& proof_of_trace.query_values@.len() == level.queries()
    &&& proof_of_trace.merkle_proofs@.len() == level.queries()
}

/// The first query, from `from` on, that the query check refuses, with the
/// error it gives: a position of `2^20` or more is no query position; a
/// zero value at a position past 1 breaks the constraint.
pub open spec fn first_query_failure(queries: Seq<(usize, u64)>, from: int) -> Option<Error>
    decreases queries.len() - from,
{
    if from < 0 || from >= queries.len() {
        None
    } else if queries[from].0 >= 0x10_0000 {
        Some(Error::InvalidQueryPosition)
    } else if queries[from].1 == 0 && queries[from].0 > 1 {
        Some(Error::ConstraintFailed)
    } else {
        first_query_failure(queries, from + 1)
    }
}

/// The outcome of verification: structure, then queries, then the claimed
/// last value, which has to be the value of the sequence at the last row.
pub open spec fn verdict(
    level: SecurityLevel,
    proof_of_trace: FibonacciProof,
    trace_length: usize,
    initial_values: [u64; 2],
) -> Result<(), Error> {
    if !structure_ok(level, proof_of_trace) {
        Err(Error::InvalidProofStructure)
    } else if first_query_failure(proof_of_trace.query_values@, 0) is Some {
        Err(first_query_failure(proof_of_trace.query_values@, 0)->0)
    } else if proof_of_trace.expected_result != fib_from(
        initial_values[0],
        initial_values[1],
        (trace_length - 1) as nat,
    ) {
        Err(Error::VerificationFailed)
    } else {
        Ok(())
    }
}

impl StarkVerifier {
    pub fn new(security_level: SecurityLevel) -> (verifier: StarkVerifier)
        ensures
            verifier.security_level == security_level,
    {
        StarkVerifier { security_level }
    }

    /// Verifies a Fibonacci proof for a trace of `trace_length` rows that
    /// starts with `initial_values`. The trace has at least one row.
    pub fn verify(&self, proof_of_trace: &FibonacciProof, trace_length: usize, initial_values: [
        u64;
        2
    ]) -> (result: Result<(), Error>)
        requires
            trace_length >= 1,
        ensures
            result == verdict(self.security_level, *proof_of_trace, trace_length, initial_values),
    {
        match self.validate_proof_structure(proof_of_trace) {
            Ok(_) => {},
            Err(e) => {
                return Err(e);
            },
        }
        match Self::verify_constraints(proof_of_trace) {
            Ok(_) => {},
            Err(e) => {
                return Err(e);
            },
        }
        Self::verify_result(proof_of_trace, trace_length, initial_values)
    }

    /// Whether the proof has as many queries and paths as the security
    /// level asks for.
    fn validate_proof_structure(&self, proof_of_trace: &FibonacciProof) -> (result: Result<(), Error>)
        ensures
            result == if structure_ok(self.security_level, *proof_of_trace) {
                Ok::<(), Error>(())
            } else {
                Err::<(), Error>(Error::InvalidProofStructure)
            },
    {
        let expected_queries: usize = self.security_level.num_queries();
        if proof_of_trace.query_values.len() != expected_queries {
            return Err(Error::InvalidProofStructure);
        }
        if proof_of_trace.merkle_proofs.len() != expected_queries {
            return Err(Error::InvalidProofStructure);
        }
        Ok(())
    }

    /// Checks the queried values one after the other.
    fn verify_constraints(proof_of_trace: &FibonacciProof) -> (result: Result<(), Error>)
        ensures
            result == match first_query_failure(proof_of_trace.query_values@, 0) {
                Some(e) => Err::<(), Error>(e),
                None => Ok::<(), Error>(()),
            },
    {
        let mut i: usize = 0;
        while i < proof_of_trace.query_values.len()
            invariant
                i <= proof_of_trace.query_values@.len(),
                first_query_failure(proof_of_trace.query_values@, 0) == first_query_failure(
                    proof_of_trace.query_values@,
                    i as int,
                ),
            decreases proof_of_trace.query_values@.len() - i,
        {
            let (position, value) = proof_of_trace.query_values[i];
            if position >= 1024 * 1024 {
                return Err(Error::InvalidQueryPosition);
            }
            if value == 0 && position > 1 {
                return Err(Error::ConstraintFailed);
            }
            i = i + 1;
        }
        Ok(())
    }

    /// Whether the claimed last value is the value of the sequence at the
    /// last row.
    fn verify_result(proof_of_trace: &FibonacciProof, trace_length: usize, initial_values: [
        u64;
        2
    ]) -> (result: Result<(), Error>)
        requires
            trace_length >= 1,
        ensures
            result == if proof_of_trace.expected_result == fib_from(
                initial_values[0],
                initial_values[1],
                (trace_length - 1) as nat,
            ) {
                Ok::<(), Error>(())
            } else {
                Err::<(), Error>(Error::VerificationFailed)
            },
    {
        let expected: u64 = Self::compute_fibonacci(trace_length - 1, initial_values);
        if proof_of_trace.expected_result != expected {
            return Err(Error::VerificationFailed);
        }
        Ok(())
    }

    /// The `n`-th value of the sequence that starts with `initial`.
    pub fn compute_fibonacci(n: usize, initial: [u64; 2]) -> (value: u64)
        ensures
            value == fib_from(initial[0], initial[1], n as nat),
    {
        if n == 0 {
            return initial[0];
        }
        if n == 1 {
            return initial[1];
        }
        let mut a: u64 = initial[0];
        let mut b: u64 = initial[1];
        let mut k: usize = 1;
        while k < n
            invariant
                1 <= k <= n,
                a == fib_from(initial[0], initial[1], (k - 1) as nat),
                b == fib_from(initial[0], initial[1], k as nat),
            decreases n - k,
        {
            let next: u64 = a.wrapping_add(b);
            a = b;
            b = next;
            k = k + 1;
        }
        b
    }
}

/// The gas that verifying a Fibonacci proof costs: 5,000 for the path and
/// 2,000 for the constraint of each query, 50,000 for field operations and
/// 50,000 of overhead.
pub fn estimate_gas_cost(security_level: SecurityLevel) -> (estimate: GasEstimate)
    ensures
        estimate.merkle_proofs == security_level.queries() * 5_000,
        estimate.constraint_checks == security_level.queries() * 2_000,
        estimate.field_operations == 50_000,
        estimate.overhead == 50_000,
        estimate.total == security_level.queries() * 7_000 + 100_000,
{
    let num_queries: usize = security_level.num_queries();
    let merkle_gas: usize = num_queries * 5_000;
    let constraint_gas: usize = num_queries * 2_000;
    let field_ops_gas: usize = 50_000;
    let overhead_gas: usize = 50_000;
    let total: usize = merkle_gas + constraint_gas + field_ops_gas + overhead_gas;
    GasEstimate {
        merkle_proofs: merkle_gas,
        constraint_checks: constraint_gas,
        field_operations: field_ops_gas,
        overhead: overhead_gas,
        total,
    }
}

} // verus!
