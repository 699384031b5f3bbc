//! The algebraic description of a computation: the shape of its trace, and
//! the assertions on its first and last rows.

use crate::field::{add_spec, fr_add, Scalar};
use crate::pow2::{is_pow2, is_power_of_two};
use crate::stark::types::Error;
use vstd::prelude::*;

verus! {

/// The shape of a trace and the number of its constraints.
#[derive(Debug, Clone, Copy, PartialEq, Eq, Structural)]
pub struct AirContext {
    /// Number of rows, a power of two.
    pub trace_length: usize,
    /// Number of columns.
    pub trace_width: usize,
    /// Number of constraints between rows.
    pub num_transition_constraints: usize,
    /// Number of assertions on single cells.
    pub num_boundary_constraints: usize,
}

impl AirContext {
    /// The context of the Fibonacci computation: one column, one transition
    /// constraint, three assertions. A length that is no power of two fails
    /// with `InvalidInputSize`.
    pub fn new_fibonacci(trace_length: usize) -> (result: Result<AirContext, Error>)
        ensures
            match result {
                Ok(context) => is_pow2(trace_length as nat) && context == (AirContext {
                    trace_length,
                    trace_width: 1,
                    num_transition_constraints: 1,
                    num_boundary_constraints: 3,
                }),
                Err(e) => !is_pow2(trace_length as nat) && e == Error::InvalidInputSize,
            },
    {
        if !is_power_of_two(trace_length) {
            return Err(Error::InvalidInputSize);
        }
        Ok(
            AirContext {
                trace_length,
                trace_width: 1,
                num_transition_constraints: 1,
                num_boundary_constraints: 3,
            },
        )
    }

    /// The size of the evaluation domain, the trace length times the blowup
    /// factor. The product has to be a length on this machine.
    pub fn evaluation_domain_size(&self, blowup_factor: usize) -> (size: usize)
        requires
            self.trace_length * blowup_factor <= usize::MAX,
        ensures
            size == self.trace_length * blowup_factor,
    {
        self.trace_length * blowup_factor
    }
}

/// The claim that one cell of the trace holds a value.
#[derive(Debug, Clone, Copy, PartialEq, Eq)]
pub struct Assertion {
    pub column: usize,
    pub step: usize,
    pub value: Scalar,
}

impl Assertion {
    /// The asserted value.
    pub fn value(&self) -> (value: Scalar)
        ensures
            value == self.value,
    {
        self.value
    }
}

/// The Fibonacci computation: `F(i+2) = F(i+1) + F(i)` in one column.
#[derive(Debug, Clone, Copy)]
pub struct FibonacciAir {
    trace_length: usize,
    initial_value_0: Scalar,
    initial_value_1: Scalar,
    expected_result: Scalar,
}

impl FibonacciAir {
    /// The rows of the trace.
    pub closed spec fn rows(self) -> usize {
        self.trace_length
    }

    /// The assertions of the computation: the two initial values in rows 0
    /// and 1, the expected result in the last row.
    pub closed spec fn assertions(self) -> Seq<Assertion> {
        seq![
            Assertion { column: 0, step: 0, value: self.initial_value_0 },
            Assertion { column: 0, step: 1, value: self.initial_value_1 },
            Assertion {
                column: 0,
                step: (self.trace_length - 1) as usize,
                value: self.expected_result,
            },
        ]
    }

    /// The computation over a trace of `trace_length` rows, one at least.
    pub fn new(
        trace_length: usize,
        initial_value_0: Scalar,
        initial_value_1: Scalar,
        expected_result: Scalar,
    ) -> (air: FibonacciAir)
        requires
            trace_length >= 1,
        ensures
            air.rows() == trace_length,
            air.assertions() == seq![
                Assertion { column: 0, step: 0, value: initial_value_0 },
                Assertion { column: 0, step: 1, value: initial_value_1 },
                Assertion { column: 0, step: (trace_length - 1) as usize, value: expected_result },
            ],
    {
        FibonacciAir { trace_length, initial_value_0, initial_value_1, expected_result }
    }

    pub fn trace_length(&self) -> (length: usize)
        ensures
            length == self.rows(),
    {
        self.trace_length
    }

    pub fn get_assertions(&self) -> (assertions: Vec<Assertion>)
        requires
            self.rows() >= 1,
        ensures
            assertions@ == self.assertions(),
    {
        let mut assertions: Vec<Assertion> = Vec::new();
        assertions.push(Assertion { column: 0, step: 0, value: self.initial_value_0 });
        assertions.push(Assertion { column: 0, step: 1, value: self.initial_value_1 });
        assertions.push(
            Assertion { column: 0, step: self.trace_length - 1, value: self.expected_result },
        );
        assert(assertions@ =~= self.assertions());
        assertions
    }
}

/// The Fibonacci sequence in the scalar field, from two initial values.
pub open spec fn field_fib(first: Scalar, second: Scalar, n: nat) -> Scalar
    decreases n,
{
    if n == 0 {
        first
    } else if n == 1 {
        second
    } else {
        add_spec(field_fib(first, second, (n - 1) as nat), field_fib(first, second, (n - 2) as nat))
    }
}

/// Makes Fibonacci traces from two initial values.
#[derive(Debug, Clone, Copy)]
pub struct FibonacciTraceGenerator {
    pub initial_value_0: Scalar,
    pub initial_value_1: Scalar,
}

impl FibonacciTraceGenerator {
    pub fn new(initial_value_0: Scalar, initial_value_1: Scalar) -> (generator: Self)
        ensures
            generator.initial_value_0 == initial_value_0,
            generator.initial_value_1 == initial_value_1,
    {
        FibonacciTraceGenerator { initial_value_0, initial_value_1 }
    }

    /// The first `trace_length` values of the sequence.
    pub fn generate_trace(&self, trace_length: usize) -> (trace: Vec<Scalar>)
        ensures
            trace@.len() == trace_length,
            forall|i: int|
                0 <= i < trace_length ==> #[trigger] trace@[i] == field_fib(
                    self.initial_value_0,
                    self.initial_value_1,
                    i as nat,
                ),
    {
        let mut trace: Vec<Scalar> = Vec::new();
        if trace_length == 0 {
            return trace;
        }
        trace.push(self.initial_value_0);
        if trace_length == 1 {
            return trace;
        }
        trace.push(self.initial_value_1);
        let mut i: usize = 2;
        while i < trace_length
            invariant
                2 <= i <= trace_length,
                trace@.len() == i,
                forall|k: int|
                    0 <= k < i ==> #[trigger] trace@[k] == field_fib(
                        self.initial_value_0,
                        self.initial_value_1,
                        k as nat,
                    ),
            decreases trace_length - i,
        {
            let next = fr_add(trace[i - 1], trace[i - 2]);
            trace.push(next);
            i = i + 1;
        }
        trace
    }

    /// The `n`-th value of the sequence.
    pub fn get_nth_fibonacci(&self, n: usize) -> (value: Scalar)
        ensures
            value == field_fib(self.initial_value_0, self.initial_value_1, n as nat),
    {
        if n == 0 {
            return self.initial_value_0;
        }
        let mut a = self.initial_value_0;
        let mut b = self.initial_value_1;
        let mut k: usize = 1;
        while k < n
            invariant
                1 <= k <= n,
                a == field_fib(self.initial_value_0, self.initial_value_1, (k - 1) as nat),
                b == field_fib(self.initial_value_0, self.initial_value_1, k as nat),
            decreases n - k,
        {
            let next = fr_add(b, a);
            a = b;
            b = next;
            k = k + 1;
        }
        b
    }
}

/// Holds two neighbouring values of a trace against the computation. Two
/// values do not show whether a row is the sum of the two before it, so
/// nothing is refused here: the transition is checked over windows of three
/// rows when a proof is verified.
pub fn verify_air_constraints(air: &FibonacciAir, current_value: Scalar, next_value: Scalar) -> (result:
    Result<(), Error>)
    ensures
        result == Ok::<(), Error>(()),
{
    Ok(())
}

} // verus!
