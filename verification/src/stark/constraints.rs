//! Constraints over a window of trace rows.
//!
//! A constraint is a sum of terms; a term is a coefficient times a power of
//! one cell of the trace, the cell being named by a register and by the
//! offset of its row from the row under test. A trace meets the constraint
//! at a row where the sum is zero.

use crate::bytes::{be_value, lemma_be_value_bound, lemma_pow256_values, read_be};
use crate::field::{
    add_spec, fr_add, fr_mul, fr_pow, mul_spec, pow_spec, scalar_of, Scalar,
};
use crate::stark::types::Error;
use vstd::prelude::*;

verus! {

/// One term of a constraint, `coefficient * cell^power`.
#[derive(Debug, Clone, Copy, PartialEq, Eq)]
pub struct AirTerm {
    pub coefficient: Scalar,
    /// Rows from the row under test to the row of the cell.
    pub offset: u32,
    /// Column of the cell.
    pub register: u32,
    pub power: u32,
}

/// A constraint, the sum of its terms.
#[derive(Debug, Clone, PartialEq, Eq)]
pub struct AirConstraint {
    /// The declared degree.
    pub degree: u8,
    pub terms: Vec<AirTerm>,
}

/// The position of a term's cell in a window of rows of `width` cells.
pub open spec fn cell_index(term: AirTerm, width: usize) -> int {
    term.offset * width + term.register
}

/// The value of a term over a window, where the window holds its cell.
pub open spec fn term_value(term: AirTerm, window: Seq<u64>, width: usize) -> Option<Scalar> {
    if cell_index(term, width) >= window.len() {
        None
    } else {
        Some(
            mul_spec(
                term.coefficient,
                pow_spec(
                    scalar_of(window[cell_index(term, width)] as nat),
                    scalar_of(term.power as nat),
                ),
            ),
        )
    }
}

/// The sum of the first `n` terms over a window; `None` where the window
/// does not hold the cell of one of them.
pub open spec fn constraint_partial(terms: Seq<AirTerm>, window: Seq<u64>, width: usize, n: nat) -> Option<
    Scalar,
>
    decreases n,
{
    if n == 0 {
        Some(scalar_of(0))
    } else {
        match constraint_partial(terms, window, width, (n - 1) as nat) {
            None => None,
            Some(sum) => match term_value(terms[n - 1], window, width) {
                None => None,
                Some(value) => Some(add_spec(sum, value)),
            },
        }
    }
}

/// The value of a constraint over a window.
pub open spec fn constraint_value(constraint: AirConstraint, window: Seq<u64>, width: usize) -> Option<
    Scalar,
> {
    constraint_partial(constraint.terms@, window, width, constraint.terms@.len())
}

/// Once a term has no cell, the sum has no value however many terms follow.
pub proof fn lemma_constraint_none_stays(
    terms: Seq<AirTerm>,
    window: Seq<u64>,
    width: usize,
    n: nat,
    m: nat,
)
    requires
        n <= m,
        constraint_partial(terms, window, width, n).is_none(),
    ensures
        constraint_partial(terms, window, width, m).is_none(),
    decreases m,
{
    if n < m {
        lemma_constraint_none_stays(terms, window, width, n, (m - 1) as nat);
    }
}

/// Evaluates constraints.
pub struct ConstraintEvaluator;

impl ConstraintEvaluator {
    /// The value of a constraint over a window of trace rows, the rows
    /// written one after the other. Fails with `ConstraintSchemaInvalid`
    /// where a term names a cell outside the window.
    pub fn evaluate(constraint: &AirConstraint, trace_window: &[u64], width: usize) -> (result: Result<
        Scalar,
        Error,
    >)
        ensures
            match result {
                Ok(value) => constraint_value(*constraint, trace_window@, width) == Some(value),
                Err(e) => constraint_value(*constraint, trace_window@, width).is_none() && e
                    == Error::ConstraintSchemaInvalid,
            },
    {
        let mut sum = Scalar::zero();
        let mut i: usize = 0;
        while i < constraint.terms.len()
            invariant
                i <= constraint.terms@.len(),
                constraint_partial(constraint.terms@, trace_window@, width, i as nat) == Some(sum),
            decreases constraint.terms@.len() - i,
        {
            let term = constraint.terms[i];
            assert((term.offset as int) * (width as int) <= 0xffff_ffff * 0xffff_ffff_ffff_ffff)
                by (nonlinear_arith)
                requires
                    0 <= term.offset <= 0xffff_ffff,
                    0 <= width <= 0xffff_ffff_ffff_ffff,
            ;
            let index: u128 = (term.offset as u128) * (width as u128) + (term.register as u128);
            if index >= trace_window.len() as u128 {
                proof {
                    lemma_constraint_none_stays(
                        constraint.terms@,
                        trace_window@,
                        width,
                        (i + 1) as nat,
                        constraint.terms@.len(),
                    );
                }
                return Err(Error::ConstraintSchemaInvalid);
            }
            let cell = Scalar::from_u64(trace_window[index as usize]);
            let powered = fr_pow(cell, Scalar::from_u64(term.power as u64));
            let weighted = fr_mul(term.coefficient, powered);
            sum = fr_add(sum, weighted);
            i = i + 1;
        }
        Ok(sum)
    }
}

/// The rows that a window has to hold for a list of constraints: one more
/// than the largest offset of any term of the first `n` constraints, one at
/// least.
pub open spec fn window_rows_spec(constraints: Seq<AirConstraint>, n: nat) -> nat
    decreases n,
{
    if n == 0 {
        1
    } else {
        let before = window_rows_spec(constraints, (n - 1) as nat);
        let here = terms_rows_spec(constraints[n - 1].terms@, constraints[n - 1].terms@.len());
        if here > before {
            here
        } else {
            before
        }
    }
}

/// One more than the largest offset of the first `n` terms, one at least.
pub open spec fn terms_rows_spec(terms: Seq<AirTerm>, n: nat) -> nat
    decreases n,
{
    if n == 0 {
        1
    } else {
        let before = terms_rows_spec(terms, (n - 1) as nat);
        if terms[n - 1].offset + 1 > before {
            (terms[n - 1].offset + 1) as nat
        } else {
            before
        }
    }
}

/// The smallest window that holds every cell that the constraints name.
pub fn window_rows(constraints: &[AirConstraint]) -> (rows: u64)
    ensures
        rows == window_rows_spec(constraints@, constraints@.len()),
        1 <= rows <= 0x1_0000_0000,
{
    let mut rows: u64 = 1;
    let mut i: usize = 0;
    while i < constraints.len()
        invariant
            i <= constraints@.len(),
            rows == window_rows_spec(constraints@, i as nat),
            1 <= rows <= 0x1_0000_0000,
        decreases constraints@.len() - i,
    {
        let terms = &constraints[i].terms;
        let mut here: u64 = 1;
        let mut k: usize = 0;
        while k < terms.len()
            invariant
                k <= terms@.len(),
                here == terms_rows_spec(terms@, k as nat),
                1 <= here <= 0x1_0000_0000,
            decreases terms@.len() - k,
        {
            let needed: u64 = terms[k].offset as u64 + 1;
            if needed > here {
                here = needed;
            }
            k = k + 1;
        }
        if here > rows {
            rows = here;
        }
        i = i + 1;
    }
    rows
}

/// A verification key of the generic path: the width of the trace and the
/// constraints that every interior row has to meet.
#[derive(Debug, Clone, PartialEq, Eq)]
pub struct GenericAirKey {
    pub trace_width: u32,
    pub constraints: Vec<AirConstraint>,
}

/// Bytes of a serialized term: the coefficient in 32 bytes, then offset,
/// register and power in four bytes each.
pub const TERM_SIZE: usize = 44;

/// The term that 44 bytes at `at` hold; every number is big-endian.
pub open spec fn term_at(bytes: Seq<u8>, at: int) -> AirTerm {
    AirTerm {
        coefficient: Scalar::read_spec(bytes, at),
        offset: be_value(bytes.subrange(at + 32, at + 36)) as u32,
        register: be_value(bytes.subrange(at + 36, at + 40)) as u32,
        power: be_value(bytes.subrange(at + 40, at + 44)) as u32,
    }
}

/// Reads a term.
pub fn read_term(bytes: &[u8], at: usize) -> (term: AirTerm)
    requires
        at + 44 <= bytes@.len(),
    ensures
        term == term_at(bytes@, at as int),
{
    let total: usize = bytes.len();
    assert(at + 44 <= total);
    let coefficient = Scalar::read(bytes, at);
    let offset: u128 = read_be(bytes, at + 32, 4);
    let register: u128 = read_be(bytes, at + 36, 4);
    let power: u128 = read_be(bytes, at + 40, 4);
    proof {
        lemma_be_value_bound(bytes@.subrange(at + 32, at + 36));
        lemma_be_value_bound(bytes@.subrange(at + 36, at + 40));
        lemma_be_value_bound(bytes@.subrange(at + 40, at + 44));
        lemma_pow256_values();
    }
    AirTerm { coefficient, offset: offset as u32, register: register as u32, power: power as u32 }
}

/// An `AirConstraint` as plain values.
pub struct AirConstraintView {
    pub degree: u8,
    pub terms: Seq<AirTerm>,
}

impl View for AirConstraint {
    type V = AirConstraintView;

    open spec fn view(&self) -> AirConstraintView {
        AirConstraintView { degree: self.degree, terms: self.terms@ }
    }
}

/// A `GenericAirKey` as plain values.
pub struct GenericAirKeyView {
    pub trace_width: u32,
    pub constraints: Seq<AirConstraintView>,
}

impl View for GenericAirKey {
    type V = GenericAirKeyView;

    open spec fn view(&self) -> GenericAirKeyView {
        GenericAirKeyView {
            trace_width: self.trace_width,
            constraints: Seq::new(self.constraints@.len(), |i: int| self.constraints@[i]@),
        }
    }
}

/// The `n` terms that stand at `at`, where the buffer holds them.
pub open spec fn terms_at(bytes: Seq<u8>, at: int, n: nat) -> Option<Seq<AirTerm>> {
    if at + 44 * n > bytes.len() {
        None
    } else {
        Some(Seq::new(n, |k: int| term_at(bytes, at + 44 * k)))
    }
}

/// The `count` constraints that stand at `at`, where the buffer holds them:
/// each is `degree (1) ‖ num_terms (4) ‖ terms`.
pub open spec fn constraints_at(bytes: Seq<u8>, at: int, count: nat) -> Option<
    Seq<AirConstraintView>,
>
    decreases count,
{
    if count == 0 {
        Some(Seq::empty())
    } else if at < 0 || at + 5 > bytes.len() {
        None
    } else {
        let num_terms = be_value(bytes.subrange(at + 1, at + 5));
        match terms_at(bytes, at + 5, num_terms) {
            None => None,
            Some(terms) => match constraints_at(
                bytes,
                at + 5 + 44 * num_terms,
                (count - 1) as nat,
            ) {
                None => None,
                Some(rest) => Some(seq![AirConstraintView { degree: bytes[at], terms }] + rest),
            },
        }
    }
}

/// The key that a byte string holds, if it holds one:
/// `trace_width (4) ‖ num_constraints (4) ‖ constraints`, every number
/// big-endian. Bytes after the last constraint are not read.
pub open spec fn key_decoding(bytes: Seq<u8>) -> Option<GenericAirKeyView> {
    if bytes.len() < 8 {
        None
    } else {
        match constraints_at(bytes, 8, be_value(bytes.subrange(4, 8))) {
            None => None,
            Some(constraints) => Some(
                GenericAirKeyView {
                    trace_width: be_value(bytes.subrange(0, 4)) as u32,
                    constraints,
                },
            ),
        }
    }
}

impl GenericAirKey {
    /// Reads a key. `None` where the buffer ends before the key does.
    pub fn decode(bytes: &[u8]) -> (result: Option<GenericAirKey>)
        ensures
            match result {
                Some(key) => key_decoding(bytes@) == Some(key@),
                None => key_decoding(bytes@).is_none(),
            },
    {
        let total: usize = bytes.len();
        if total < 8 {
            return None;
        }
        let width: u128 = read_be(bytes, 0, 4);
        let count: u128 = read_be(bytes, 4, 4);
        proof {
            lemma_be_value_bound(bytes@.subrange(0, 4));
            lemma_be_value_bound(bytes@.subrange(4, 8));
            lemma_pow256_values();
        }
        let mut constraints: Vec<AirConstraint> = Vec::new();
        let ghost mut done: Seq<AirConstraintView> = Seq::empty();
        let mut at: usize = 8;
        let mut i: u128 = 0;
        assert(Seq::<AirConstraintView>::empty() + constraints_at(bytes@, 8, count as nat)->0
            =~= constraints_at(bytes@, 8, count as nat)->0);
        while i < count
            invariant
                i <= count,
                8 <= at <= total == bytes@.len(),
                count == be_value(bytes@.subrange(4, 8)),
                width == be_value(bytes@.subrange(0, 4)),
                width < 0x1_0000_0000,
                constraints@.len() == i,
                done == Seq::new(constraints@.len(), |j: int| constraints@[j]@),
                constraints_at(bytes@, 8, count as nat) == match constraints_at(
                    bytes@,
                    at as int,
                    (count - i) as nat,
                ) {
                    None => None::<Seq<AirConstraintView>>,
                    Some(rest) => Some(done + rest),
                },
            decreases count - i,
        {
            if total - at < 5 {
                return None;
            }
            let degree: u8 = bytes[at];
            let num_terms: u128 = read_be(bytes, at + 1, 4);
            let ghost start = at as int;
            at = at + 5;
            if num_terms > ((total - at) / 44) as u128 {
                assert(terms_at(bytes@, at as int, num_terms as nat).is_none());
                return None;
            }
            let mut terms: Vec<AirTerm> = Vec::new();
            let first: usize = at;
            let mut k: usize = 0;
            while k < num_terms as usize
                invariant
                    k <= num_terms,
                    at == first + 44 * k,
                    first + 44 * num_terms <= total == bytes@.len(),
                    terms@.len() == k,
                    forall|j: int|
                        0 <= j < k ==> #[trigger] terms@[j] == term_at(bytes@, first + 44 * j),
                decreases num_terms - k,
            {
                terms.push(read_term(bytes, at));
                at = at + 44;
                k = k + 1;
            }
            proof {
                let parsed = terms_at(bytes@, first as int, num_terms as nat);
                assert(parsed == Some(terms@)) by {
                    assert(terms@ =~= parsed->0);
                }
                let here = AirConstraintView { degree, terms: terms@ };
                let tail = constraints_at(bytes@, at as int, (count - i - 1) as nat);
                if tail is Some {
                    assert(done + (seq![here] + tail->0) =~= done.push(here) + tail->0);
                }
                done = done.push(here);
            }
            constraints.push(AirConstraint { degree, terms });
            assert(done =~= Seq::new(constraints@.len(), |j: int| constraints@[j]@));
            i = i + 1;
        }
        proof {
            assert(done + Seq::<AirConstraintView>::empty() =~= done);
        }
        Some(GenericAirKey { trace_width: width as u32, constraints })
    }
}

} // verus!
