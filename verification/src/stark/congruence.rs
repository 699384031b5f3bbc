//! The verdict on a proof depends on what the proof and the key hold, not
//! on the vectors that hold it: two proofs that were read from one byte
//! string, under two keys of one computation, have one verdict.

use crate::field::Scalar;
use crate::stark::air::{AirContext, Assertion};
use crate::stark::constraints::{constraint_value, window_rows_spec, AirConstraint};
use crate::stark::fri::{
    folding_ok, fri_accepts, merkle_ok, query_ok, remainder_ok, structure_ok, FriOptions,
    FriProof,
};
use crate::stark::stark::{
    constraints_defect, fibonacci_terms, first_query_defect, fri_challenges_spec, joined,
    ood_values_ok, positions_seed, proof_shape_ok, query_defect, query_leaf, query_position,
    stark_verdict, window_of, window_shape_ok, QueryProof, StarkProof, StarkVerificationKey,
};
use crate::stark::types::SecurityLevel;
use vstd::prelude::*;

verus! {

/// Whether `vk` is the key of the Fibonacci computation over a trace of
/// `trace_length` rows at the given security level.
pub open spec fn is_fibonacci_key(
    vk: StarkVerificationKey,
    trace_length: usize,
    level: SecurityLevel,
) -> bool {
    &&& vk.air_context == (AirContext {
        trace_length,
        trace_width: 1,
        num_transition_constraints: 1,
        num_boundary_constraints: 3,
    })
    &&& vk.security_level == level
    &&& vk.fri_options.blowup_factor == level.blowup()
    &&& vk.fri_options.num_queries == level.queries()
    &&& vk.fri_options.max_remainder_degree == 7
    &&& vk.fri_options.num_layers == crate::pow2::log2_floor(
        crate::pow2::next_pow2(((trace_length * level.blowup()) / 7) as nat),
    )
    &&& vk.constraints@.len() == 1
    &&& vk.constraints@[0].degree == 1
    &&& vk.constraints@[0].terms@ == fibonacci_terms()
}

/// Whether two queries hold the same row, path and cells.
pub open spec fn same_query(a: QueryProof, b: QueryProof) -> bool {
    &&& a.index == b.index
    &&& a.merkle_proof@ == b.merkle_proof@
    &&& a.trace_values@.len() == b.trace_values@.len()
    &&& forall|k: int|
        0 <= k < a.trace_values@.len() ==> (#[trigger] a.trace_values@[k])@ == b.trace_values@[k]@
}

/// Whether two FRI proofs hold the same roots, paths, evaluations and
/// remainder.
pub open spec fn same_fri(a: FriProof, b: FriProof) -> bool {
    &&& a.num_queries == b.num_queries
    &&& a.remainder@ == b.remainder@
    &&& a.layer_commitments@ == b.layer_commitments@
    &&& a.layer_proofs@.len() == b.layer_proofs@.len()
    &&& a.layer_evaluations@.len() == b.layer_evaluations@.len()
    &&& forall|l: int|
        0 <= l < a.layer_evaluations@.len() ==> (#[trigger] a.layer_evaluations@[l])@
            == b.layer_evaluations@[l]@
    &&& forall|l: int|
        0 <= l < a.layer_proofs@.len() ==> (#[trigger] a.layer_proofs@[l])@.len()
            == b.layer_proofs@[l]@.len()
    &&& forall|l: int, q: int|
        0 <= l < a.layer_proofs@.len() && 0 <= q < a.layer_proofs@[l]@.len() ==> {
            &&& (#[trigger] a.layer_proofs@[l]@[q]).index == b.layer_proofs@[l]@[q].index
            &&& a.layer_proofs@[l]@[q].path@ == b.layer_proofs@[l]@[q].path@
        }
}

/// Whether two proofs hold the same.
pub open spec fn same_proof(a: StarkProof, b: StarkProof) -> bool {
    &&& a.trace_commitment == b.trace_commitment
    &&& a.composition_commitment == b.composition_commitment
    &&& a.ood_frame.current@.len() == b.ood_frame.current@.len()
    &&& forall|k: int|
        0 <= k < a.ood_frame.current@.len() ==> (#[trigger] a.ood_frame.current@[k])@
            == b.ood_frame.current@[k]@
    &&& a.ood_frame.next@.len() == b.ood_frame.next@.len()
    &&& forall|k: int|
        0 <= k < a.ood_frame.next@.len() ==> (#[trigger] a.ood_frame.next@[k])@
            == b.ood_frame.next@[k]@
    &&& a.trace_query_proofs@.len() == b.trace_query_proofs@.len()
    &&& forall|i: int|
        0 <= i < a.trace_query_proofs@.len() ==> same_query(
            #[trigger] a.trace_query_proofs@[i],
            b.trace_query_proofs@[i],
        )
    &&& same_fri(a.fri_proof, b.fri_proof)
}

/// Whether two keys hold the same.
pub open spec fn same_key(a: StarkVerificationKey, b: StarkVerificationKey) -> bool {
    &&& a.air_context == b.air_context
    &&& a.fri_options == b.fri_options
    &&& a.security_level == b.security_level
    &&& a.constraints@.len() == b.constraints@.len()
    &&& forall|c: int|
        0 <= c < a.constraints@.len() ==> (#[trigger] a.constraints@[c]).terms@
            == b.constraints@[c].terms@
}

/// Byte strings that are the same piece by piece are the same joined.
pub proof fn lemma_joined_same(a: Seq<Vec<u8>>, b: Seq<Vec<u8>>, n: nat)
    requires
        n <= a.len(),
        n <= b.len(),
        forall|k: int| 0 <= k < n ==> (#[trigger] a[k])@ == b[k]@,
    ensures
        joined(a, n) == joined(b, n),
    decreases n,
{
    if n > 0 {
        lemma_joined_same(a, b, (n - 1) as nat);
    }
}

/// The rows of a window depend on the terms alone.
pub proof fn lemma_window_rows_same(a: Seq<AirConstraint>, b: Seq<AirConstraint>, n: nat)
    requires
        n <= a.len(),
        n <= b.len(),
        forall|c: int| 0 <= c < n ==> (#[trigger] a[c]).terms@ == b[c].terms@,
    ensures
        window_rows_spec(a, n) == window_rows_spec(b, n),
    decreases n,
{
    if n > 0 {
        lemma_window_rows_same(a, b, (n - 1) as nat);
    }
}

/// What constraints find on a window depends on their terms alone.
pub proof fn lemma_constraints_defect_same(
    a: Seq<AirConstraint>,
    b: Seq<AirConstraint>,
    window: Seq<u64>,
    width: usize,
    n: nat,
)
    requires
        n <= a.len(),
        n <= b.len(),
        forall|c: int| 0 <= c < n ==> (#[trigger] a[c]).terms@ == b[c].terms@,
    ensures
        constraints_defect(a, window, width, n) == constraints_defect(b, window, width, n),
    decreases n,
{
    if n > 0 {
        lemma_constraints_defect_same(a, b, window, width, (n - 1) as nat);
        assert(constraint_value(a[n - 1], window, width) == constraint_value(
            b[n - 1],
            window,
            width,
        ));
    }
}

/// The rows that the queries have to open are the same for proofs that
/// hold the same.
pub proof fn lemma_positions_same(a: StarkProof, b: StarkProof)
    requires
        same_proof(a, b),
    ensures
        positions_seed(a) == positions_seed(b),
{
    lemma_joined_same(a.ood_frame.current@, b.ood_frame.current@, a.ood_frame.current@.len());
    lemma_joined_same(a.ood_frame.next@, b.ood_frame.next@, a.ood_frame.next@.len());
}

/// One query has the same defect under keys and in proofs that hold the
/// same.
pub proof fn lemma_query_defect_same(
    vk_a: StarkVerificationKey,
    vk_b: StarkVerificationKey,
    a: StarkProof,
    b: StarkProof,
    assertions: Seq<Assertion>,
    i: int,
)
    requires
        same_key(vk_a, vk_b),
        same_proof(a, b),
        0 <= i < a.trace_query_proofs@.len(),
    ensures
        query_defect(vk_a, a, assertions, i) == query_defect(vk_b, b, assertions, i),
{
    let qa = a.trace_query_proofs@[i];
    let qb = b.trace_query_proofs@[i];
    assert(same_query(qa, qb));
    lemma_positions_same(a, b);
    lemma_joined_same(qa.trace_values@, qb.trace_values@, qa.trace_values@.len());
    assert(window_of(qa) =~= window_of(qb));
    lemma_window_rows_same(vk_a.constraints@, vk_b.constraints@, vk_a.constraints@.len());
    lemma_constraints_defect_same(
        vk_a.constraints@,
        vk_b.constraints@,
        window_of(qa),
        vk_a.air_context.trace_width,
        vk_a.constraints@.len(),
    );
    assert(window_shape_ok(vk_a, qa) == window_shape_ok(vk_b, qb)) by {
        if window_shape_ok(vk_a, qa) {
            assert forall|k: int| 0 <= k < qb.trace_values@.len() implies (
            #[trigger] qb.trace_values@[k])@.len() >= 8 by {
                assert(qa.trace_values@[k]@ == qb.trace_values@[k]@);
            }
        }
        if window_shape_ok(vk_b, qb) {
            assert forall|k: int| 0 <= k < qa.trace_values@.len() implies (
            #[trigger] qa.trace_values@[k])@.len() >= 8 by {
                assert(qa.trace_values@[k]@ == qb.trace_values@[k]@);
            }
        }
    }
    assert(query_leaf(qa) == query_leaf(qb));
    assert(query_position(a, vk_a.air_context.trace_length, i as nat) == query_position(
        b,
        vk_b.air_context.trace_length,
        i as nat,
    ));
}

/// The first defect among the queries is the same.
pub proof fn lemma_first_query_defect_same(
    vk_a: StarkVerificationKey,
    vk_b: StarkVerificationKey,
    a: StarkProof,
    b: StarkProof,
    assertions: Seq<Assertion>,
    n: nat,
)
    requires
        same_key(vk_a, vk_b),
        same_proof(a, b),
        n <= a.trace_query_proofs@.len(),
    ensures
        first_query_defect(vk_a, a, assertions, n) == first_query_defect(vk_b, b, assertions, n),
    decreases n,
{
    if n > 0 {
        lemma_first_query_defect_same(vk_a, vk_b, a, b, assertions, (n - 1) as nat);
        lemma_query_defect_same(vk_a, vk_b, a, b, assertions, n - 1);
    }
}

/// One opened evaluation is accepted in both of two FRI proofs that hold
/// the same, or in neither.
pub proof fn lemma_query_ok_same(
    a: FriProof,
    b: FriProof,
    challenges: Seq<Scalar>,
    domain: Seq<Scalar>,
    l: int,
    q: int,
)
    requires
        same_fri(a, b),
        0 <= l < a.layer_proofs@.len(),
        l < a.layer_evaluations@.len(),
        l < a.layer_commitments@.len(),
        0 <= q < a.layer_proofs@[l]@.len(),
        q < a.layer_evaluations@[l]@.len(),
    ensures
        query_ok(a, challenges, domain, l, q) == query_ok(b, challenges, domain, l, q),
{
    assert(a.layer_evaluations@[l]@ == b.layer_evaluations@[l]@);
    assert(a.layer_proofs@[l]@[q].index == b.layer_proofs@[l]@[q].index);
    assert(a.layer_proofs@[l]@[q].path@ == b.layer_proofs@[l]@[q].path@);
    assert(merkle_ok(
        a.layer_commitments@[l],
        a.layer_proofs@[l]@[q],
        a.layer_evaluations@[l]@[q],
    ) == merkle_ok(b.layer_commitments@[l], b.layer_proofs@[l]@[q], b.layer_evaluations@[l]@[q]));
    if l > 0 {
        assert(a.layer_evaluations@[l - 1]@ == b.layer_evaluations@[l - 1]@);
        assert(folding_ok(a, challenges, domain, l, q) == folding_ok(b, challenges, domain, l, q));
    }
}

/// Two FRI proofs that hold the same are both accepted, or neither.
pub proof fn lemma_fri_accepts_same(
    options: FriOptions,
    a: FriProof,
    b: FriProof,
    challenges: Seq<Scalar>,
    domain: Seq<Scalar>,
)
    requires
        same_fri(a, b),
    ensures
        fri_accepts(options, a, challenges, domain) == fri_accepts(options, b, challenges, domain),
{
    assert(structure_ok(options, a, challenges) == structure_ok(options, b, challenges)) by {
        if structure_ok(options, a, challenges) {
            assert forall|l: int| 0 <= l < options.num_layers implies (
            #[trigger] b.layer_proofs@[l])@.len() >= options.num_queries by {
                assert(a.layer_proofs@[l]@.len() == b.layer_proofs@[l]@.len());
            }
            assert forall|l: int| 0 <= l < options.num_layers implies (
            #[trigger] b.layer_evaluations@[l])@.len() >= options.num_queries by {
                assert(a.layer_evaluations@[l]@ == b.layer_evaluations@[l]@);
            }
        }
        if structure_ok(options, b, challenges) {
            assert forall|l: int| 0 <= l < options.num_layers implies (
            #[trigger] a.layer_proofs@[l])@.len() >= options.num_queries by {
                assert(a.layer_proofs@[l]@.len() == b.layer_proofs@[l]@.len());
            }
            assert forall|l: int| 0 <= l < options.num_layers implies (
            #[trigger] a.layer_evaluations@[l])@.len() >= options.num_queries by {
                assert(a.layer_evaluations@[l]@ == b.layer_evaluations@[l]@);
            }
        }
    }
    if structure_ok(options, a, challenges) {
        assert(structure_ok(options, b, challenges));
        assert forall|l: int, q: int|
            0 <= l < options.num_layers && 0 <= q < options.num_queries implies query_ok(
            a,
            challenges,
            domain,
            l,
            q,
        ) == #[trigger] query_ok(b, challenges, domain, l, q) by {
            assert(a.layer_proofs@[l]@.len() >= options.num_queries);
            assert(a.layer_evaluations@[l]@.len() >= options.num_queries);
            lemma_query_ok_same(a, b, challenges, domain, l, q);
        }
        assert(a.layer_evaluations@.last()@ == b.layer_evaluations@.last()@) by {
            let last = a.layer_evaluations@.len() - 1;
            assert(a.layer_evaluations@[last]@ == b.layer_evaluations@[last]@);
        }
        assert(remainder_ok(a) == remainder_ok(b));
        let all_a = forall|l: int, q: int|
            0 <= l < options.num_layers && 0 <= q < options.num_queries ==> #[trigger] query_ok(
                a,
                challenges,
                domain,
                l,
                q,
            );
        let all_b = forall|l: int, q: int|
            0 <= l < options.num_layers && 0 <= q < options.num_queries ==> #[trigger] query_ok(
                b,
                challenges,
                domain,
                l,
                q,
            );
        if all_a {
            assert forall|l: int, q: int|
                0 <= l < options.num_layers && 0 <= q < options.num_queries implies #[trigger] query_ok(
                b,
                challenges,
                domain,
                l,
                q,
            ) by {
                assert(query_ok(a, challenges, domain, l, q));
            }
        }
        if all_b {
            assert forall|l: int, q: int|
                0 <= l < options.num_layers && 0 <= q < options.num_queries implies #[trigger] query_ok(
                a,
                challenges,
                domain,
                l,
                q,
            ) by {
                assert(query_ok(b, challenges, domain, l, q));
            }
        }
        assert(all_a == all_b);
    }
}

/// Keys and proofs that hold the same have one verdict.
pub proof fn lemma_verdict_same(
    vk_a: StarkVerificationKey,
    vk_b: StarkVerificationKey,
    a: StarkProof,
    b: StarkProof,
    assertions: Seq<Assertion>,
    domain: Seq<Scalar>,
)
    requires
        same_key(vk_a, vk_b),
        same_proof(a, b),
    ensures
        stark_verdict(vk_a, a, assertions, domain) == stark_verdict(vk_b, b, assertions, domain),
{
    assert(proof_shape_ok(vk_a, a) == proof_shape_ok(vk_b, b));
    assert(ood_values_ok(a.ood_frame) == ood_values_ok(b.ood_frame)) by {
        if ood_values_ok(a.ood_frame) {
            assert forall|k: int| 0 <= k < b.ood_frame.current@.len() implies (
            #[trigger] b.ood_frame.current@[k])@.len() >= 16 by {
                assert(a.ood_frame.current@[k]@ == b.ood_frame.current@[k]@);
            }
            assert forall|k: int| 0 <= k < b.ood_frame.next@.len() implies (
            #[trigger] b.ood_frame.next@[k])@.len() >= 16 by {
                assert(a.ood_frame.next@[k]@ == b.ood_frame.next@[k]@);
            }
        }
        if ood_values_ok(b.ood_frame) {
            assert forall|k: int| 0 <= k < a.ood_frame.current@.len() implies (
            #[trigger] a.ood_frame.current@[k])@.len() >= 16 by {
                assert(a.ood_frame.current@[k]@ == b.ood_frame.current@[k]@);
            }
            assert forall|k: int| 0 <= k < a.ood_frame.next@.len() implies (
            #[trigger] a.ood_frame.next@[k])@.len() >= 16 by {
                assert(a.ood_frame.next@[k]@ == b.ood_frame.next@[k]@);
            }
        }
    }
    lemma_first_query_defect_same(
        vk_a,
        vk_b,
        a,
        b,
        assertions,
        a.trace_query_proofs@.len(),
    );
    assert(fri_challenges_spec(a) =~= fri_challenges_spec(b));
    lemma_fri_accepts_same(
        vk_a.fri_options,
        a.fri_proof,
        b.fri_proof,
        fri_challenges_spec(a),
        domain,
    );
}

} // verus!
