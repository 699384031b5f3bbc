//! KZG openings.
//!
//! A commitment `C` opens to the value `y` at the point `z` with the proof
//! `pi` if and only if `e(C - y G1, G2) = e(pi, tau G2 - z G2)`, which is
//! checked as one product of two pairings. Several openings at one point are
//! checked together: commitments and values are summed with the powers of a
//! challenge as coefficients, and the sums are checked as one opening.

use crate::curve::{
    g1_add, g1_generator, g1_generator_spec, g1_identity_spec, g1_mul, g1_neg, g1_sub,
    g1_sub_spec, g1_valid, g2_generator, g2_generator_spec, g2_mul, g2_sub, g2_sub_spec,
    g2_valid, pairing_check, pairing_product_is_one, spec_g1_add, spec_g1_mul, spec_g1_neg,
    spec_g2_mul, G1Point, G2Point,
};
use crate::field::{add_spec, fr_add, fr_mul, mul_spec, scalar_of, Scalar};
use crate::plonk::Error;
use vstd::prelude::*;

pub use crate::curve::{validate_g1_point, validate_g2_point};

verus! {

/// Most bytes of a serialized commitment.
pub const MAX_COMMITMENT_SIZE: usize = 64;

/// Most bytes of a serialized opening proof.
pub const MAX_PROOF_SIZE: usize = 64;

/// The opening equation: `e(C - y G1, G2) * e(-pi, tau G2 - z G2) = 1`.
pub open spec fn opening_holds(
    commitment: G1Point,
    eval_point: Scalar,
    claimed_eval: Scalar,
    opening: G1Point,
    tau_g2: G2Point,
) -> bool {
    pairing_product_is_one(
        seq![
            g1_sub_spec(commitment, spec_g1_mul(g1_generator_spec(), claimed_eval)),
            spec_g1_neg(opening),
        ],
        seq![
            g2_generator_spec(),
            g2_sub_spec(tau_g2, spec_g2_mul(g2_generator_spec(), eval_point)),
        ],
    )
}

/// The `i`-th coefficient of a batch, the `i`-th power of the challenge.
pub open spec fn coefficient(challenge: Scalar, i: nat) -> Scalar
    decreases i,
{
    if i == 0 {
        scalar_of(1)
    } else {
        mul_spec(coefficient(challenge, (i - 1) as nat), challenge)
    }
}

/// The sum of the first `n` commitments, each times its coefficient.
pub open spec fn aggregated_commitment(commitments: Seq<G1Point>, challenge: Scalar, n: nat) -> G1Point
    decreases n,
{
    if n == 0 {
        g1_identity_spec()
    } else {
        spec_g1_add(
            aggregated_commitment(commitments, challenge, (n - 1) as nat),
            spec_g1_mul(commitments[n - 1], coefficient(challenge, (n - 1) as nat)),
        )
    }
}

/// The sum of the first `n` values, each times its coefficient.
pub open spec fn aggregated_eval(evals: Seq<Scalar>, challenge: Scalar, n: nat) -> Scalar
    decreases n,
{
    if n == 0 {
        scalar_of(0)
    } else {
        add_spec(
            aggregated_eval(evals, challenge, (n - 1) as nat),
            mul_spec(coefficient(challenge, (n - 1) as nat), evals[n - 1]),
        )
    }
}

/// The verdict on one serialized opening. Commitment and proof are 64 bytes
/// each, `x ‖ y`; longer ones are refused as too large, shorter ones as
/// unreadable. The three points have to be valid group elements.
pub open spec fn opening_verdict(
    commitment_bytes: Seq<u8>,
    eval_point: Scalar,
    claimed_eval: Scalar,
    proof_bytes: Seq<u8>,
    srs_g2: G2Point,
) -> Result<bool, Error> {
    if commitment_bytes.len() > 64 || proof_bytes.len() > 64 {
        Err(Error::InvalidInputSize)
    } else if commitment_bytes.len() != 64 || proof_bytes.len() != 64 {
        Err(Error::DeserializationError)
    } else {
        let commitment = G1Point::read_spec(commitment_bytes, 0);
        let opening = G1Point::read_spec(proof_bytes, 0);
        if !g1_valid(commitment) || !g1_valid(opening) || !g2_valid(srs_g2) {
            Err(Error::MalformedProof)
        } else {
            Ok(opening_holds(commitment, eval_point, claimed_eval, opening, srs_g2))
        }
    }
}

/// The verdict on a batch of openings at one point. The lists have to be of
/// one length and not empty; every point has to be a valid group element.
pub open spec fn batch_verdict(
    commitments: Seq<G1Point>,
    eval_point: Scalar,
    claimed_evals: Seq<Scalar>,
    opening: G1Point,
    srs_g2: G2Point,
    challenge: Scalar,
) -> Result<bool, Error> {
    if commitments.len() != claimed_evals.len() || commitments.len() == 0 {
        Err(Error::InvalidInputSize)
    } else if (exists|i: int| 0 <= i < commitments.len() && !g1_valid(#[trigger] commitments[i]))
        || !g1_valid(opening) || !g2_valid(srs_g2) {
        Err(Error::MalformedProof)
    } else {
        Ok(
            opening_holds(
                aggregated_commitment(commitments, challenge, commitments.len()),
                eval_point,
                aggregated_eval(claimed_evals, challenge, claimed_evals.len()),
                opening,
                srs_g2,
            ),
        )
    }
}

/// Evaluates the opening equation.
pub fn check_opening(
    commitment: &G1Point,
    eval_point: &Scalar,
    claimed_eval: &Scalar,
    opening: &G1Point,
    tau_g2: &G2Point,
) -> (holds: bool)
    ensures
        holds == opening_holds(*commitment, *eval_point, *claimed_eval, *opening, *tau_g2),
{
    let g1 = g1_generator();
    let g2 = g2_generator();
    let y_g1 = g1_mul(&g1, claimed_eval);
    let c_minus_y = g1_sub(commitment, &y_g1);
    let z_g2 = g2_mul(&g2, eval_point);
    let tau_minus_z = g2_sub(tau_g2, &z_g2);
    let g1s: [G1Point; 2] = [c_minus_y, g1_neg(opening)];
    let g2s: [G2Point; 2] = [g2, tau_minus_z];
    assert(g1s@ =~= seq![
        g1_sub_spec(*commitment, spec_g1_mul(g1_generator_spec(), *claimed_eval)),
        spec_g1_neg(*opening),
    ]);
    assert(g2s@ =~= seq![
        g2_generator_spec(),
        g2_sub_spec(*tau_g2, spec_g2_mul(g2_generator_spec(), *eval_point)),
    ]);
    pairing_check(g1s.as_slice(), g2s.as_slice())
}

/// Verifies that the committed polynomial takes the claimed value at the
/// point.
pub fn verify_kzg_opening(
    commitment_bytes: &[u8],
    eval_point: &Scalar,
    claimed_eval: &Scalar,
    proof_bytes: &[u8],
    srs_g2: &G2Point,
) -> (result: Result<bool, Error>)
    ensures
        result == opening_verdict(
            commitment_bytes@,
            *eval_point,
            *claimed_eval,
            proof_bytes@,
            *srs_g2,
        ),
{
    if commitment_bytes.len() > MAX_COMMITMENT_SIZE {
        return Err(Error::InvalidInputSize);
    }
    if proof_bytes.len() > MAX_PROOF_SIZE {
        return Err(Error::InvalidInputSize);
    }
    if commitment_bytes.len() != 64 || proof_bytes.len() != 64 {
        return Err(Error::DeserializationError);
    }
    let commitment = G1Point::read(commitment_bytes, 0);
    let opening = G1Point::read(proof_bytes, 0);
    if !validate_g1_point(&commitment) {
        return Err(Error::MalformedProof);
    }
    if !validate_g1_point(&opening) {
        return Err(Error::MalformedProof);
    }
    if !validate_g2_point(srs_g2) {
        return Err(Error::MalformedProof);
    }
    Ok(check_opening(&commitment, eval_point, claimed_eval, &opening, srs_g2))
}

/// Verifies several openings at one point with one pairing check. The
/// `i`-th commitment and value count with the `i`-th power of `challenge`.
pub fn verify_kzg_batch_opening(
    commitments: &[G1Point],
    eval_point: &Scalar,
    claimed_evals: &[Scalar],
    opening: &G1Point,
    srs_g2: &G2Point,
    challenge: &Scalar,
) -> (result: Result<bool, Error>)
    ensures
        result == batch_verdict(
            commitments@,
            *eval_point,
            claimed_evals@,
            *opening,
            *srs_g2,
            *challenge,
        ),
{
    if commitments.len() != claimed_evals.len() {
        return Err(Error::InvalidInputSize);
    }
    if commitments.len() == 0 {
        return Err(Error::InvalidInputSize);
    }
    let mut k: usize = 0;
    while k < commitments.len()
        invariant
            k <= commitments@.len(),
            commitments@.len() == claimed_evals@.len(),
            commitments@.len() > 0,
            forall|j: int| 0 <= j < k ==> g1_valid(#[trigger] commitments@[j]),
        decreases commitments@.len() - k,
    {
        if !validate_g1_point(&commitments[k]) {
            assert(!g1_valid(commitments@[k as int]));
            return Err(Error::MalformedProof);
        }
        k = k + 1;
    }
    if !validate_g1_point(opening) {
        return Err(Error::MalformedProof);
    }
    if !validate_g2_point(srs_g2) {
        return Err(Error::MalformedProof);
    }
    let mut coeff = Scalar::one();
    let mut agg_commitment = G1Point::identity();
    let mut agg_eval = Scalar::zero();
    let mut i: usize = 0;
    while i < commitments.len()
        invariant
            i <= commitments@.len(),
            commitments@.len() == claimed_evals@.len(),
            coeff == coefficient(*challenge, i as nat),
            agg_commitment == aggregated_commitment(commitments@, *challenge, i as nat),
            agg_eval == aggregated_eval(claimed_evals@, *challenge, i as nat),
        decreases commitments@.len() - i,
    {
        let scaled = g1_mul(&commitments[i], &coeff);
        agg_commitment = g1_add(&agg_commitment, &scaled);
        agg_eval = fr_add(agg_eval, fr_mul(coeff, claimed_evals[i]));
        coeff = fr_mul(coeff, *challenge);
        i = i + 1;
    }
    Ok(check_opening(&agg_commitment, eval_point, &agg_eval, opening, srs_g2))
}

} // verus!
