//! The PLONK verifier.
//!
//! Verification is one pass over one transcript. Key and public inputs are
//! absorbed, then the three wire commitments, which give `beta` and `gamma`;
//! the permutation commitment, which gives `alpha`; the three quotient
//! commitments, which give `zeta`; all evaluations, which give `v`; the two
//! opening proofs, which give `u`. No step is taken twice and none is taken
//! out of order, so that every challenge is bound to everything before it.
//!
//! With the challenges in hand the arithmetic constraint is evaluated at `zeta`,
//!
//! ```text
//! q_L a + q_R b + q_O c + q_M a b + q_C + PI(zeta) = 0,
//! ```
//!
//! and the evaluations are opened: those at `zeta` as one batch under `v`,
//! the shifted permutation evaluation at `zeta omega` on its own.

use crate::bytes::{append_be, append_bytes, be_bytes};
use crate::curve::{g1_valid, validate_g1_point, G1Point, G2Point};
use crate::field::{
    add_spec, fr_add, fr_inv, fr_mul, fr_pow, fr_reduce, fr_sub, inv_spec, mul_spec, pow_spec,
    reduce_spec, scalar_of, sub_spec, Scalar,
};
use crate::plonk::kzg::{
    batch_verdict, check_opening, coefficient, opening_holds, verify_kzg_batch_opening,
};
use crate::plonk::labels::Label;
use crate::plonk::srs::Srs;
use crate::plonk::transcript::{
    absorbed_framed, absorbed_message, after_challenge, challenge_spec, Transcript,
};
use crate::plonk::Error;
use crate::pow2::{is_pow2, is_power_of_two};
use vstd::prelude::*;

verus! {

/// A PLONK proof.
#[derive(Debug, Clone, Copy, PartialEq, Eq)]
pub struct PlonkProof {
    /// Commitments to the wires `a`, `b`, `c`.
    pub wire_commitments: [G1Point; 3],
    /// Commitment to the permutation polynomial `z`.
    pub permutation_commitment: G1Point,
    /// Commitments to the three parts of the quotient.
    pub quotient_commitments: [G1Point; 3],
    /// `a(zeta)`, `b(zeta)`, `c(zeta)`.
    pub wire_evals: [Scalar; 3],
    /// `z(zeta)`, `z(zeta omega)`.
    pub permutation_evals: [Scalar; 2],
    /// `q_L(zeta)`, `q_R(zeta)`, `q_O(zeta)`, `q_M(zeta)`, `q_C(zeta)`.
    pub selector_evals: [Scalar; 5],
    /// Opening proof for the evaluations at `zeta`.
    pub opening_proof_zeta: G1Point,
    /// Opening proof for `z(zeta omega)`.
    pub opening_proof_omega: G1Point,
}

/// A PLONK verification key.
#[derive(Debug, Clone, Copy, PartialEq, Eq)]
pub struct PlonkVerificationKey {
    /// Circuit size, a power of two.
    pub n: usize,
    /// Number of public inputs.
    pub num_public_inputs: usize,
    /// Commitments to the selectors `q_L`, `q_R`, `q_O`, `q_M`, `q_C`.
    pub selector_commitments: [G1Point; 5],
    /// Commitments to the three permutation polynomials.
    pub permutation_commitments: [G1Point; 3],
    /// Commitment to the first Lagrange polynomial.
    pub lagrange_first: G1Point,
    /// Commitment to the last Lagrange polynomial.
    pub lagrange_last: G1Point,
    /// Generator of the domain, an `n`-th root of unity.
    pub omega: Scalar,
    /// First coset constant of the copy constraints.
    pub k1: Scalar,
    /// Second coset constant of the copy constraints.
    pub k2: Scalar,
}

/// The challenges of one verification.
pub struct Challenges {
    pub beta: Scalar,
    pub gamma: Scalar,
    pub alpha: Scalar,
    pub zeta: Scalar,
    pub v: Scalar,
    pub u: Scalar,
}

/// Bytes of a serialized proof: nine points and ten scalars.
pub const PROOF_SIZE: usize = 896;

/// Bytes of a serialized key before the appended `tau G2`.
pub const VK_SIZE: usize = 752;

/// Whether all ten commitments of the key are valid group elements.
pub open spec fn commitments_valid(vk: PlonkVerificationKey) -> bool {
    &&& forall|i: int| 0 <= i < 5 ==> g1_valid(#[trigger] vk.selector_commitments@[i])
    &&& forall|i: int| 0 <= i < 3 ==> g1_valid(#[trigger] vk.permutation_commitments@[i])
    &&& g1_valid(vk.lagrange_first)
    &&& g1_valid(vk.lagrange_last)
}

/// What `validate` finds: the circuit size is a power of two, the
/// commitments are valid group elements, and `omega^n = 1`, tested in this
/// order.
pub open spec fn validation(vk: PlonkVerificationKey) -> Result<(), Error> {
    if !is_pow2(vk.n as nat) {
        Err(Error::InvalidCircuitSize)
    } else if !commitments_valid(vk) {
        Err(Error::InvalidG1Point)
    } else if pow_spec(vk.omega, scalar_of(vk.n as nat)) != scalar_of(1) {
        Err(Error::InvalidDomain)
    } else {
        Ok(())
    }
}

/// The key as the transcript absorbs it: circuit size and input count in
/// eight big-endian bytes each, the ten commitments, then `omega`, `k1`,
/// `k2`.
pub open spec fn vk_encoding(vk: PlonkVerificationKey) -> Seq<u8> {
    be_bytes(vk.n as nat, 8) + be_bytes(vk.num_public_inputs as nat, 8)
        + vk.selector_commitments@[0].encoding() + vk.selector_commitments@[1].encoding()
        + vk.selector_commitments@[2].encoding() + vk.selector_commitments@[3].encoding()
        + vk.selector_commitments@[4].encoding() + vk.permutation_commitments@[0].encoding()
        + vk.permutation_commitments@[1].encoding() + vk.permutation_commitments@[2].encoding()
        + vk.lagrange_first.encoding() + vk.lagrange_last.encoding() + vk.omega.bytes@
        + vk.k1.bytes@ + vk.k2.bytes@
}

/// The transcript after the first `n` public inputs.
pub open spec fn absorbed_inputs(state: Seq<u8>, inputs: Seq<Scalar>, n: nat) -> Seq<u8>
    decreases n,
{
    if n == 0 {
        state
    } else {
        absorbed_message(
            absorbed_inputs(state, inputs, (n - 1) as nat),
            Label::PublicInput.text(),
            inputs[n - 1].bytes@,
        )
    }
}

/// The transcript after a point was absorbed under a label.
pub open spec fn with_point(state: Seq<u8>, label: Label, point: G1Point) -> Seq<u8> {
    absorbed_message(state, label.text(), point.encoding())
}

/// The transcript after a scalar was absorbed under a label.
pub open spec fn with_scalar(state: Seq<u8>, label: Label, scalar: Scalar) -> Seq<u8> {
    absorbed_message(state, label.text(), scalar.bytes@)
}

/// The transcript before `beta`: protocol, key, public inputs, wire
/// commitments.
pub open spec fn state_before_beta(
    proof_: PlonkProof,
    vk: PlonkVerificationKey,
    inputs: Seq<Scalar>,
) -> Seq<u8> {
    let s = absorbed_framed(Label::Protocol.text(), Label::VerificationKey.text(), vk_encoding(vk));
    let s = absorbed_inputs(s, inputs, inputs.len());
    let s = with_point(s, Label::WireCommitment, proof_.wire_commitments@[0]);
    let s = with_point(s, Label::WireCommitment, proof_.wire_commitments@[1]);
    with_point(s, Label::WireCommitment, proof_.wire_commitments@[2])
}

/// The transcript before `alpha`: `beta` and `gamma` taken, the permutation
/// commitment absorbed.
pub open spec fn state_before_alpha(
    proof_: PlonkProof,
    vk: PlonkVerificationKey,
    inputs: Seq<Scalar>,
) -> Seq<u8> {
    let s = after_challenge(state_before_beta(proof_, vk, inputs), Label::Beta.text());
    let s = after_challenge(s, Label::Gamma.text());
    with_point(s, Label::PermutationCommitment, proof_.permutation_commitment)
}

/// The transcript before `zeta`: `alpha` taken, the quotient commitments
/// absorbed.
pub open spec fn state_before_zeta(
    proof_: PlonkProof,
    vk: PlonkVerificationKey,
    inputs: Seq<Scalar>,
) -> Seq<u8> {
    let s = after_challenge(state_before_alpha(proof_, vk, inputs), Label::Alpha.text());
    let s = with_point(s, Label::QuotientCommitment, proof_.quotient_commitments@[0]);
    let s = with_point(s, Label::QuotientCommitment, proof_.quotient_commitments@[1]);
    with_point(s, Label::QuotientCommitment, proof_.quotient_commitments@[2])
}

/// The transcript before `v`: `zeta` taken, all evaluations absorbed.
pub open spec fn state_before_v(
    proof_: PlonkProof,
    vk: PlonkVerificationKey,
    inputs: Seq<Scalar>,
) -> Seq<u8> {
    let s = after_challenge(state_before_zeta(proof_, vk, inputs), Label::Zeta.text());
    let s = with_scalar(s, Label::WireEval, proof_.wire_evals@[0]);
    let s = with_scalar(s, Label::WireEval, proof_.wire_evals@[1]);
    let s = with_scalar(s, Label::WireEval, proof_.wire_evals@[2]);
    let s = with_scalar(s, Label::PermutationEval, proof_.permutation_evals@[0]);
    let s = with_scalar(s, Label::PermutationEval, proof_.permutation_evals@[1]);
    let s = with_scalar(s, Label::SelectorEval, proof_.selector_evals@[0]);
    let s = with_scalar(s, Label::SelectorEval, proof_.selector_evals@[1]);
    let s = with_scalar(s, Label::SelectorEval, proof_.selector_evals@[2]);
    let s = with_scalar(s, Label::SelectorEval, proof_.selector_evals@[3]);
    with_scalar(s, Label::SelectorEval, proof_.selector_evals@[4])
}

/// The transcript before `u`: `v` taken, the opening proofs absorbed.
pub open spec fn state_before_u(
    proof_: PlonkProof,
    vk: PlonkVerificationKey,
    inputs: Seq<Scalar>,
) -> Seq<u8> {
    let s = after_challenge(state_before_v(proof_, vk, inputs), Label::V.text());
    let s = with_point(s, Label::OpeningProof, proof_.opening_proof_zeta);
    with_point(s, Label::OpeningProof, proof_.opening_proof_omega)
}

/// The challenges that proof, key and public inputs give.
pub open spec fn derive_challenges(
    proof_: PlonkProof,
    vk: PlonkVerificationKey,
    inputs: Seq<Scalar>,
) -> Challenges {
    let before_beta = state_before_beta(proof_, vk, inputs);
    Challenges {
        beta: challenge_spec(before_beta, Label::Beta.text()),
        gamma: challenge_spec(
            after_challenge(before_beta, Label::Beta.text()),
            Label::Gamma.text(),
        ),
        alpha: challenge_spec(state_before_alpha(proof_, vk, inputs), Label::Alpha.text()),
        zeta: challenge_spec(state_before_zeta(proof_, vk, inputs), Label::Zeta.text()),
        v: challenge_spec(state_before_v(proof_, vk, inputs), Label::V.text()),
        u: challenge_spec(state_before_u(proof_, vk, inputs), Label::U.text()),
    }
}

/// The vanishing polynomial of the domain at a point, `point^n - 1`.
pub open spec fn vanishing_spec(point: Scalar, n: usize) -> Scalar {
    sub_spec(pow_spec(point, scalar_of(n as nat)), scalar_of(1))
}

/// The public-input polynomial at a point, the first `k` inputs taken:
/// `-(x_0 L_0 + ... + x_(k-1) L_(k-1))` with
/// `L_i = Z_H omega^i / (n (point - omega^i))`. `None` where a denominator
/// is zero.
pub open spec fn public_input_partial(
    inputs: Seq<Scalar>,
    point: Scalar,
    omega: Scalar,
    n: usize,
    k: nat,
) -> Option<Scalar>
    decreases k,
{
    if k == 0 {
        Some(scalar_of(0))
    } else {
        match public_input_partial(inputs, point, omega, n, (k - 1) as nat) {
            None => None,
            Some(acc) => {
                let omega_i = coefficient(omega, (k - 1) as nat);
                let numerator = mul_spec(vanishing_spec(point, n), omega_i);
                let denominator = mul_spec(sub_spec(point, omega_i), scalar_of(n as nat));
                match inv_spec(denominator) {
                    None => None,
                    Some(inverse) => Some(
                        sub_spec(acc, mul_spec(inputs[k - 1], mul_spec(numerator, inverse))),
                    ),
                }
            },
        }
    }
}

/// The public-input polynomial at a point.
pub open spec fn public_input_eval_spec(
    inputs: Seq<Scalar>,
    point: Scalar,
    omega: Scalar,
    n: usize,
) -> Option<Scalar> {
    public_input_partial(inputs, point, omega, n, inputs.len())
}

/// The first Lagrange polynomial at a point, `Z_H / (n (point - 1))`; 1 at
/// the point 1, and 0 where the denominator is zero.
pub open spec fn lagrange_first_spec(point: Scalar, zh: Scalar, n: usize) -> Scalar {
    if reduce_spec(point) == scalar_of(1) {
        scalar_of(1)
    } else {
        match inv_spec(mul_spec(scalar_of(n as nat), sub_spec(point, scalar_of(1)))) {
            None => scalar_of(0),
            Some(inverse) => mul_spec(zh, inverse),
        }
    }
}

/// The left side of the arithmetic constraint,
/// `q_L a + q_R b + q_O c + q_M a b + q_C + PI`.
pub open spec fn gate_value(proof_: PlonkProof, pi_zeta: Scalar) -> Scalar {
    let a = proof_.wire_evals@[0];
    let b = proof_.wire_evals@[1];
    let c = proof_.wire_evals@[2];
    let ql = proof_.selector_evals@[0];
    let qr = proof_.selector_evals@[1];
    let qo = proof_.selector_evals@[2];
    let qm = proof_.selector_evals@[3];
    let qc = proof_.selector_evals@[4];
    add_spec(
        add_spec(
            add_spec(
                add_spec(add_spec(mul_spec(ql, a), mul_spec(qr, b)), mul_spec(qo, c)),
                mul_spec(mul_spec(qm, a), b),
            ),
            qc,
        ),
        pi_zeta,
    )
}

/// The commitments that are opened at `zeta`: wires, selectors, permutation.
pub open spec fn commitments_at_zeta(proof_: PlonkProof, vk: PlonkVerificationKey) -> Seq<G1Point> {
    seq![
        proof_.wire_commitments@[0],
        proof_.wire_commitments@[1],
        proof_.wire_commitments@[2],
        vk.selector_commitments@[0],
        vk.selector_commitments@[1],
        vk.selector_commitments@[2],
        vk.selector_commitments@[3],
        vk.selector_commitments@[4],
        proof_.permutation_commitment,
    ]
}

/// The claimed evaluations at `zeta`, in the order of the commitments.
pub open spec fn evals_at_zeta(proof_: PlonkProof) -> Seq<Scalar> {
    seq![
        proof_.wire_evals@[0],
        proof_.wire_evals@[1],
        proof_.wire_evals@[2],
        proof_.selector_evals@[0],
        proof_.selector_evals@[1],
        proof_.selector_evals@[2],
        proof_.selector_evals@[3],
        proof_.selector_evals@[4],
        proof_.permutation_evals@[0],
    ]
}

/// The verdict on the openings: the batch at `zeta` under `v`, then the
/// shifted permutation evaluation at `zeta omega`. A point that is no valid
/// group element fails with `MalformedProof`; an opening that does not hold
/// is `Ok(false)`.
pub open spec fn openings_verdict(
    proof_: PlonkProof,
    vk: PlonkVerificationKey,
    tau_g2: G2Point,
    zeta: Scalar,
    v: Scalar,
) -> Result<bool, Error> {
    match batch_verdict(
        commitments_at_zeta(proof_, vk),
        zeta,
        evals_at_zeta(proof_),
        proof_.opening_proof_zeta,
        tau_g2,
        v,
    ) {
        Err(e) => Err(e),
        Ok(batch_holds) => if !batch_holds {
            Ok(false)
        } else if !g1_valid(proof_.opening_proof_omega) {
            Err(Error::MalformedProof)
        } else {
            Ok(
                opening_holds(
                    proof_.permutation_commitment,
                    mul_spec(zeta, vk.omega),
                    proof_.permutation_evals@[1],
                    proof_.opening_proof_omega,
                    tau_g2,
                ),
            )
        },
    }
}

/// The verdict on a proof: the number of public inputs, the key, the
/// public-input polynomial, the arithmetic constraint, the openings, in this order.
/// A constraint value that is not zero is `Ok(false)`.
pub open spec fn plonk_verdict(
    proof_: PlonkProof,
    vk: PlonkVerificationKey,
    inputs: Seq<Scalar>,
    tau_g2: G2Point,
) -> Result<bool, Error> {
    if inputs.len() != vk.num_public_inputs {
        Err(Error::InvalidPublicInput)
    } else if validation(vk) is Err {
        Err(validation(vk)->Err_0)
    } else {
        let challenges = derive_challenges(proof_, vk, inputs);
        match public_input_eval_spec(inputs, challenges.zeta, vk.omega, vk.n) {
            None => Err(Error::InvalidDomain),
            Some(pi_zeta) => if gate_value(proof_, pi_zeta) != scalar_of(0) {
                Ok(false)
            } else {
                openings_verdict(proof_, vk, tau_g2, challenges.zeta, challenges.v)
            },
        }
    }
}

impl PlonkVerificationKey {
    /// Checks the key: the circuit size is a power of two, every commitment
    /// is a valid group element, and `omega` is an `n`-th root of unity.
    pub fn validate(&self) -> (result: Result<(), Error>)
        ensures
            result == validation(*self),
    {
        if !is_power_of_two(self.n) {
            return Err(Error::InvalidCircuitSize);
        }
        let mut i: usize = 0;
        while i < 5
            invariant
                i <= 5,
                is_pow2(self.n as nat),
                forall|k: int| 0 <= k < i ==> g1_valid(#[trigger] self.selector_commitments@[k]),
            decreases 5 - i,
        {
            if !validate_g1_point(&self.selector_commitments[i]) {
                assert(!g1_valid(self.selector_commitments@[i as int]));
                return Err(Error::InvalidG1Point);
            }
            i = i + 1;
        }
        let mut j: usize = 0;
        while j < 3
            invariant
                j <= 3,
                is_pow2(self.n as nat),
                forall|k: int| 0 <= k < 5 ==> g1_valid(#[trigger] self.selector_commitments@[k]),
                forall|k: int| 0 <= k < j ==> g1_valid(#[trigger] self.permutation_commitments@[k]),
            decreases 3 - j,
        {
            if !validate_g1_point(&self.permutation_commitments[j]) {
                assert(!g1_valid(self.permutation_commitments@[j as int]));
                return Err(Error::InvalidG1Point);
            }
            j = j + 1;
        }
        if !validate_g1_point(&self.lagrange_first) {
            return Err(Error::InvalidG1Point);
        }
        if !validate_g1_point(&self.lagrange_last) {
            return Err(Error::InvalidG1Point);
        }
        let omega_n = fr_pow(self.omega, Scalar::from_u64(self.n as u64));
        let one = Scalar::one();
        if !omega_n.equals(&one) {
            return Err(Error::InvalidDomain);
        }
        Ok(())
    }
}

/// The key as the transcript absorbs it.
pub fn encode_vk_for_transcript(vk: &PlonkVerificationKey) -> (bytes: Vec<u8>)
    ensures
        bytes@ == vk_encoding(*vk),
{
    let mut bytes: Vec<u8> = Vec::new();
    append_be(&mut bytes, vk.n as u128, 8);
    append_be(&mut bytes, vk.num_public_inputs as u128, 8);
    vk.selector_commitments[0].write(&mut bytes);
    vk.selector_commitments[1].write(&mut bytes);
    vk.selector_commitments[2].write(&mut bytes);
    vk.selector_commitments[3].write(&mut bytes);
    vk.selector_commitments[4].write(&mut bytes);
    vk.permutation_commitments[0].write(&mut bytes);
    vk.permutation_commitments[1].write(&mut bytes);
    vk.permutation_commitments[2].write(&mut bytes);
    vk.lagrange_first.write(&mut bytes);
    vk.lagrange_last.write(&mut bytes);
    append_bytes(&mut bytes, vk.omega.bytes.as_slice());
    append_bytes(&mut bytes, vk.k1.bytes.as_slice());
    append_bytes(&mut bytes, vk.k2.bytes.as_slice());
    assert(bytes@ =~= vk_encoding(*vk));
    bytes
}

/// The public-input polynomial at a point. Fails with `InvalidDomain` where
/// the point is in the domain, so that a denominator is zero.
pub fn compute_public_input_eval(public_inputs: &[Scalar], point: Scalar, omega: Scalar, n: usize) -> (result:
    Result<Scalar, Error>)
    ensures
        match result {
            Ok(value) => public_input_eval_spec(public_inputs@, point, omega, n) == Some(value),
            Err(e) => public_input_eval_spec(public_inputs@, point, omega, n).is_none() && e
                == Error::InvalidDomain,
        },
{
    let n_scalar = Scalar::from_u64(n as u64);
    let zh = fr_sub(fr_pow(point, n_scalar), Scalar::one());
    let mut result = Scalar::zero();
    let mut omega_i = Scalar::one();
    let mut i: usize = 0;
    while i < public_inputs.len()
        invariant
            i <= public_inputs@.len(),
            n_scalar == scalar_of(n as nat),
            zh == vanishing_spec(point, n),
            omega_i == coefficient(omega, i as nat),
            public_input_partial(public_inputs@, point, omega, n, i as nat) == Some(result),
        decreases public_inputs@.len() - i,
    {
        let numerator = fr_mul(zh, omega_i);
        let denominator = fr_mul(fr_sub(point, omega_i), n_scalar);
        let inverse = match fr_inv(denominator) {
            Ok(inverse) => inverse,
            Err(_) => {
                proof {
                    lemma_partial_none_stays(
                        public_inputs@,
                        point,
                        omega,
                        n,
                        (i + 1) as nat,
                        public_inputs@.len(),
                    );
                }
                return Err(Error::InvalidDomain);
            },
        };
        let lagrange_i = fr_mul(numerator, inverse);
        result = fr_sub(result, fr_mul(public_inputs[i], lagrange_i));
        omega_i = fr_mul(omega_i, omega);
        i = i + 1;
    }
    Ok(result)
}

/// Once a denominator is zero, the polynomial has no value however many
/// inputs follow.
pub proof fn lemma_partial_none_stays(
    inputs: Seq<Scalar>,
    point: Scalar,
    omega: Scalar,
    n: usize,
    k: nat,
    m: nat,
)
    requires
        k <= m,
        public_input_partial(inputs, point, omega, n, k).is_none(),
    ensures
        public_input_partial(inputs, point, omega, n, m).is_none(),
    decreases m,
{
    if k < m {
        lemma_partial_none_stays(inputs, point, omega, n, k, (m - 1) as nat);
    }
}

/// The first Lagrange polynomial at a point, given the vanishing polynomial
/// there.
pub fn compute_lagrange_first(point: Scalar, zh: Scalar, omega: Scalar, n: usize) -> (value: Scalar)
    ensures
        value == lagrange_first_spec(point, zh, n),
{
    let one = Scalar::one();
    if fr_reduce(point).equals(&one) {
        return one;
    }
    let denominator = fr_mul(Scalar::from_u64(n as u64), fr_sub(point, one));
    match fr_inv(denominator) {
        Ok(inverse) => fr_mul(zh, inverse),
        Err(_) => Scalar::zero(),
    }
}

/// The left side of the arithmetic constraint.
pub fn compute_gate_value(proof_: &PlonkProof, pi_zeta: Scalar) -> (value: Scalar)
    ensures
        value == gate_value(*proof_, pi_zeta),
{
    let a = proof_.wire_evals[0];
    let b = proof_.wire_evals[1];
    let c = proof_.wire_evals[2];
    let ql = proof_.selector_evals[0];
    let qr = proof_.selector_evals[1];
    let qo = proof_.selector_evals[2];
    let qm = proof_.selector_evals[3];
    let qc = proof_.selector_evals[4];
    let sum = fr_add(fr_mul(ql, a), fr_mul(qr, b));
    let sum = fr_add(sum, fr_mul(qo, c));
    let sum = fr_add(sum, fr_mul(fr_mul(qm, a), b));
    let sum = fr_add(sum, qc);
    fr_add(sum, pi_zeta)
}

/// Whether the arithmetic constraint holds at the evaluation point.
pub fn verify_gate_constraints(proof_: &PlonkProof, pi_zeta: Scalar) -> (holds: bool)
    ensures
        holds == (gate_value(*proof_, pi_zeta) == scalar_of(0)),
{
    let gate = compute_gate_value(proof_, pi_zeta);
    let zero = Scalar::zero();
    gate.equals(&zero)
}

/// Absorbs a point under a label.
fn absorb_labelled_point(transcript: &mut Transcript, label: Label, point: &G1Point)
    ensures
        final(transcript).absorbed() == with_point(old(transcript).absorbed(), label, *point),
{
    let text = label.bytes();
    transcript.absorb_point(text.as_slice(), point);
}

/// Absorbs a scalar under a label.
fn absorb_labelled_scalar(transcript: &mut Transcript, label: Label, scalar: &Scalar)
    ensures
        final(transcript).absorbed() == with_scalar(old(transcript).absorbed(), label, *scalar),
{
    let text = label.bytes();
    transcript.absorb_field(text.as_slice(), scalar);
}

/// Takes a challenge under a label.
fn squeeze_labelled(transcript: &mut Transcript, label: Label) -> (challenge: Scalar)
    ensures
        challenge == challenge_spec(old(transcript).absorbed(), label.text()),
        final(transcript).absorbed() == after_challenge(old(transcript).absorbed(), label.text()),
{
    let text = label.bytes();
    transcript.squeeze_challenge(text.as_slice())
}

/// Runs the transcript of one verification.
pub fn compute_challenges(proof_: &PlonkProof, vk: &PlonkVerificationKey, public_inputs: &[Scalar]) -> (challenges:
    Challenges)
    ensures
        challenges == derive_challenges(*proof_, *vk, public_inputs@),
{
    let protocol = Label::Protocol.bytes();
    let mut transcript = Transcript::new(protocol.as_slice());
    let vk_label = Label::VerificationKey.bytes();
    let vk_bytes = encode_vk_for_transcript(vk);
    transcript.absorb_bytes(vk_label.as_slice(), vk_bytes.as_slice());
    let ghost start = transcript.absorbed();
    let mut i: usize = 0;
    while i < public_inputs.len()
        invariant
            i <= public_inputs@.len(),
            transcript.absorbed() == absorbed_inputs(start, public_inputs@, i as nat),
        decreases public_inputs@.len() - i,
    {
        absorb_labelled_scalar(&mut transcript, Label::PublicInput, &public_inputs[i]);
        i = i + 1;
    }
    absorb_labelled_point(&mut transcript, Label::WireCommitment, &proof_.wire_commitments[0]);
    absorb_labelled_point(&mut transcript, Label::WireCommitment, &proof_.wire_commitments[1]);
    absorb_labelled_point(&mut transcript, Label::WireCommitment, &proof_.wire_commitments[2]);
    assert(transcript.absorbed() == state_before_beta(*proof_, *vk, public_inputs@));
    let beta = squeeze_labelled(&mut transcript, Label::Beta);
    let gamma = squeeze_labelled(&mut transcript, Label::Gamma);
    absorb_labelled_point(
        &mut transcript,
        Label::PermutationCommitment,
        &proof_.permutation_commitment,
    );
    assert(transcript.absorbed() == state_before_alpha(*proof_, *vk, public_inputs@));
    let alpha = squeeze_labelled(&mut transcript, Label::Alpha);
    absorb_labelled_point(
        &mut transcript,
        Label::QuotientCommitment,
        &proof_.quotient_commitments[0],
    );
    absorb_labelled_point(
        &mut transcript,
        Label::QuotientCommitment,
        &proof_.quotient_commitments[1],
    );
    absorb_labelled_point(
        &mut transcript,
        Label::QuotientCommitment,
        &proof_.quotient_commitments[2],
    );
    assert(transcript.absorbed() == state_before_zeta(*proof_, *vk, public_inputs@));
    let zeta = squeeze_labelled(&mut transcript, Label::Zeta);
    absorb_labelled_scalar(&mut transcript, Label::WireEval, &proof_.wire_evals[0]);
    absorb_labelled_scalar(&mut transcript, Label::WireEval, &proof_.wire_evals[1]);
    absorb_labelled_scalar(&mut transcript, Label::WireEval, &proof_.wire_evals[2]);
    absorb_labelled_scalar(&mut transcript, Label::PermutationEval, &proof_.permutation_evals[0]);
    absorb_labelled_scalar(&mut transcript, Label::PermutationEval, &proof_.permutation_evals[1]);
    absorb_labelled_scalar(&mut transcript, Label::SelectorEval, &proof_.selector_evals[0]);
    absorb_labelled_scalar(&mut transcript, Label::SelectorEval, &proof_.selector_evals[1]);
    absorb_labelled_scalar(&mut transcript, Label::SelectorEval, &proof_.selector_evals[2]);
    absorb_labelled_scalar(&mut transcript, Label::SelectorEval, &proof_.selector_evals[3]);
    absorb_labelled_scalar(&mut transcript, Label::SelectorEval, &proof_.selector_evals[4]);
    assert(transcript.absorbed() == state_before_v(*proof_, *vk, public_inputs@));
    let v = squeeze_labelled(&mut transcript, Label::V);
    absorb_labelled_point(&mut transcript, Label::OpeningProof, &proof_.opening_proof_zeta);
    absorb_labelled_point(&mut transcript, Label::OpeningProof, &proof_.opening_proof_omega);
    assert(transcript.absorbed() == state_before_u(*proof_, *vk, public_inputs@));
    let u = squeeze_labelled(&mut transcript, Label::U);
    Challenges { beta, gamma, alpha, zeta, v, u }
}

/// Checks the openings at `zeta` and at `zeta omega`.
pub fn verify_batch_openings(
    proof_: &PlonkProof,
    vk: &PlonkVerificationKey,
    tau_g2: &G2Point,
    zeta: Scalar,
    v: Scalar,
) -> (result: Result<bool, Error>)
    ensures
        result == openings_verdict(*proof_, *vk, *tau_g2, zeta, v),
{
    let commitments: [G1Point; 9] = [
        proof_.wire_commitments[0],
        proof_.wire_commitments[1],
        proof_.wire_commitments[2],
        vk.selector_commitments[0],
        vk.selector_commitments[1],
        vk.selector_commitments[2],
        vk.selector_commitments[3],
        vk.selector_commitments[4],
        proof_.permutation_commitment,
    ];
    let evals: [Scalar; 9] = [
        proof_.wire_evals[0],
        proof_.wire_evals[1],
        proof_.wire_evals[2],
        proof_.selector_evals[0],
        proof_.selector_evals[1],
        proof_.selector_evals[2],
        proof_.selector_evals[3],
        proof_.selector_evals[4],
        proof_.permutation_evals[0],
    ];
    assert(commitments@ =~= commitments_at_zeta(*proof_, *vk));
    assert(evals@ =~= evals_at_zeta(*proof_));
    let batch_holds = match verify_kzg_batch_opening(
        commitments.as_slice(),
        &zeta,
        evals.as_slice(),
        &proof_.opening_proof_zeta,
        tau_g2,
        &v,
    ) {
        Ok(holds) => holds,
        Err(e) => {
            return Err(e);
        },
    };
    if !batch_holds {
        return Ok(false);
    }
    if !validate_g1_point(&proof_.opening_proof_omega) {
        return Err(Error::MalformedProof);
    }
    let zeta_omega = fr_mul(zeta, vk.omega);
    Ok(
        check_opening(
            &proof_.permutation_commitment,
            &zeta_omega,
            &proof_.permutation_evals[1],
            &proof_.opening_proof_omega,
            tau_g2,
        ),
    )
}

/// Verifies a proof against a key, public inputs and the `tau G2` of the
/// reference string.
pub fn verify_plonk_host(
    proof_: &PlonkProof,
    vk: &PlonkVerificationKey,
    public_inputs: &[Scalar],
    tau_g2: &G2Point,
) -> (result: Result<bool, Error>)
    ensures
        result == plonk_verdict(*proof_, *vk, public_inputs@, *tau_g2),
{
    if public_inputs.len() != vk.num_public_inputs {
        return Err(Error::InvalidPublicInput);
    }
    match vk.validate() {
        Ok(_) => {},
        Err(e) => {
            return Err(e);
        },
    }
    let challenges = compute_challenges(proof_, vk, public_inputs);
    let pi_zeta = match compute_public_input_eval(public_inputs, challenges.zeta, vk.omega, vk.n) {
        Ok(value) => value,
        Err(e) => {
            return Err(e);
        },
    };
    if !verify_gate_constraints(proof_, pi_zeta) {
        return Ok(false);
    }
    verify_batch_openings(proof_, vk, tau_g2, challenges.zeta, challenges.v)
}

/// Verifies a proof against a key, public inputs and a reference string. A
/// reference string without `tau G2` fails with `InvalidSRS`.
pub fn verify_plonk_proof(
    proof_: &PlonkProof,
    vk: &PlonkVerificationKey,
    public_inputs: &[Scalar],
    srs: &Srs,
) -> (result: Result<bool, Error>)
    ensures
        result == if srs.g2_powers@.len() < 2 {
            Err::<bool, Error>(Error::InvalidSRS)
        } else {
            plonk_verdict(*proof_, *vk, public_inputs@, srs.g2_powers@[1])
        },
{
    if srs.g2_powers.len() < 2 {
        return Err(Error::InvalidSRS);
    }
    verify_plonk_host(proof_, vk, public_inputs, srs.tau_g2())
}

/// A key for a circuit whose size is no power of two is refused with
/// `InvalidCircuitSize`, whatever else is wrong with it; and so is every
/// proof that comes with as many public inputs as the key names, before
/// anything is absorbed into a transcript. Seven is such a size.
pub proof fn lemma_circuit_size_is_checked_first(
    proof_: PlonkProof,
    vk: PlonkVerificationKey,
    inputs: Seq<Scalar>,
    tau_g2: G2Point,
)
    requires
        !is_pow2(vk.n as nat),
    ensures
        validation(vk) == Err::<(), Error>(Error::InvalidCircuitSize),
        inputs.len() == vk.num_public_inputs ==> plonk_verdict(proof_, vk, inputs, tau_g2) == Err::<
            bool,
            Error,
        >(Error::InvalidCircuitSize),
        !is_pow2(7),
{
    assert(!is_pow2(7)) by {
        reveal_with_fuel(is_pow2, 2);
    }
}

} // verus!
