//! Groth16 over BN254.
//!
//! A proof `(A, B, C)` for public inputs `x_1, ..., x_n` is accepted under
//! a key `(alpha, beta, gamma, delta, IC_0, ..., IC_n)` if and only if
//!
//! ```text
//! e(A, B) * e(-alpha, beta) * e(-L, gamma) * e(-C, delta) = 1,
//! L = IC_0 + x_1 * IC_1 + ... + x_n * IC_n.
//! ```
//!
//! Malformed input never reaches the equation: it is turned away with an
//! error. A proof that is well formed and fails the equation is `Ok(false)`.

use crate::bytes::{be_value, lemma_array32_zeros, zeros};
use crate::curve::{
    g1_curve_equation,
    g1_add, g1_mul, g1_neg, g1_valid, g2_valid, pairing_check, pairing_product_is_one,
    pairing_value, pairing_value_spec, spec_g1_add, spec_g1_mul, spec_g1_neg, validate_g1_point,
    validate_g2_point, G1Point, G2Point,
};
use crate::field::{scalar_modulus, Scalar};
use crate::verifier_traits::{
    CryptoAssumption, GasCost, RecursionSupport, SecurityModel, SetupType, VerifyResult,
    ZkVerifier,
};
use vstd::prelude::*;

verus! {

/// Why a Groth16 verification gave no verdict.
#[derive(Debug, Clone, Copy, PartialEq, Eq, Structural)]
pub enum Error {
    /// The proof is not 256 bytes long.
    DeserializationError,
    /// A point of the proof is not a valid group element.
    MalformedProof,
    /// The key has no valid layout, or a point of it is not a valid group
    /// element.
    InvalidVerificationKey,
    /// The public inputs are no list of field elements, or not as many as
    /// the key takes.
    InvalidPublicInputs,
    /// Verification failed.
    VerificationFailed,
    /// An input is larger than allowed.
    InvalidInputSize,
}

/// Most public inputs of one proof.
pub const MAX_PUBLIC_INPUTS: usize = 256;

/// Most bytes of a serialized proof that are looked at.
pub const MAX_PROOF_SIZE: usize = 512;

/// Most bytes of a serialized key.
pub const MAX_VK_SIZE: usize = 4096;

/// Bytes of a serialized proof, `A (64) ‖ B (128) ‖ C (64)`.
pub const PROOF_SIZE: usize = 256;

/// Bytes of a serialized pairing value.
pub const PAIRING_VALUE_SIZE: usize = 384;

/// A proof.
#[derive(Debug, Clone, Copy, PartialEq, Eq)]
pub struct Proof {
    pub a: G1Point,
    pub b: G2Point,
    pub c: G1Point,
}

/// A verification key.
#[derive(Debug, Clone, PartialEq, Eq)]
pub struct VerifyingKey {
    pub alpha_g1: G1Point,
    pub beta_g2: G2Point,
    pub gamma_g2: G2Point,
    pub delta_g2: G2Point,
    /// `IC_0, ..., IC_n`, one more than the circuit has public inputs.
    pub gamma_abc_g1: Vec<G1Point>,
}

/// A `VerifyingKey` as plain values.
pub struct VerifyingKeyView {
    pub alpha_g1: G1Point,
    pub beta_g2: G2Point,
    pub gamma_g2: G2Point,
    pub delta_g2: G2Point,
    pub gamma_abc_g1: Seq<G1Point>,
}

impl View for VerifyingKey {
    type V = VerifyingKeyView;

    open spec fn view(&self) -> VerifyingKeyView {
        VerifyingKeyView {
            alpha_g1: self.alpha_g1,
            beta_g2: self.beta_g2,
            gamma_g2: self.gamma_g2,
            delta_g2: self.delta_g2,
            gamma_abc_g1: self.gamma_abc_g1@,
        }
    }
}

/// Whether a byte string has the layout of a key:
/// `alpha (64) ‖ beta (128) ‖ gamma (128) ‖ delta (128) ‖ IC (64 each)`, with
/// one `IC` at least, `448 + 64 (n + 1)` bytes for `n` public inputs.
pub open spec fn vk_layout_ok(bytes: Seq<u8>) -> bool {
    bytes.len() >= 512 && (bytes.len() - 448) % 64 == 0
}

/// The key that a byte string of that layout holds.
pub open spec fn parse_vk_spec(bytes: Seq<u8>) -> VerifyingKeyView {
    VerifyingKeyView {
        alpha_g1: G1Point::read_spec(bytes, 0),
        beta_g2: G2Point::read_spec(bytes, 64),
        gamma_g2: G2Point::read_spec(bytes, 192),
        delta_g2: G2Point::read_spec(bytes, 320),
        gamma_abc_g1: Seq::new(
            ((bytes.len() - 448) / 64) as nat,
            |i: int| G1Point::read_spec(bytes, 448 + 64 * i),
        ),
    }
}

/// The proof that 256 bytes hold.
pub open spec fn parse_proof_spec(bytes: Seq<u8>) -> Proof {
    Proof {
        a: G1Point::read_spec(bytes, 0),
        b: G2Point::read_spec(bytes, 64),
        c: G1Point::read_spec(bytes, 192),
    }
}

/// Whether every point of the key is a valid group element.
pub open spec fn vk_valid(vk: VerifyingKeyView) -> bool {
    &&& g1_valid(vk.alpha_g1)
    &&& g2_valid(vk.beta_g2)
    &&& g2_valid(vk.gamma_g2)
    &&& g2_valid(vk.delta_g2)
    &&& forall|i: int| 0 <= i < vk.gamma_abc_g1.len() ==> g1_valid(#[trigger] vk.gamma_abc_g1[i])
}

/// Whether every point of the proof is a valid group element.
pub open spec fn proof_valid(proof_points: Proof) -> bool {
    &&& g1_valid(proof_points.a)
    &&& g2_valid(proof_points.b)
    &&& g1_valid(proof_points.c)
}

/// The `i`-th of the public inputs, 32 big-endian bytes each.
pub open spec fn input_at(bytes: Seq<u8>, i: int) -> Scalar {
    Scalar::read_spec(bytes, 32 * i)
}

/// The public inputs that a byte string holds: a whole number of 32-byte
/// big-endian field elements, 256 at most, each below the field order.
pub open spec fn public_inputs_spec(bytes: Seq<u8>) -> Result<Seq<Scalar>, Error> {
    if bytes.len() % 32 != 0 {
        Err(Error::InvalidPublicInputs)
    } else if bytes.len() / 32 > 256 {
        Err(Error::InvalidInputSize)
    } else if exists|i: int|
        0 <= i < bytes.len() / 32 && #[trigger] input_at(bytes, i).value() >= scalar_modulus() {
        Err(Error::InvalidPublicInputs)
    } else {
        Ok(Seq::new(bytes.len() / 32, |i: int| input_at(bytes, i)))
    }
}

/// `IC_0 + x_1 * IC_1 + ... + x_n * IC_n`, the first `n` inputs taken.
pub open spec fn linear_combination(ic: Seq<G1Point>, inputs: Seq<Scalar>, n: nat) -> G1Point
    decreases n,
{
    if n == 0 {
        ic[0]
    } else {
        spec_g1_add(
            linear_combination(ic, inputs, (n - 1) as nat),
            spec_g1_mul(ic[n as int], inputs[n - 1]),
        )
    }
}

/// The Groth16 equation, as one product of four pairings.
pub open spec fn accepts(vk: VerifyingKeyView, proof_points: Proof, inputs: Seq<Scalar>) -> bool {
    let l = linear_combination(vk.gamma_abc_g1, inputs, inputs.len());
    pairing_product_is_one(
        seq![proof_points.a, spec_g1_neg(vk.alpha_g1), spec_g1_neg(l), spec_g1_neg(proof_points.c)],
        seq![proof_points.b, vk.beta_g2, vk.gamma_g2, vk.delta_g2],
    )
}

/// The serialized pairing `e(alpha, beta)` of a key, where it has one.
pub open spec fn alpha_beta_spec(vk: VerifyingKeyView) -> Option<Seq<u8>> {
    pairing_value_spec(seq![vk.alpha_g1], seq![vk.beta_g2])
}

/// The Groth16 equation with `e(alpha, beta)` given: the product of the
/// other three pairings, with `A` and `B` first, has to be that value.
pub open spec fn accepts_precomputed(
    vk: VerifyingKeyView,
    proof_points: Proof,
    inputs: Seq<Scalar>,
    alpha_beta: Seq<u8>,
) -> bool {
    let l = linear_combination(vk.gamma_abc_g1, inputs, inputs.len());
    pairing_value_spec(
        seq![proof_points.a, spec_g1_neg(l), spec_g1_neg(proof_points.c)],
        seq![proof_points.b, vk.gamma_g2, vk.delta_g2],
    ) == Some(alpha_beta)
}

/// What stands between the inputs and the equation. The checks run in this
/// order, and the first that fails gives the error: sizes of proof and key,
/// layout and points of the key, length and points of the proof, the public
/// inputs, their number.
pub open spec fn admission(proof_bytes: Seq<u8>, public_inputs: Seq<u8>, vk_bytes: Seq<u8>) -> Result<
    (),
    Error,
> {
    if proof_bytes.len() > 512 || vk_bytes.len() > 4096 {
        Err(Error::InvalidInputSize)
    } else if !vk_layout_ok(vk_bytes) || !vk_valid(parse_vk_spec(vk_bytes)) {
        Err(Error::InvalidVerificationKey)
    } else if proof_bytes.len() != 256 {
        Err(Error::DeserializationError)
    } else if !proof_valid(parse_proof_spec(proof_bytes)) {
        Err(Error::MalformedProof)
    } else {
        match public_inputs_spec(public_inputs) {
            Err(e) => Err(e),
            Ok(inputs) => if inputs.len() + 1 != parse_vk_spec(vk_bytes).gamma_abc_g1.len() {
                Err(Error::InvalidPublicInputs)
            } else {
                Ok(())
            },
        }
    }
}

/// The verdict of `verify`.
pub open spec fn verdict(proof_bytes: Seq<u8>, public_inputs: Seq<u8>, vk_bytes: Seq<u8>) -> Result<
    bool,
    Error,
> {
    match admission(proof_bytes, public_inputs, vk_bytes) {
        Err(e) => Err(e),
        Ok(_) => Ok(
            accepts(
                parse_vk_spec(vk_bytes),
                parse_proof_spec(proof_bytes),
                public_inputs_spec(public_inputs)->Ok_0,
            ),
        ),
    }
}

/// The verdict of `verify_with_precomputed`: admission as for `verify`, then
/// the stored pairing, which has to be 384 bytes long, else the key counts as
/// invalid.
pub open spec fn verdict_precomputed(
    proof_bytes: Seq<u8>,
    public_inputs: Seq<u8>,
    vk_bytes: Seq<u8>,
    alpha_beta: Seq<u8>,
) -> Result<bool, Error> {
    match admission(proof_bytes, public_inputs, vk_bytes) {
        Err(e) => Err(e),
        Ok(_) => if alpha_beta.len() != 384 {
            Err(Error::InvalidVerificationKey)
        } else {
            Ok(
                accepts_precomputed(
                    parse_vk_spec(vk_bytes),
                    parse_proof_spec(proof_bytes),
                    public_inputs_spec(public_inputs)->Ok_0,
                    alpha_beta,
                ),
            )
        },
    }
}

/// Reads a key.
pub fn parse_vk(bytes: &[u8]) -> (result: Result<VerifyingKey, Error>)
    ensures
        match result {
            Ok(vk) => vk_layout_ok(bytes@) && vk@ == parse_vk_spec(bytes@),
            Err(e) => !vk_layout_ok(bytes@) && e == Error::InvalidVerificationKey,
        },
{
    let total: usize = bytes.len();
    if total < 512 || (total - 448) % 64 != 0 {
        return Err(Error::InvalidVerificationKey);
    }
    let alpha_g1 = G1Point::read(bytes, 0);
    let beta_g2 = G2Point::read(bytes, 64);
    let gamma_g2 = G2Point::read(bytes, 192);
    let delta_g2 = G2Point::read(bytes, 320);
    let count: usize = (total - 448) / 64;
    let mut gamma_abc_g1: Vec<G1Point> = Vec::new();
    let mut i: usize = 0;
    while i < count
        invariant
            i <= count,
            448 + 64 * count == total == bytes@.len(),
            gamma_abc_g1@.len() == i,
            forall|k: int|
                0 <= k < i ==> #[trigger] gamma_abc_g1@[k] == G1Point::read_spec(
                    bytes@,
                    448 + 64 * k,
                ),
        decreases count - i,
    {
        gamma_abc_g1.push(G1Point::read(bytes, 448 + 64 * i));
        i = i + 1;
    }
    let vk = VerifyingKey { alpha_g1, beta_g2, gamma_g2, delta_g2, gamma_abc_g1 };
    assert(vk@.gamma_abc_g1 =~= parse_vk_spec(bytes@).gamma_abc_g1);
    Ok(vk)
}

/// Reads a proof.
pub fn parse_proof(bytes: &[u8]) -> (result: Result<Proof, Error>)
    ensures
        match result {
            Ok(p) => bytes@.len() == 256 && p == parse_proof_spec(bytes@),
            Err(e) => bytes@.len() != 256 && e == Error::DeserializationError,
        },
{
    if bytes.len() != 256 {
        return Err(Error::DeserializationError);
    }
    Ok(Proof { a: G1Point::read(bytes, 0), b: G2Point::read(bytes, 64), c: G1Point::read(bytes, 192) })
}

/// Checks that every point of the key is a valid group element.
pub fn validate_vk(vk: &VerifyingKey) -> (result: Result<(), Error>)
    ensures
        match result {
            Ok(_) => vk_valid(vk@),
            Err(e) => !vk_valid(vk@) && e == Error::InvalidVerificationKey,
        },
{
    if !validate_g1_point(&vk.alpha_g1) {
        return Err(Error::InvalidVerificationKey);
    }
    if !validate_g2_point(&vk.beta_g2) {
        return Err(Error::InvalidVerificationKey);
    }
    if !validate_g2_point(&vk.gamma_g2) {
        return Err(Error::InvalidVerificationKey);
    }
    if !validate_g2_point(&vk.delta_g2) {
        return Err(Error::InvalidVerificationKey);
    }
    let mut i: usize = 0;
    while i < vk.gamma_abc_g1.len()
        invariant
            i <= vk.gamma_abc_g1@.len(),
            forall|k: int| 0 <= k < i ==> g1_valid(#[trigger] vk.gamma_abc_g1@[k]),
        decreases vk.gamma_abc_g1@.len() - i,
    {
        if !validate_g1_point(&vk.gamma_abc_g1[i]) {
            assert(!g1_valid(vk@.gamma_abc_g1[i as int]));
            return Err(Error::InvalidVerificationKey);
        }
        i = i + 1;
    }
    Ok(())
}

/// Checks that every point of the proof is a valid group element.
pub fn validate_proof(proof_points: &Proof) -> (result: Result<(), Error>)
    ensures
        match result {
            Ok(_) => proof_valid(*proof_points),
            Err(e) => !proof_valid(*proof_points) && e == Error::MalformedProof,
        },
{
    if !validate_g1_point(&proof_points.a) {
        return Err(Error::MalformedProof);
    }
    if !validate_g2_point(&proof_points.b) {
        return Err(Error::MalformedProof);
    }
    if !validate_g1_point(&proof_points.c) {
        return Err(Error::MalformedProof);
    }
    Ok(())
}

/// Reads the public inputs.
pub fn deserialize_public_inputs(bytes: &[u8]) -> (result: Result<Vec<Scalar>, Error>)
    ensures
        match result {
            Ok(inputs) => public_inputs_spec(bytes@) == Ok::<Seq<Scalar>, Error>(inputs@),
            Err(e) => public_inputs_spec(bytes@) == Err::<Seq<Scalar>, Error>(e),
        },
{
    let total: usize = bytes.len();
    if total % 32 != 0 {
        return Err(Error::InvalidPublicInputs);
    }
    let count: usize = total / 32;
    if count > MAX_PUBLIC_INPUTS {
        return Err(Error::InvalidInputSize);
    }
    let mut inputs: Vec<Scalar> = Vec::new();
    let mut i: usize = 0;
    while i < count
        invariant
            i <= count,
            count <= 256,
            32 * count == total == bytes@.len(),
            inputs@.len() == i,
            forall|k: int| 0 <= k < i ==> #[trigger] inputs@[k] == input_at(bytes@, k),
            forall|k: int| 0 <= k < i ==> #[trigger] input_at(bytes@, k).value() < scalar_modulus(),
        decreases count - i,
    {
        let input = Scalar::read(bytes, 32 * i);
        if !input.is_canonical() {
            assert(input_at(bytes@, i as int).value() >= scalar_modulus());
            return Err(Error::InvalidPublicInputs);
        }
        inputs.push(input);
        i = i + 1;
    }
    assert(inputs@ =~= Seq::new(bytes@.len() / 32, |i: int| input_at(bytes@, i)));
    Ok(inputs)
}

/// `IC_0 + x_1 * IC_1 + ... + x_n * IC_n`.
fn combine_inputs(ic: &Vec<G1Point>, inputs: &[Scalar]) -> (l: G1Point)
    requires
        inputs@.len() + 1 == ic@.len(),
    ensures
        l == linear_combination(ic@, inputs@, inputs@.len()),
{
    let mut l: G1Point = ic[0];
    let mut i: usize = 0;
    while i < inputs.len()
        invariant
            i <= inputs@.len(),
            inputs@.len() + 1 == ic@.len(),
            l == linear_combination(ic@, inputs@, i as nat),
        decreases inputs@.len() - i,
    {
        let term = g1_mul(&ic[i + 1], &inputs[i]);
        l = g1_add(&l, &term);
        i = i + 1;
    }
    l
}

/// Evaluates the Groth16 equation. The key takes as many public inputs as
/// are given.
pub fn verify_proof_internal(vk: &VerifyingKey, proof_points: &Proof, public_inputs: &[Scalar]) -> (result:
    Result<bool, Error>)
    requires
        public_inputs@.len() + 1 == vk.gamma_abc_g1@.len(),
    ensures
        result == Ok::<bool, Error>(accepts(vk@, *proof_points, public_inputs@)),
{
    let l = combine_inputs(&vk.gamma_abc_g1, public_inputs);
    let g1s: [G1Point; 4] = [
        proof_points.a,
        g1_neg(&vk.alpha_g1),
        g1_neg(&l),
        g1_neg(&proof_points.c),
    ];
    let g2s: [G2Point; 4] = [proof_points.b, vk.beta_g2, vk.gamma_g2, vk.delta_g2];
    assert(g1s@ =~= seq![
        proof_points.a,
        spec_g1_neg(vk.alpha_g1),
        spec_g1_neg(l),
        spec_g1_neg(proof_points.c),
    ]);
    assert(g2s@ =~= seq![proof_points.b, vk.beta_g2, vk.gamma_g2, vk.delta_g2]);
    Ok(pairing_check(g1s.as_slice(), g2s.as_slice()))
}

/// Evaluates the Groth16 equation against a stored `e(alpha, beta)`. The key
/// takes as many public inputs as are given.
pub fn verify_proof_with_precomputed(
    vk: &VerifyingKey,
    proof_points: &Proof,
    public_inputs: &[Scalar],
    precomputed_alpha_beta: &[u8],
) -> (result: Result<bool, Error>)
    requires
        public_inputs@.len() + 1 == vk.gamma_abc_g1@.len(),
    ensures
        result == Ok::<bool, Error>(
            accepts_precomputed(vk@, *proof_points, public_inputs@, precomputed_alpha_beta@),
        ),
{
    let l = combine_inputs(&vk.gamma_abc_g1, public_inputs);
    let g1s: [G1Point; 3] = [proof_points.a, g1_neg(&l), g1_neg(&proof_points.c)];
    let g2s: [G2Point; 3] = [proof_points.b, vk.gamma_g2, vk.delta_g2];
    assert(g1s@ =~= seq![proof_points.a, spec_g1_neg(l), spec_g1_neg(proof_points.c)]);
    assert(g2s@ =~= seq![proof_points.b, vk.gamma_g2, vk.delta_g2]);
    match pairing_value(g1s.as_slice(), g2s.as_slice()) {
        Some(left_side) => Ok(bytes_equal(left_side.as_slice(), precomputed_alpha_beta)),
        None => Ok(false),
    }
}

/// Whether two byte strings are the same.
pub fn bytes_equal(a: &[u8], b: &[u8]) -> (same: bool)
    ensures
        same == (a@ == b@),
{
    if a.len() != b.len() {
        return false;
    }
    let mut i: usize = 0;
    while i < a.len()
        invariant
            i <= a@.len(),
            a@.len() == b@.len(),
            forall|k: int| 0 <= k < i ==> a@[k] == b@[k],
        decreases a@.len() - i,
    {
        if a[i] != b[i] {
            return false;
        }
        i = i + 1;
    }
    assert(a@ =~= b@);
    true
}

/// Everything of `verify` before the equation.
fn check_inputs(proof_bytes: &[u8], public_inputs_bytes: &[u8], vk_bytes: &[u8]) -> (result: Result<
    (VerifyingKey, Proof, Vec<Scalar>),
    Error,
>)
    ensures
        match result {
            Ok((vk, proof_points, inputs)) => {
                &&& admission(proof_bytes@, public_inputs_bytes@, vk_bytes@) is Ok
                &&& vk@ == parse_vk_spec(vk_bytes@)
                &&& proof_points == parse_proof_spec(proof_bytes@)
                &&& public_inputs_spec(public_inputs_bytes@) == Ok::<Seq<Scalar>, Error>(inputs@)
                &&& inputs@.len() + 1 == vk.gamma_abc_g1@.len()
            },
            Err(e) => admission(proof_bytes@, public_inputs_bytes@, vk_bytes@) == Err::<(), Error>(e),
        },
{
    if proof_bytes.len() > MAX_PROOF_SIZE {
        return Err(Error::InvalidInputSize);
    }
    if vk_bytes.len() > MAX_VK_SIZE {
        return Err(Error::InvalidInputSize);
    }
    let vk = match parse_vk(vk_bytes) {
        Ok(vk) => vk,
        Err(e) => {
            return Err(e);
        },
    };
    match validate_vk(&vk) {
        Ok(_) => {},
        Err(e) => {
            return Err(e);
        },
    }
    let proof_points = match parse_proof(proof_bytes) {
        Ok(p) => p,
        Err(e) => {
            return Err(e);
        },
    };
    match validate_proof(&proof_points) {
        Ok(_) => {},
        Err(e) => {
            return Err(e);
        },
    }
    let inputs = match deserialize_public_inputs(public_inputs_bytes) {
        Ok(inputs) => inputs,
        Err(e) => {
            return Err(e);
        },
    };
    if inputs.len() + 1 != vk.gamma_abc_g1.len() {
        return Err(Error::InvalidPublicInputs);
    }
    Ok((vk, proof_points, inputs))
}

/// Verifies a proof.
///
/// `proof_bytes` is `A (64) ‖ B (128) ‖ C (64)`, `vk_bytes` is
/// `alpha (64) ‖ beta (128) ‖ gamma (128) ‖ delta (128) ‖ IC (64 each)`,
/// `public_inputs_bytes` is 32 bytes for each input; every coordinate and
/// every input is big-endian.
pub fn verify(proof_bytes: &[u8], public_inputs_bytes: &[u8], vk_bytes: &[u8]) -> (result: Result<
    bool,
    Error,
>)
    ensures
        result == verdict(proof_bytes@, public_inputs_bytes@, vk_bytes@),
{
    match check_inputs(proof_bytes, public_inputs_bytes, vk_bytes) {
        Err(e) => Err(e),
        Ok((vk, proof_points, inputs)) => verify_proof_internal(
            &vk,
            &proof_points,
            inputs.as_slice(),
        ),
    }
}

/// Verifies a proof against a key whose pairing `e(alpha, beta)` was
/// computed before.
pub fn verify_with_precomputed(
    proof_bytes: &[u8],
    public_inputs_bytes: &[u8],
    vk_bytes: &[u8],
    precomputed_alpha_beta_bytes: &[u8],
) -> (result: Result<bool, Error>)
    ensures
        result == verdict_precomputed(
            proof_bytes@,
            public_inputs_bytes@,
            vk_bytes@,
            precomputed_alpha_beta_bytes@,
        ),
{
    match check_inputs(proof_bytes, public_inputs_bytes, vk_bytes) {
        Err(e) => Err(e),
        Ok((vk, proof_points, inputs)) => {
            if precomputed_alpha_beta_bytes.len() != PAIRING_VALUE_SIZE {
                return Err(Error::InvalidVerificationKey);
            }
            verify_proof_with_precomputed(
                &vk,
                &proof_points,
                inputs.as_slice(),
                precomputed_alpha_beta_bytes,
            )
        },
    }
}

/// The serialized pairing `e(alpha, beta)` of a key, to be stored with the
/// key. Fails with `InvalidVerificationKey` where the key has no valid
/// layout, holds an invalid point, or its pairing has no value.
pub fn compute_precomputed_pairing(vk_bytes: &[u8]) -> (result: Result<Vec<u8>, Error>)
    ensures
        match result {
            Ok(bytes) => {
                &&& vk_layout_ok(vk_bytes@)
                &&& vk_valid(parse_vk_spec(vk_bytes@))
                &&& alpha_beta_spec(parse_vk_spec(vk_bytes@)) == Some(bytes@)
            },
            Err(e) => {
                &&& e == Error::InvalidVerificationKey
                &&& (!vk_layout_ok(vk_bytes@) || !vk_valid(parse_vk_spec(vk_bytes@))
                    || alpha_beta_spec(parse_vk_spec(vk_bytes@)).is_none())
            },
        },
{
    let vk = match parse_vk(vk_bytes) {
        Ok(vk) => vk,
        Err(e) => {
            return Err(e);
        },
    };
    match validate_vk(&vk) {
        Ok(_) => {},
        Err(e) => {
            return Err(e);
        },
    }
    let g1s: [G1Point; 1] = [vk.alpha_g1];
    let g2s: [G2Point; 1] = [vk.beta_g2];
    assert(g1s@ =~= seq![vk.alpha_g1]);
    assert(g2s@ =~= seq![vk.beta_g2]);
    match pairing_value(g1s.as_slice(), g2s.as_slice()) {
        Some(bytes) => Ok(bytes),
        None => Err(Error::InvalidVerificationKey),
    }
}

/// What a batch needs before its first proof: lists of one length, a key of
/// allowed size, valid layout and valid points, and a stored pairing that is
/// empty or 384 bytes long.
pub open spec fn batch_admission(
    proofs: Seq<Vec<u8>>,
    public_inputs: Seq<Vec<u8>>,
    vk_bytes: Seq<u8>,
    precomputed: Seq<u8>,
) -> Result<(), Error> {
    if proofs.len() != public_inputs.len() {
        Err(Error::InvalidInputSize)
    } else if proofs.len() == 0 {
        Ok(())
    } else if vk_bytes.len() > 4096 {
        Err(Error::InvalidInputSize)
    } else if !vk_layout_ok(vk_bytes) || !vk_valid(parse_vk_spec(vk_bytes)) {
        Err(Error::InvalidVerificationKey)
    } else if precomputed.len() != 0 && precomputed.len() != 384 {
        Err(Error::InvalidVerificationKey)
    } else {
        Ok(())
    }
}

/// The verdict on one proof of a batch: whether `verify`, or
/// `verify_with_precomputed` where a stored pairing is given, accepts it. A
/// proof that is turned away with an error counts as not valid.
pub open spec fn batch_verdict(
    proof_bytes: Seq<u8>,
    public_inputs: Seq<u8>,
    vk_bytes: Seq<u8>,
    precomputed: Seq<u8>,
) -> bool {
    if precomputed.len() == 0 {
        verdict(proof_bytes, public_inputs, vk_bytes) == Ok::<bool, Error>(true)
    } else {
        verdict_precomputed(proof_bytes, public_inputs, vk_bytes, precomputed) == Ok::<bool, Error>(
            true,
        )
    }
}

/// Verifies proofs against one key, which is read once.
///
/// The verdict on each proof is the verdict that single verification gives
/// on it: sharing the key changes no result.
pub fn batch_verify(
    proofs: &[Vec<u8>],
    public_inputs: &[Vec<u8>],
    vk_bytes: &[u8],
    precomputed_pairing_bytes: &[u8],
) -> (result: Result<Vec<bool>, Error>)
    ensures
        match result {
            Ok(results) => {
                &&& batch_admission(proofs@, public_inputs@, vk_bytes@, precomputed_pairing_bytes@)
                    is Ok
                &&& results@.len() == proofs@.len()
                &&& forall|i: int|
                    0 <= i < results@.len() ==> #[trigger] results@[i] == batch_verdict(
                        proofs@[i]@,
                        public_inputs@[i]@,
                        vk_bytes@,
                        precomputed_pairing_bytes@,
                    )
            },
            Err(e) => batch_admission(proofs@, public_inputs@, vk_bytes@, precomputed_pairing_bytes@)
                == Err::<(), Error>(e),
        },
{
    if proofs.len() != public_inputs.len() {
        return Err(Error::InvalidInputSize);
    }
    if proofs.len() == 0 {
        return Ok(Vec::new());
    }
    if vk_bytes.len() > MAX_VK_SIZE {
        return Err(Error::InvalidInputSize);
    }
    let vk = match parse_vk(vk_bytes) {
        Ok(vk) => vk,
        Err(e) => {
            return Err(e);
        },
    };
    match validate_vk(&vk) {
        Ok(_) => {},
        Err(e) => {
            return Err(e);
        },
    }
    let with_precomputed: bool = precomputed_pairing_bytes.len() != 0;
    if with_precomputed && precomputed_pairing_bytes.len() != PAIRING_VALUE_SIZE {
        return Err(Error::InvalidVerificationKey);
    }
    let mut results: Vec<bool> = Vec::new();
    let mut i: usize = 0;
    while i < proofs.len()
        invariant
            i <= proofs@.len(),
            proofs@.len() == public_inputs@.len(),
            vk_bytes@.len() <= 4096,
            vk_layout_ok(vk_bytes@),
            vk@ == parse_vk_spec(vk_bytes@),
            vk_valid(vk@),
            with_precomputed == (precomputed_pairing_bytes@.len() != 0),
            with_precomputed ==> precomputed_pairing_bytes@.len() == 384,
            results@.len() == i,
            forall|k: int|
                0 <= k < i ==> #[trigger] results@[k] == batch_verdict(
                    proofs@[k]@,
                    public_inputs@[k]@,
                    vk_bytes@,
                    precomputed_pairing_bytes@,
                ),
        decreases proofs@.len() - i,
    {
        let valid = verify_one(
            &vk,
            proofs[i].as_slice(),
            public_inputs[i].as_slice(),
            precomputed_pairing_bytes,
            Ghost(vk_bytes@),
        );
        results.push(valid);
        i = i + 1;
    }
    Ok(results)
}

/// The verdict on one proof of a batch, against the key that was read for
/// the batch.
fn verify_one(
    vk: &VerifyingKey,
    proof_bytes: &[u8],
    public_inputs_bytes: &[u8],
    precomputed: &[u8],
    Ghost(vk_bytes): Ghost<Seq<u8>>,
) -> (valid: bool)
    requires
        vk_bytes.len() <= 4096,
        vk_layout_ok(vk_bytes),
        vk@ == parse_vk_spec(vk_bytes),
        vk_valid(vk@),
        precomputed@.len() == 0 || precomputed@.len() == 384,
    ensures
        valid == batch_verdict(proof_bytes@, public_inputs_bytes@, vk_bytes, precomputed@),
{
    let proof_points = match parse_proof(proof_bytes) {
        Ok(p) => p,
        Err(_) => {
            return false;
        },
    };
    if validate_proof(&proof_points).is_err() {
        return false;
    }
    let inputs = match deserialize_public_inputs(public_inputs_bytes) {
        Ok(inputs) => inputs,
        Err(_) => {
            return false;
        },
    };
    if inputs.len() + 1 != vk.gamma_abc_g1.len() {
        return false;
    }
    let outcome = if precomputed.len() != 0 {
        verify_proof_with_precomputed(vk, &proof_points, inputs.as_slice(), precomputed)
    } else {
        verify_proof_internal(vk, &proof_points, inputs.as_slice())
    };
    match outcome {
        Ok(v) => v,
        Err(_) => false,
    }
}

/// A proof of 256 zero bytes is never accepted: the point `(0, 0)` is not
/// on the curve. Whatever key and public inputs come with it, the verdict
/// is an error, and against a valid key of allowed size the error is
/// `MalformedProof`.
pub proof fn lemma_all_zero_proof_is_malformed(
    proof_bytes: Seq<u8>,
    public_inputs: Seq<u8>,
    vk_bytes: Seq<u8>,
)
    requires
        proof_bytes == zeros(256),
    ensures
        verdict(proof_bytes, public_inputs, vk_bytes) is Err,
        vk_bytes.len() <= 4096 && vk_layout_ok(vk_bytes) && vk_valid(parse_vk_spec(vk_bytes))
            ==> verdict(proof_bytes, public_inputs, vk_bytes) == Err::<bool, Error>(
            Error::MalformedProof,
        ),
{
    let a = parse_proof_spec(proof_bytes).a;
    assert(proof_bytes.subrange(0, 32) =~= zeros(32));
    assert(proof_bytes.subrange(32, 64) =~= zeros(32));
    lemma_array32_zeros();
    assert(be_value(a.x@) == 0);
    assert(be_value(a.y@) == 0);
    assert(!g1_curve_equation(a));
}

/// The reason that the verifier capability gives with a verdict; none with
/// the verdict that the proof is valid.
pub open spec fn failure_reason(outcome: Result<bool, Error>) -> Option<&'static str> {
    match outcome {
        Ok(true) => None,
        Ok(false) => Some("Groth16 proof verification failed"),
        Err(Error::DeserializationError) => Some("Failed to deserialize proof"),
        Err(Error::MalformedProof) => Some("Proof contains invalid curve points"),
        Err(Error::InvalidVerificationKey) => Some("Invalid verification key"),
        Err(Error::InvalidPublicInputs) => Some("Invalid public inputs"),
        Err(_) => Some("Groth16 verification error"),
    }
}

/// Groth16 as a verifier capability.
pub struct Groth16Verifier;

impl ZkVerifier for Groth16Verifier {
    open spec fn verdict(proof_bytes: Seq<u8>, public_inputs: Seq<u8>, vk: Seq<u8>) -> bool {
        verdict(proof_bytes, public_inputs, vk) == Ok::<bool, Error>(true)
    }

    open spec fn cost_model() -> GasCost {
        GasCost { base: 250_000, per_public_input: 40_000, per_proof_byte: 0 }
    }

    fn proof_system_id() -> (id: u8)
        ensures
            id == 0,
    {
        0
    }

    fn name() -> (name: &'static str)
        ensures
            name == "Groth16 (BN254)",
    {
        "Groth16 (BN254)"
    }

    fn security_model() -> (model: SecurityModel)
        ensures
            model == (SecurityModel {
                setup_type: SetupType::Trusted,
                crypto_assumption: CryptoAssumption::Pairing,
                post_quantum_secure: false,
                security_bits: 128,
                formally_verified: true,
            }),
    {
        SecurityModel::groth16_bn254()
    }

    fn gas_cost_model() -> GasCost {
        GasCost::groth16()
    }

    fn recursion_support() -> (support: RecursionSupport)
        ensures
            support == (RecursionSupport {
                can_verify_groth16: false,
                can_verify_plonk: false,
                can_verify_stark: false,
                max_depth: 0,
            }),
    {
        RecursionSupport::none()
    }

    fn verify(proof_bytes: &[u8], public_inputs: &[u8], vk: &[u8]) -> (result: VerifyResult)
        ensures
            result.gas_used.is_none(),
            result.error_message == failure_reason(verdict(proof_bytes@, public_inputs@, vk@)),
    {
        match verify(proof_bytes, public_inputs, vk) {
            Ok(true) => VerifyResult::valid(),
            Ok(false) => VerifyResult::invalid("Groth16 proof verification failed"),
            Err(Error::DeserializationError) => VerifyResult::invalid("Failed to deserialize proof"),
            Err(Error::MalformedProof) => VerifyResult::invalid("Proof contains invalid curve points"),
            Err(Error::InvalidVerificationKey) => VerifyResult::invalid("Invalid verification key"),
            Err(Error::InvalidPublicInputs) => VerifyResult::invalid("Invalid public inputs"),
            Err(_) => VerifyResult::invalid("Groth16 verification error"),
        }
    }
}

} // verus!
