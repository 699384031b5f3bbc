//! PLONK from bytes.
//!
//! A serialized proof is nine points and ten scalars, 896 bytes:
//! the three wire commitments, the permutation commitment, the three
//! quotient commitments, the opening proofs at `zeta` and at `zeta omega`,
//! then the three wire evaluations, the two permutation evaluations and the
//! five selector evaluations. A serialized key is the circuit size and the
//! number of public inputs in eight big-endian bytes each, the five
//! selector, three permutation and two Lagrange commitments, then `omega`,
//! `k1` and `k2`, 752 bytes; the `tau G2` of the reference string, 128
//! bytes, is its tail. Points are `x ‖ y`, every number is big-endian.

use crate::bytes::{be_value, read_be};
use crate::curve::{G1Point, G2Point};
use crate::field::{fr_reduce, reduce_spec, Scalar};
use crate::plonk::plonk::{plonk_verdict, verify_plonk_host, PlonkProof, PlonkVerificationKey};
use crate::plonk::Error;
use vstd::prelude::*;

verus! {

/// The proof that 896 bytes hold.
pub open spec fn parse_proof_spec(bytes: Seq<u8>) -> PlonkProof {
    PlonkProof {
        wire_commitments: [
            G1Point::read_spec(bytes, 0),
            G1Point::read_spec(bytes, 64),
            G1Point::read_spec(bytes, 128),
        ],
        permutation_commitment: G1Point::read_spec(bytes, 192),
        quotient_commitments: [
            G1Point::read_spec(bytes, 256),
            G1Point::read_spec(bytes, 320),
            G1Point::read_spec(bytes, 384),
        ],
        opening_proof_zeta: G1Point::read_spec(bytes, 448),
        opening_proof_omega: G1Point::read_spec(bytes, 512),
        wire_evals: [
            Scalar::read_spec(bytes, 576),
            Scalar::read_spec(bytes, 608),
            Scalar::read_spec(bytes, 640),
        ],
        permutation_evals: [Scalar::read_spec(bytes, 672), Scalar::read_spec(bytes, 704)],
        selector_evals: [
            Scalar::read_spec(bytes, 736),
            Scalar::read_spec(bytes, 768),
            Scalar::read_spec(bytes, 800),
            Scalar::read_spec(bytes, 832),
            Scalar::read_spec(bytes, 864),
        ],
    }
}

/// Whether a byte string can hold a key and `tau G2`: 880 bytes at least,
/// and a circuit size and an input count that are lengths on this machine.
pub open spec fn vk_layout_ok(bytes: Seq<u8>) -> bool {
    &&& bytes.len() >= 880
    &&& be_value(bytes.subrange(0, 8)) <= usize::MAX
    &&& be_value(bytes.subrange(8, 16)) <= usize::MAX
}

/// The key that the first 752 bytes hold.
pub open spec fn parse_vk_spec(bytes: Seq<u8>) -> PlonkVerificationKey {
    PlonkVerificationKey {
        n: be_value(bytes.subrange(0, 8)) as usize,
        num_public_inputs: be_value(bytes.subrange(8, 16)) as usize,
        selector_commitments: [
            G1Point::read_spec(bytes, 16),
            G1Point::read_spec(bytes, 80),
            G1Point::read_spec(bytes, 144),
            G1Point::read_spec(bytes, 208),
            G1Point::read_spec(bytes, 272),
        ],
        permutation_commitments: [
            G1Point::read_spec(bytes, 336),
            G1Point::read_spec(bytes, 400),
            G1Point::read_spec(bytes, 464),
        ],
        lagrange_first: G1Point::read_spec(bytes, 528),
        lagrange_last: G1Point::read_spec(bytes, 592),
        omega: Scalar::read_spec(bytes, 656),
        k1: Scalar::read_spec(bytes, 688),
        k2: Scalar::read_spec(bytes, 720),
    }
}

/// The `tau G2` at the tail of a serialized key.
pub open spec fn tau_g2_spec(bytes: Seq<u8>) -> G2Point {
    G2Point::read_spec(bytes, bytes.len() - 128)
}

/// The public inputs that a byte string holds, 32 big-endian bytes each,
/// each reduced into the scalar field.
pub open spec fn reduced_inputs(bytes: Seq<u8>) -> Seq<Scalar> {
    Seq::new(bytes.len() / 32, |i: int| reduce_spec(Scalar::read_spec(bytes, 32 * i)))
}

/// The verdict of `verify_host`: a proof of another length than 896 cannot
/// be read, a key without the layout above is invalid, public inputs that
/// are no whole number of scalars are invalid; what can be read is verified.
pub open spec fn host_verdict(proof_bytes: Seq<u8>, public_inputs: Seq<u8>, vk_bytes: Seq<u8>) -> Result<
    bool,
    Error,
> {
    if proof_bytes.len() != 896 {
        Err(Error::DeserializationError)
    } else if !vk_layout_ok(vk_bytes) {
        Err(Error::InvalidVerificationKey)
    } else if public_inputs.len() % 32 != 0 {
        Err(Error::InvalidPublicInputs)
    } else {
        plonk_verdict(
            parse_proof_spec(proof_bytes),
            parse_vk_spec(vk_bytes),
            reduced_inputs(public_inputs),
            tau_g2_spec(vk_bytes),
        )
    }
}

/// Reads a proof.
pub fn deserialize_plonk_proof(bytes: &[u8]) -> (result: Option<PlonkProof>)
    ensures
        match result {
            Some(p) => bytes@.len() == 896 && p == parse_proof_spec(bytes@),
            None => bytes@.len() != 896,
        },
{
    if bytes.len() != 896 {
        return None;
    }
    let p = PlonkProof {
        wire_commitments: [
            G1Point::read(bytes, 0),
            G1Point::read(bytes, 64),
            G1Point::read(bytes, 128),
        ],
        permutation_commitment: G1Point::read(bytes, 192),
        quotient_commitments: [
            G1Point::read(bytes, 256),
            G1Point::read(bytes, 320),
            G1Point::read(bytes, 384),
        ],
        opening_proof_zeta: G1Point::read(bytes, 448),
        opening_proof_omega: G1Point::read(bytes, 512),
        wire_evals: [Scalar::read(bytes, 576), Scalar::read(bytes, 608), Scalar::read(bytes, 640)],
        permutation_evals: [Scalar::read(bytes, 672), Scalar::read(bytes, 704)],
        selector_evals: [
            Scalar::read(bytes, 736),
            Scalar::read(bytes, 768),
            Scalar::read(bytes, 800),
            Scalar::read(bytes, 832),
            Scalar::read(bytes, 864),
        ],
    };
    proof {
        let q = parse_proof_spec(bytes@);
        assert(p.wire_commitments =~= q.wire_commitments);
        assert(p.quotient_commitments =~= q.quotient_commitments);
        assert(p.wire_evals =~= q.wire_evals);
        assert(p.permutation_evals =~= q.permutation_evals);
        assert(p.selector_evals =~= q.selector_evals);
    }
    Some(p)
}

/// Reads a key.
pub fn deserialize_plonk_vk(bytes: &[u8]) -> (result: Option<PlonkVerificationKey>)
    ensures
        match result {
            Some(vk) => vk_layout_ok(bytes@) && vk == parse_vk_spec(bytes@),
            None => !vk_layout_ok(bytes@),
        },
{
    if bytes.len() < 880 {
        return None;
    }
    let n_wide: u128 = read_be(bytes, 0, 8);
    let inputs_wide: u128 = read_be(bytes, 8, 8);
    if n_wide > usize::MAX as u128 || inputs_wide > usize::MAX as u128 {
        return None;
    }
    let vk = PlonkVerificationKey {
        n: n_wide as usize,
        num_public_inputs: inputs_wide as usize,
        selector_commitments: [
            G1Point::read(bytes, 16),
            G1Point::read(bytes, 80),
            G1Point::read(bytes, 144),
            G1Point::read(bytes, 208),
            G1Point::read(bytes, 272),
        ],
        permutation_commitments: [
            G1Point::read(bytes, 336),
            G1Point::read(bytes, 400),
            G1Point::read(bytes, 464),
        ],
        lagrange_first: G1Point::read(bytes, 528),
        lagrange_last: G1Point::read(bytes, 592),
        omega: Scalar::read(bytes, 656),
        k1: Scalar::read(bytes, 688),
        k2: Scalar::read(bytes, 720),
    };
    proof {
        let w = parse_vk_spec(bytes@);
        assert(vk.selector_commitments =~= w.selector_commitments);
        assert(vk.permutation_commitments =~= w.permutation_commitments);
    }
    Some(vk)
}

/// Reads the public inputs; the length has to be a multiple of 32.
pub fn deserialize_inputs(bytes: &[u8]) -> (inputs: Vec<Scalar>)
    requires
        bytes@.len() % 32 == 0,
    ensures
        inputs@ == reduced_inputs(bytes@),
{
    let total: usize = bytes.len();
    let count: usize = total / 32;
    let mut inputs: Vec<Scalar> = Vec::new();
    let mut i: usize = 0;
    while i < count
        invariant
            i <= count,
            32 * count == total == bytes@.len(),
            inputs@.len() == i,
            forall|k: int|
                0 <= k < i ==> #[trigger] inputs@[k] == reduce_spec(Scalar::read_spec(bytes@, 32 * k)),
        decreases count - i,
    {
        inputs.push(fr_reduce(Scalar::read(bytes, 32 * i)));
        i = i + 1;
    }
    assert(inputs@ =~= reduced_inputs(bytes@));
    inputs
}

/// Verifies a serialized proof against a serialized key and serialized
/// public inputs.
pub fn verify_host(proof_bytes: &[u8], public_inputs_bytes: &[u8], vk_bytes: &[u8]) -> (result: Result<
    bool,
    Error,
>)
    ensures
        result == host_verdict(proof_bytes@, public_inputs_bytes@, vk_bytes@),
{
    let proof_ = match deserialize_plonk_proof(proof_bytes) {
        Some(p) => p,
        None => {
            return Err(Error::DeserializationError);
        },
    };
    let vk = match deserialize_plonk_vk(vk_bytes) {
        Some(vk) => vk,
        None => {
            return Err(Error::InvalidVerificationKey);
        },
    };
    if public_inputs_bytes.len() % 32 != 0 {
        return Err(Error::InvalidPublicInputs);
    }
    let public_inputs = deserialize_inputs(public_inputs_bytes);
    let tau_g2 = G2Point::read(vk_bytes, vk_bytes.len() - 128);
    verify_plonk_host(&proof_, &vk, public_inputs.as_slice(), &tau_g2)
}

} // verus!
