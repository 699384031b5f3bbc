//! The FRI low-degree test.
//!
//! The prover commits to the evaluations of a polynomial, folds the
//! polynomial in two with a challenge, commits again, and so on, until what
//! is left is small enough to be sent as its coefficients. The verifier
//! checks, at each layer after the first and at each query, that the
//! evaluation is the fold of the two evaluations below it,
//!
//! ```text
//! (f(x) + f(-x)) / 2 + alpha (f(x) - f(-x)) / (2 x),
//! ```
//!
//! that every evaluation is authenticated by its layer's Merkle root, and
//! that the evaluations of the last layer are those of the remainder. All
//! arithmetic is that of the scalar field.

use crate::bytes::{append_bytes, append_le, array32_eq, le_bytes, le_value, read_le};
use crate::field::{
    add_spec, fr_add, fr_inv, fr_mul, fr_reduce, fr_sub, inv_spec, mul_spec, reduce_spec, scalar_of,
    sub_spec, Scalar,
};
use crate::hash::{blake3, spec_blake3};
use crate::pow2::{log2_floor, log2_of_next_power_of_two, next_pow2};
use crate::stark::merkle::rows;
use crate::stark::types::{Error, SecurityLevel};
use vstd::prelude::*;

verus! {

/// The authentication path of one evaluation.
#[derive(Debug, Clone)]
pub struct MerkleProof {
    /// Siblings from the leaf up.
    pub path: Vec<[u8; 32]>,
    /// Position of the leaf.
    pub index: usize,
}

/// A FRI proof.
#[derive(Debug, Clone)]
pub struct FriProof {
    /// The Merkle root of each layer.
    pub layer_commitments: Vec<[u8; 32]>,
    /// For each layer, the authentication path of each query.
    pub layer_proofs: Vec<Vec<MerkleProof>>,
    /// For each layer, the evaluations.
    pub layer_evaluations: Vec<Vec<Scalar>>,
    /// The coefficients of the last polynomial, the constant first.
    pub remainder: Vec<Scalar>,
    /// Number of queries.
    pub num_queries: usize,
}

/// The parameters of a FRI proof.
#[derive(Debug, Clone, Copy, PartialEq, Eq, Structural)]
pub struct FriOptions {
    pub num_layers: usize,
    pub blowup_factor: usize,
    pub num_queries: usize,
    pub max_remainder_degree: usize,
}

/// Verifier of FRI proofs with fixed parameters.
#[derive(Debug, Clone, Copy)]
pub struct FriVerifier {
    pub options: FriOptions,
}

/// The node above two nodes, the BLAKE3 digest of left and right.
pub open spec fn blake_pair(left: Seq<u8>, right: Seq<u8>) -> Seq<u8> {
    spec_blake3(left + right)
}

/// The leaf of an evaluation, the BLAKE3 digest of its 32 bytes.
pub open spec fn leaf_of(value: Scalar) -> Seq<u8> {
    spec_blake3(value.bytes@)
}

/// The node reached from `current` at position `idx` by hashing with each
/// sibling of `path` in turn: on the left of the sibling where the position
/// is even, on its right where it is odd.
pub open spec fn blake_fold(current: Seq<u8>, idx: int, path: Seq<Seq<u8>>) -> Seq<u8>
    decreases path.len(),
{
    if path.len() == 0 {
        current
    } else {
        let next = if idx % 2 == 0 {
            blake_pair(current, path[0])
        } else {
            blake_pair(path[0], current)
        };
        blake_fold(next, idx / 2, path.skip(1))
    }
}

/// Whether the path leads from the evaluation to the root.
pub open spec fn merkle_ok(root: [u8; 32], path: MerkleProof, value: Scalar) -> bool {
    blake_fold(leaf_of(value), path.index as int, rows(path.path@)) == root@
}

/// A length halved `l` times.
pub open spec fn halved(len: nat, l: nat) -> nat
    decreases l,
{
    if l == 0 {
        len
    } else {
        halved(len, (l - 1) as nat) / 2
    }
}

/// Halving does not lengthen.
pub proof fn lemma_halved_le(len: nat, l: nat)
    ensures
        halved(len, l) <= len,
    decreases l,
{
    if l > 0 {
        lemma_halved_le(len, (l - 1) as nat);
    }
}

/// The fold of two evaluations at `x` and `-x` with the challenge `alpha`;
/// `None` where `x` is zero.
pub open spec fn folded(f_x: Scalar, f_neg_x: Scalar, x: Scalar, alpha: Scalar) -> Option<Scalar> {
    let two = scalar_of(2);
    match (inv_spec(two), inv_spec(mul_spec(two, x))) {
        (Some(half), Some(inv_2x)) => Some(
            add_spec(
                mul_spec(add_spec(f_x, f_neg_x), half),
                mul_spec(alpha, mul_spec(sub_spec(f_x, f_neg_x), inv_2x)),
            ),
        ),
        _ => None,
    }
}

/// The value of the polynomial with the coefficients from `k` on, at `x`, by
/// Horner's rule.
pub open spec fn horner(coefficients: Seq<Scalar>, x: Scalar, k: nat) -> Scalar
    decreases coefficients.len() - k,
{
    if k >= coefficients.len() {
        scalar_of(0)
    } else {
        add_spec(mul_spec(horner(coefficients, x, k + 1), x), coefficients[k as int])
    }
}

/// The shape that a proof has to have: as many layers as the options say,
/// one at least, with a challenge, a root, paths and evaluations for each; as
/// many queries as the options say, with a path and an evaluation for each
/// in every layer; and a remainder within the degree bound.
pub open spec fn structure_ok(options: FriOptions, proof_: FriProof, challenges: Seq<Scalar>) -> bool {
    &&& options.num_layers >= 1
    &&& proof_.layer_commitments@.len() == options.num_layers
    &&& proof_.num_queries == options.num_queries
    &&& proof_.remainder@.len() <= options.max_remainder_degree + 1
    &&& challenges.len() == options.num_layers
    &&& proof_.layer_proofs@.len() == options.num_layers
    &&& proof_.layer_evaluations@.len() == options.num_layers
    &&& forall|l: int|
        0 <= l < options.num_layers ==> (#[trigger] proof_.layer_proofs@[l])@.len()
            >= options.num_queries
    &&& forall|l: int|
        0 <= l < options.num_layers ==> (#[trigger] proof_.layer_evaluations@[l])@.len()
            >= options.num_queries
}

/// Whether the evaluation of query `q` in layer `l`, a layer after the
/// first, is the fold of the two evaluations in the layer below, taken at
/// twice the query's position and the place after, at the point of the
/// domain that the position names.
pub open spec fn folding_ok(
    proof_: FriProof,
    challenges: Seq<Scalar>,
    domain: Seq<Scalar>,
    l: int,
    q: int,
) -> bool {
    let position = proof_.layer_proofs@[l]@[q].index as int;
    let size = halved(domain.len(), l as nat) as int;
    let below = proof_.layer_evaluations@[l - 1]@;
    &&& size > 0
    &&& 2 * position + 1 < below.len()
    &&& folded(
        below[2 * position],
        below[2 * position + 1],
        domain[position % size],
        challenges[l],
    ) == Some(reduce_spec(proof_.layer_evaluations@[l]@[q]))
}

/// Whether query `q` of layer `l` is authenticated and, after the first
/// layer, folded as it has to be.
pub open spec fn query_ok(
    proof_: FriProof,
    challenges: Seq<Scalar>,
    domain: Seq<Scalar>,
    l: int,
    q: int,
) -> bool {
    &&& merkle_ok(
        proof_.layer_commitments@[l],
        proof_.layer_proofs@[l]@[q],
        proof_.layer_evaluations@[l]@[q],
    )
    &&& l > 0 ==> folding_ok(proof_, challenges, domain, l, q)
}

/// Whether every evaluation of the last layer is the value of the
/// remainder at its own position.
pub open spec fn remainder_ok(proof_: FriProof) -> bool {
    let last = proof_.layer_evaluations@.last()@;
    forall|q: int|
        0 <= q < last.len() ==> horner(proof_.remainder@, scalar_of(q as nat), 0) == reduce_spec(
            #[trigger] last[q],
        )
}

/// What FRI verification accepts.
pub open spec fn fri_accepts(
    options: FriOptions,
    proof_: FriProof,
    challenges: Seq<Scalar>,
    domain: Seq<Scalar>,
) -> bool {
    &&& structure_ok(options, proof_, challenges)
    &&& forall|l: int, q: int|
        0 <= l < options.num_layers && 0 <= q < options.num_queries ==> #[trigger] query_ok(
            proof_,
            challenges,
            domain,
            l,
            q,
        )
    &&& remainder_ok(proof_)
}

/// The challenge of layer `i`: the first 16 bytes, little-endian, of the
/// BLAKE3 digest of the seed, `i` in eight little-endian bytes, and the
/// layer's root.
pub open spec fn layer_challenge(commitment: Seq<u8>, seed: Seq<u8>, i: nat) -> Scalar {
    scalar_of(le_value(spec_blake3(seed + le_bytes(i, 8) + commitment).subrange(0, 16)))
}

impl FriOptions {
    /// The options for a security level and a trace length: the level's
    /// blowup and queries, remainders of degree 7 at most, and as many layers
    /// as halve the evaluation domain down to that.
    pub fn from_security_level(security: SecurityLevel, trace_length: usize) -> (options: FriOptions)
        ensures
            options.blowup_factor == security.blowup(),
            options.num_queries == security.queries(),
            options.max_remainder_degree == 7,
            options.num_layers == log2_floor(
                next_pow2(((trace_length * security.blowup()) / 7) as nat),
            ),
    {
        let blowup: usize = security.blowup_factor();
        assert(trace_length * blowup <= 0xffff_ffff_ffff_ffff * 16) by (nonlinear_arith)
            requires
                trace_length <= 0xffff_ffff_ffff_ffff,
                blowup <= 16,
        ;
        let domain_size: u128 = (trace_length as u128) * (blowup as u128);
        let max_remainder_degree: usize = 7;
        let num_layers: usize = log2_of_next_power_of_two(domain_size / 7) as usize;
        FriOptions {
            num_layers,
            blowup_factor: blowup,
            num_queries: security.num_queries(),
            max_remainder_degree,
        }
    }
}

/// The node above two nodes.
fn hash_nodes(left: &[u8; 32], right: &[u8; 32]) -> (out: [u8; 32])
    ensures
        out@ == blake_pair(left@, right@),
{
    let mut buf: Vec<u8> = Vec::new();
    append_bytes(&mut buf, left.as_slice());
    append_bytes(&mut buf, right.as_slice());
    blake3(buf.as_slice())
}

impl FriVerifier {
    pub fn new(options: FriOptions) -> (verifier: FriVerifier)
        ensures
            verifier.options == options,
    {
        FriVerifier { options }
    }

    /// Whether the path leads from the evaluation to the root.
    pub fn verify_merkle_proof(root: &[u8; 32], path: &MerkleProof, value: &Scalar) -> (ok: bool)
        ensures
            ok == merkle_ok(*root, *path, *value),
    {
        let ghost siblings = rows(path.path@);
        let mut current: [u8; 32] = blake3(value.bytes.as_slice());
        let mut index: usize = path.index;
        let mut k: usize = 0;
        assert(siblings.skip(0) =~= siblings);
        while k < path.path.len()
            invariant
                k <= path.path@.len(),
                siblings == rows(path.path@),
                blake_fold(current@, index as int, siblings.skip(k as int)) == blake_fold(
                    leaf_of(*value),
                    path.index as int,
                    siblings,
                ),
            decreases path.path@.len() - k,
        {
            let sibling: [u8; 32] = path.path[k];
            proof {
                let rest = siblings.skip(k as int);
                assert(rest[0] == sibling@);
                assert(rest.skip(1) =~= siblings.skip(k + 1));
            }
            current = if index % 2 == 0 {
                hash_nodes(&current, &sibling)
            } else {
                hash_nodes(&sibling, &current)
            };
            index = index / 2;
            k = k + 1;
        }
        array32_eq(&current, root)
    }

    /// The fold of two evaluations; `None` where `x` is zero.
    pub fn fold(f_x: Scalar, f_neg_x: Scalar, x: Scalar, alpha: Scalar) -> (result: Option<Scalar>)
        ensures
            result == folded(f_x, f_neg_x, x, alpha),
    {
        let two = Scalar::from_u64(2);
        let half = match fr_inv(two) {
            Ok(half) => half,
            Err(_) => {
                return None;
            },
        };
        let inv_2x = match fr_inv(fr_mul(two, x)) {
            Ok(inverse) => inverse,
            Err(_) => {
                return None;
            },
        };
        let even_part = fr_mul(fr_add(f_x, f_neg_x), half);
        let odd_part = fr_mul(fr_sub(f_x, f_neg_x), inv_2x);
        Some(fr_add(even_part, fr_mul(alpha, odd_part)))
    }

    /// The value at `x_index` of the polynomial with the given
    /// coefficients, the constant first.
    pub fn evaluate_polynomial(coefficients: &[Scalar], x_index: usize) -> (value: Scalar)
        ensures
            value == horner(coefficients@, scalar_of(x_index as nat), 0),
    {
        let x = Scalar::from_u64(x_index as u64);
        let mut result = Scalar::zero();
        let mut i: usize = coefficients.len();
        while i > 0
            invariant
                i <= coefficients@.len(),
                x == scalar_of(x_index as nat),
                result == horner(coefficients@, x, i as nat),
            decreases i,
        {
            result = fr_add(fr_mul(result, x), coefficients[i - 1]);
            i = i - 1;
        }
        result
    }

    /// Whether query `q` of layer `l` folds as it has to. `size` is the
    /// size of the domain at that layer.
    fn verify_folding(
        proof_: &FriProof,
        challenges: &[Scalar],
        domain: &[Scalar],
        l: usize,
        q: usize,
        size: usize,
    ) -> (ok: bool)
        requires
            1 <= l < proof_.layer_evaluations@.len(),
            l < proof_.layer_proofs@.len(),
            l < challenges@.len(),
            q < proof_.layer_proofs@[l as int]@.len(),
            q < proof_.layer_evaluations@[l as int]@.len(),
            size == halved(domain@.len(), l as nat),
        ensures
            ok == folding_ok(*proof_, challenges@, domain@, l as int, q as int),
    {
        if size == 0 {
            return false;
        }
        proof {
            lemma_halved_le(domain@.len(), l as nat);
        }
        let position: usize = proof_.layer_proofs[l][q].index;
        let below = &proof_.layer_evaluations[l - 1];
        if position >= below.len() / 2 {
            return false;
        }
        let x = domain[position % size];
        let expected = match Self::fold(
            below[2 * position],
            below[2 * position + 1],
            x,
            challenges[l],
        ) {
            Some(expected) => expected,
            None => {
                return false;
            },
        };
        let current = fr_reduce(proof_.layer_evaluations[l][q]);
        current.equals(&expected)
    }

    /// Whether the options, the proof and the challenges fit each other.
    fn validate_proof_structure(&self, proof_: &FriProof, challenges: &[Scalar]) -> (ok: bool)
        ensures
            ok == structure_ok(self.options, *proof_, challenges@),
    {
        let layers: usize = self.options.num_layers;
        if layers < 1 || proof_.layer_commitments.len() != layers || proof_.num_queries
            != self.options.num_queries {
            return false;
        }
        let coefficients: usize = proof_.remainder.len();
        if coefficients > 0 && coefficients - 1 > self.options.max_remainder_degree {
            return false;
        }
        if challenges.len() != layers || proof_.layer_proofs.len() != layers
            || proof_.layer_evaluations.len() != layers {
            return false;
        }
        let mut l: usize = 0;
        while l < layers
            invariant
                l <= layers,
                layers == self.options.num_layers,
                layers >= 1,
                proof_.layer_commitments@.len() == layers,
                proof_.num_queries == self.options.num_queries,
                proof_.remainder@.len() <= self.options.max_remainder_degree + 1,
                challenges@.len() == layers,
                proof_.layer_proofs@.len() == layers,
                proof_.layer_evaluations@.len() == layers,
                forall|k: int|
                    0 <= k < l ==> (#[trigger] proof_.layer_proofs@[k])@.len()
                        >= self.options.num_queries,
                forall|k: int|
                    0 <= k < l ==> (#[trigger] proof_.layer_evaluations@[k])@.len()
                        >= self.options.num_queries,
            decreases layers - l,
        {
            if proof_.layer_proofs[l].len() < self.options.num_queries {
                return false;
            }
            if proof_.layer_evaluations[l].len() < self.options.num_queries {
                return false;
            }
            l = l + 1;
        }
        true
    }

    /// Whether the last layer holds the evaluations of the remainder.
    fn verify_remainder(proof_: &FriProof) -> (ok: bool)
        requires
            proof_.layer_evaluations@.len() >= 1,
        ensures
            ok == remainder_ok(*proof_),
    {
        let last = &proof_.layer_evaluations[proof_.layer_evaluations.len() - 1];
        let mut q: usize = 0;
        while q < last.len()
            invariant
                q <= last@.len(),
                last@ == proof_.layer_evaluations@.last()@,
                forall|k: int|
                    0 <= k < q ==> horner(proof_.remainder@, scalar_of(k as nat), 0) == reduce_spec(
                        #[trigger] last@[k],
                    ),
            decreases last@.len() - q,
        {
            let computed = Self::evaluate_polynomial(proof_.remainder.as_slice(), q);
            let expected = fr_reduce(last[q]);
            if !computed.equals(&expected) {
                return false;
            }
            q = q + 1;
        }
        true
    }

    /// Whether every query of layer `l` is authenticated and, after the
    /// first layer, folded as it has to be. `size` is the size of the domain
    /// at that layer.
    fn verify_layer(
        &self,
        proof_: &FriProof,
        challenges: &[Scalar],
        domain: &[Scalar],
        l: usize,
        size: usize,
    ) -> (ok: bool)
        requires
            structure_ok(self.options, *proof_, challenges@),
            l < self.options.num_layers,
            size == halved(domain@.len(), l as nat),
        ensures
            ok == forall|b: int|
                0 <= b < self.options.num_queries ==> #[trigger] query_ok(
                    *proof_,
                    challenges@,
                    domain@,
                    l as int,
                    b,
                ),
    {
        let queries: usize = self.options.num_queries;
        let mut q: usize = 0;
        while q < queries
            invariant
                q <= queries,
                queries == self.options.num_queries,
                l < self.options.num_layers,
                structure_ok(self.options, *proof_, challenges@),
                size == halved(domain@.len(), l as nat),
                forall|b: int|
                    0 <= b < q ==> #[trigger] query_ok(*proof_, challenges@, domain@, l as int, b),
            decreases queries - q,
        {
            assert(proof_.layer_proofs@[l as int]@.len() >= queries);
            assert(proof_.layer_evaluations@[l as int]@.len() >= queries);
            let authenticated = Self::verify_merkle_proof(
                &proof_.layer_commitments[l],
                &proof_.layer_proofs[l][q],
                &proof_.layer_evaluations[l][q],
            );
            let folds = if l > 0 {
                Self::verify_folding(proof_, challenges, domain, l, q, size)
            } else {
                true
            };
            if !authenticated || !folds {
                assert(!query_ok(*proof_, challenges@, domain@, l as int, q as int));
                return false;
            }
            q = q + 1;
        }
        true
    }

    /// Verifies a FRI proof against the challenges of its layers and the
    /// evaluation domain of its first layer. Whatever is wrong with the
    /// proof, the error is `FriVerificationFailed`.
    pub fn verify(&self, proof_: &FriProof, challenges: &[Scalar], initial_evaluation_domain: &[
        Scalar
    ]) -> (result: Result<(), Error>)
        ensures
            result == if fri_accepts(
                self.options,
                *proof_,
                challenges@,
                initial_evaluation_domain@,
            ) {
                Ok::<(), Error>(())
            } else {
                Err::<(), Error>(Error::FriVerificationFailed)
            },
    {
        if !self.validate_proof_structure(proof_, challenges) {
            return Err(Error::FriVerificationFailed);
        }
        let layers: usize = self.options.num_layers;
        let mut size: usize = initial_evaluation_domain.len();
        let mut l: usize = 0;
        while l < layers
            invariant
                l <= layers,
                layers == self.options.num_layers,
                structure_ok(self.options, *proof_, challenges@),
                size == halved(initial_evaluation_domain@.len(), l as nat),
                forall|a: int, b: int|
                    0 <= a < l && 0 <= b < self.options.num_queries ==> #[trigger] query_ok(
                        *proof_,
                        challenges@,
                        initial_evaluation_domain@,
                        a,
                        b,
                    ),
            decreases layers - l,
        {
            if !self.verify_layer(proof_, challenges, initial_evaluation_domain, l, size) {
                return Err(Error::FriVerificationFailed);
            }
            size = size / 2;
            l = l + 1;
        }
        if !Self::verify_remainder(proof_) {
            return Err(Error::FriVerificationFailed);
        }
        Ok(())
    }
}

/// The challenges of the layers, each drawn from the seed, the number of
/// the layer and the layer's root.
pub fn generate_fri_challenges(layer_commitments: &[[u8; 32]], seed: &[u8]) -> (challenges: Vec<
    Scalar,
>)
    ensures
        challenges@.len() == layer_commitments@.len(),
        forall|i: int|
            0 <= i < challenges@.len() ==> #[trigger] challenges@[i] == layer_challenge(
                layer_commitments@[i]@,
                seed@,
                i as nat,
            ),
{
    let mut challenges: Vec<Scalar> = Vec::new();
    let mut i: usize = 0;
    while i < layer_commitments.len()
        invariant
            i <= layer_commitments@.len(),
            challenges@.len() == i,
            forall|k: int|
                0 <= k < i ==> #[trigger] challenges@[k] == layer_challenge(
                    layer_commitments@[k]@,
                    seed@,
                    k as nat,
                ),
        decreases layer_commitments@.len() - i,
    {
        let mut buf: Vec<u8> = Vec::new();
        append_bytes(&mut buf, seed);
        append_le(&mut buf, i as u128, 8);
        append_bytes(&mut buf, layer_commitments[i].as_slice());
        let digest = blake3(buf.as_slice());
        let word: u128 = read_le(digest.as_slice(), 0, 16);
        challenges.push(Scalar::from_u128(word));
        i = i + 1;
    }
    challenges
}

} // verus!
