//! The wire format of a STARK proof.
//!
//! A proof for a key with `Q` queries and `L` FRI layers over a trace of one
//! column, opened in windows of three rows, is laid out as follows; every
//! number is big-endian.
//!
//! ```text
//! trace commitment (32) ‖ composition commitment (32)
//! ‖ out-of-domain value of the row (16) ‖ of the row after it (16)
//! ‖ trace path length dt (4) ‖ FRI path length df (4) ‖ remainder length m (4)
//! ‖ Q trace queries:  row (4) ‖ dt siblings (32 each) ‖ 3 cells (8 each)
//! ‖ L layers:         root (32) ‖ Q times: position (4) ‖ evaluation (32)
//!                                          ‖ df siblings (32 each)
//! ‖ m remainder coefficients (32 each)
//! ```
//!
//! A byte string holds a proof only if it is exactly as long as its three
//! lengths say.

use crate::bytes::{
    array32, be_value, copy_range, lemma_be_value_bound, lemma_pow256_values, read_array32,
    read_be,
};
use crate::field::Scalar;
use crate::stark::fri::{FriProof, MerkleProof};
use crate::stark::stark::{OodFrame, QueryProof, StarkProof};
use vstd::prelude::*;

verus! {

/// Bytes of a trace query with `dt` siblings.
pub open spec fn query_size(dt: nat) -> nat {
    28 + 32 * dt
}

/// Bytes of one opened evaluation of a FRI layer with `df` siblings.
pub open spec fn item_size(df: nat) -> nat {
    36 + 32 * df
}

/// Bytes of a FRI layer.
pub open spec fn layer_size(queries: nat, df: nat) -> nat {
    32 + queries * item_size(df)
}

/// Where the FRI layers start.
pub open spec fn fri_base(queries: nat, dt: nat) -> nat {
    108 + queries * query_size(dt)
}

/// Where the remainder starts.
pub open spec fn remainder_base(queries: nat, layers: nat, dt: nat, df: nat) -> nat {
    fri_base(queries, dt) + layers * layer_size(queries, df)
}

/// The trace path length that a proof declares.
pub open spec fn trace_path_len(bytes: Seq<u8>) -> nat {
    be_value(bytes.subrange(96, 100))
}

/// The FRI path length that a proof declares.
pub open spec fn fri_path_len(bytes: Seq<u8>) -> nat {
    be_value(bytes.subrange(100, 104))
}

/// The number of remainder coefficients that a proof declares.
pub open spec fn remainder_len(bytes: Seq<u8>) -> nat {
    be_value(bytes.subrange(104, 108))
}

/// Whether a byte string has the layout of a proof with `queries` queries
/// and `layers` layers: it holds the fixed part and is exactly as long as
/// the lengths in it say.
pub open spec fn layout_ok(bytes: Seq<u8>, queries: nat, layers: nat) -> bool {
    &&& bytes.len() >= 108
    &&& bytes.len() == remainder_base(
        queries,
        layers,
        trace_path_len(bytes),
        fri_path_len(bytes),
    ) + 32 * remainder_len(bytes)
}

/// The `count` words of 32 bytes that stand at `at`.
pub open spec fn words_at(bytes: Seq<u8>, at: int, count: nat) -> Seq<[u8; 32]> {
    Seq::new(count, |k: int| array32(bytes.subrange(at + 32 * k, at + 32 * k + 32)))
}

/// The `count` scalars that stand at `at`.
pub open spec fn scalars_at(bytes: Seq<u8>, at: int, count: nat) -> Seq<Scalar> {
    Seq::new(count, |k: int| Scalar::read_spec(bytes, at + 32 * k))
}

/// Whether `query` is the trace query that stands at `at`.
pub open spec fn query_decodes(bytes: Seq<u8>, at: int, dt: nat, query: QueryProof) -> bool {
    &&& query.index == be_value(bytes.subrange(at, at + 4))
    &&& query.merkle_proof@ == words_at(bytes, at + 4, dt)
    &&& query.trace_values@.len() == 3
    &&& forall|k: int|
        0 <= k < 3 ==> (#[trigger] query.trace_values@[k])@ == bytes.subrange(
            at + 4 + 32 * dt + 8 * k,
            at + 4 + 32 * dt + 8 * k + 8,
        )
}

/// Whether `path` and `evaluation` are the opened evaluation that stands at
/// `at`.
pub open spec fn item_decodes(
    bytes: Seq<u8>,
    at: int,
    df: nat,
    path: MerkleProof,
    evaluation: Scalar,
) -> bool {
    &&& path.index == be_value(bytes.subrange(at, at + 4))
    &&& evaluation == Scalar::read_spec(bytes, at + 4)
    &&& path.path@ == words_at(bytes, at + 36, df)
}

/// Whether `paths` and `evaluations` are those of the layer that stands at
/// `at`, after its root.
pub open spec fn layer_decodes(
    bytes: Seq<u8>,
    at: int,
    queries: nat,
    df: nat,
    paths: Seq<MerkleProof>,
    evaluations: Seq<Scalar>,
) -> bool {
    &&& paths.len() == queries
    &&& evaluations.len() == queries
    &&& forall|q: int|
        0 <= q < queries ==> item_decodes(
            bytes,
            at + 32 + q * item_size(df),
            df,
            #[trigger] paths[q],
            evaluations[q],
        )
}

/// Whether `fri` is the FRI proof that a byte string of the layout holds.
pub open spec fn fri_decodes(bytes: Seq<u8>, queries: nat, layers: nat, fri: FriProof) -> bool {
    let dt = trace_path_len(bytes);
    let df = fri_path_len(bytes);
    let base = fri_base(queries, dt) as int;
    &&& fri.num_queries == queries
    &&& fri.layer_commitments@.len() == layers
    &&& fri.layer_proofs@.len() == layers
    &&& fri.layer_evaluations@.len() == layers
    &&& forall|l: int|
        0 <= l < layers ==> (#[trigger] fri.layer_commitments@[l]) == array32(
            bytes.subrange(base + l * layer_size(queries, df), base + l * layer_size(queries, df) + 32),
        )
    &&& forall|l: int|
        0 <= l < layers ==> layer_decodes(
            bytes,
            base + l * layer_size(queries, df),
            queries,
            df,
            (#[trigger] fri.layer_proofs@[l])@,
            fri.layer_evaluations@[l]@,
        )
    &&& fri.remainder@ == scalars_at(
        bytes,
        remainder_base(queries, layers, dt, df) as int,
        remainder_len(bytes),
    )
}

/// Whether `proof_` is the proof that a byte string of the layout holds.
pub open spec fn decodes_to(bytes: Seq<u8>, queries: nat, layers: nat, proof_: StarkProof) -> bool {
    let dt = trace_path_len(bytes);
    &&& proof_.trace_commitment == array32(bytes.subrange(0, 32))
    &&& proof_.composition_commitment == array32(bytes.subrange(32, 64))
    &&& proof_.ood_frame.current@.len() == 1
    &&& proof_.ood_frame.current@[0]@ == bytes.subrange(64, 80)
    &&& proof_.ood_frame.next@.len() == 1
    &&& proof_.ood_frame.next@[0]@ == bytes.subrange(80, 96)
    &&& proof_.trace_query_proofs@.len() == queries
    &&& forall|i: int|
        0 <= i < queries ==> query_decodes(
            bytes,
            108 + i * query_size(dt),
            dt,
            #[trigger] proof_.trace_query_proofs@[i],
        )
    &&& fri_decodes(bytes, queries, layers, proof_.fri_proof)
}

/// Reads `count` words of 32 bytes.
fn read_words(bytes: &[u8], at: usize, count: usize) -> (words: Vec<[u8; 32]>)
    requires
        at + 32 * count <= bytes@.len(),
    ensures
        words@ == words_at(bytes@, at as int, count as nat),
{
    let total: usize = bytes.len();
    let mut words: Vec<[u8; 32]> = Vec::new();
    let mut k: usize = 0;
    while k < count
        invariant
            k <= count,
            at + 32 * count <= total == bytes@.len(),
            words@.len() == k,
            forall|j: int|
                0 <= j < k ==> #[trigger] words@[j] == array32(
                    bytes@.subrange(at + 32 * j, at + 32 * j + 32),
                ),
        decreases count - k,
    {
        let word = read_array32(bytes, at + 32 * k);
        words.push(word);
        k = k + 1;
    }
    assert(words@ =~= words_at(bytes@, at as int, count as nat));
    words
}

/// Reads `count` scalars.
fn read_scalars(bytes: &[u8], at: usize, count: usize) -> (scalars: Vec<Scalar>)
    requires
        at + 32 * count <= bytes@.len(),
    ensures
        scalars@ == scalars_at(bytes@, at as int, count as nat),
{
    let total: usize = bytes.len();
    let mut scalars: Vec<Scalar> = Vec::new();
    let mut k: usize = 0;
    while k < count
        invariant
            k <= count,
            at + 32 * count <= total == bytes@.len(),
            scalars@.len() == k,
            forall|j: int|
                0 <= j < k ==> #[trigger] scalars@[j] == Scalar::read_spec(bytes@, at + 32 * j),
        decreases count - k,
    {
        let scalar = Scalar::read(bytes, at + 32 * k);
        scalars.push(scalar);
        k = k + 1;
    }
    assert(scalars@ =~= scalars_at(bytes@, at as int, count as nat));
    scalars
}

/// Reads a number of four bytes.
fn read_u32(bytes: &[u8], at: usize) -> (value: usize)
    requires
        at + 4 <= bytes@.len(),
    ensures
        value == be_value(bytes@.subrange(at as int, at + 4)),
        value < 0x1_0000_0000,
{
    let wide: u128 = read_be(bytes, at, 4);
    proof {
        lemma_be_value_bound(bytes@.subrange(at as int, at + 4));
        lemma_pow256_values();
    }
    wide as usize
}

/// Reads the trace query at `at`.
fn read_query(bytes: &[u8], at: usize, dt: usize) -> (query: QueryProof)
    requires
        at + 28 + 32 * dt <= bytes@.len(),
    ensures
        query_decodes(bytes@, at as int, dt as nat, query),
{
    let total: usize = bytes.len();
    let index = read_u32(bytes, at);
    let merkle_proof = read_words(bytes, at + 4, dt);
    let cells: usize = at + 4 + 32 * dt;
    let mut trace_values: Vec<Vec<u8>> = Vec::new();
    trace_values.push(copy_range(bytes, cells, 8));
    trace_values.push(copy_range(bytes, cells + 8, 8));
    trace_values.push(copy_range(bytes, cells + 16, 8));
    QueryProof { index, merkle_proof, trace_values }
}

/// Reads the layer at `at`, after its root.
fn read_layer(bytes: &[u8], at: usize, queries: usize, df: usize) -> (layer: (
    Vec<MerkleProof>,
    Vec<Scalar>,
))
    requires
        at + layer_size(queries as nat, df as nat) <= bytes@.len(),
    ensures
        layer_decodes(bytes@, at as int, queries as nat, df as nat, layer.0@, layer.1@),
{
    let total: usize = bytes.len();
    let mut paths: Vec<MerkleProof> = Vec::new();
    let mut evaluations: Vec<Scalar> = Vec::new();
    if queries == 0 {
        return (paths, evaluations);
    }
    assert(queries * item_size(df as nat) >= item_size(df as nat)) by (nonlinear_arith)
        requires
            queries >= 1,
    ;
    let size: usize = 36 + 32 * df;
    let mut q: usize = 0;
    let mut item: usize = at + 32;
    while q < queries
        invariant
            q <= queries,
            size == item_size(df as nat),
            at + 32 + queries * size <= total == bytes@.len(),
            item == at + 32 + q * size,
            paths@.len() == q,
            evaluations@.len() == q,
            forall|j: int|
                0 <= j < q ==> item_decodes(
                    bytes@,
                    at + 32 + j * item_size(df as nat),
                    df as nat,
                    #[trigger] paths@[j],
                    evaluations@[j],
                ),
        decreases queries - q,
    {
        assert((q + 1) * size <= queries * size) by (nonlinear_arith)
            requires
                q + 1 <= queries,
                size >= 0,
        ;
        assert((q + 1) * size == q * size + size) by (nonlinear_arith);
        let index = read_u32(bytes, item);
        let evaluation = Scalar::read(bytes, item + 4);
        let path = read_words(bytes, item + 36, df);
        paths.push(MerkleProof { path, index });
        evaluations.push(evaluation);
        item = item + size;
        q = q + 1;
    }
    (paths, evaluations)
}

/// Reads a proof for a key with `queries` queries and `layers` FRI layers.
/// `None` where the byte string has not the layout of such a proof.
pub fn decode_proof(bytes: &[u8], queries: usize, layers: usize) -> (result: Option<StarkProof>)
    ensures
        match result {
            Some(proof_) => layout_ok(bytes@, queries as nat, layers as nat) && decodes_to(
                bytes@,
                queries as nat,
                layers as nat,
                proof_,
            ),
            None => !layout_ok(bytes@, queries as nat, layers as nat),
        },
{
    let total: usize = bytes.len();
    if total < 108 {
        return None;
    }
    let dt = read_u32(bytes, 96);
    let df = read_u32(bytes, 100);
    let m = read_u32(bytes, 104);
    let ghost spec_total = remainder_base(queries as nat, layers as nat, dt as nat, df as nat) + 32
        * m;
    let query_bytes: u128 = 28 + 32 * (dt as u128);
    let item_bytes: u128 = 36 + 32 * (df as u128);
    assert((queries as int) * (query_bytes as int) <= 0xffff_ffff_ffff_ffff * 0x21_0000_0000)
        by (nonlinear_arith)
        requires
            0 <= queries <= 0xffff_ffff_ffff_ffff,
            0 <= query_bytes <= 0x21_0000_0000,
    ;
    assert((queries as int) * (item_bytes as int) <= 0xffff_ffff_ffff_ffff * 0x21_0000_0000)
        by (nonlinear_arith)
        requires
            0 <= queries <= 0xffff_ffff_ffff_ffff,
            0 <= item_bytes <= 0x21_0000_0000,
    ;
    let base: u128 = 108 + (queries as u128) * query_bytes;
    let layer_bytes: u128 = 32 + (queries as u128) * item_bytes;
    if base > total as u128 {
        return None;
    }
    if layers > 0 && layer_bytes > total as u128 {
        assert(spec_total >= layer_bytes) by (nonlinear_arith)
            requires
                layers >= 1,
                layer_bytes >= 0,
                spec_total >= (layers as int) * (layer_bytes as int),
        ;
        return None;
    }
    let all_layers: u128 = if layers == 0 {
        0
    } else {
        assert((layers as int) * (layer_bytes as int) <= 0xffff_ffff_ffff_ffff
            * 0xffff_ffff_ffff_ffff) by (nonlinear_arith)
            requires
                0 <= layers <= 0xffff_ffff_ffff_ffff,
                0 <= layer_bytes <= 0xffff_ffff_ffff_ffff,
        ;
        (layers as u128) * layer_bytes
    };
    assert(all_layers == (layers as int) * (layer_bytes as int)) by (nonlinear_arith)
        requires
            all_layers == if layers == 0 {
                0
            } else {
                (layers as int) * (layer_bytes as int)
            },
    ;
    let expected: u128 = base + all_layers + 32 * (m as u128);
    if expected != total as u128 {
        return None;
    }
    let query_stride: usize = if queries == 0 {
        0
    } else {
        assert((queries as int) * (query_bytes as int) >= query_bytes) by (nonlinear_arith)
            requires
                queries >= 1,
                query_bytes >= 0,
        ;
        query_bytes as usize
    };
    assert(queries * query_stride == (queries as int) * (query_bytes as int)) by (nonlinear_arith)
        requires
            query_stride == if queries == 0 {
                0
            } else {
                query_bytes as int
            },
    ;
    let layer_stride: usize = if layers == 0 {
        0
    } else {
        layer_bytes as usize
    };
    let fri_at: usize = base as usize;
    let remainder_at: usize = (base + all_layers) as usize;

    let trace_commitment = read_array32(bytes, 0);
    let composition_commitment = read_array32(bytes, 32);
    let mut current: Vec<Vec<u8>> = Vec::new();
    current.push(copy_range(bytes, 64, 16));
    let mut next: Vec<Vec<u8>> = Vec::new();
    next.push(copy_range(bytes, 80, 16));

    let mut trace_query_proofs: Vec<QueryProof> = Vec::new();
    let mut i: usize = 0;
    let mut at: usize = 108;
    while i < queries
        invariant
            i <= queries,
            queries > 0 ==> query_stride == query_size(dt as nat),
            108 + queries * query_stride <= total == bytes@.len(),
            at == 108 + i * query_stride,
            trace_query_proofs@.len() == i,
            forall|j: int|
                0 <= j < i ==> query_decodes(
                    bytes@,
                    108 + j * query_size(dt as nat),
                    dt as nat,
                    #[trigger] trace_query_proofs@[j],
                ),
        decreases queries - i,
    {
        assert((i + 1) * query_stride <= queries * query_stride) by (nonlinear_arith)
            requires
                i + 1 <= queries,
                query_stride >= 0,
        ;
        assert((i + 1) * query_stride == i * query_stride + query_stride) by (nonlinear_arith);
        trace_query_proofs.push(read_query(bytes, at, dt));
        at = at + query_stride;
        i = i + 1;
    }

    let mut layer_commitments: Vec<[u8; 32]> = Vec::new();
    let mut layer_proofs: Vec<Vec<MerkleProof>> = Vec::new();
    let mut layer_evaluations: Vec<Vec<Scalar>> = Vec::new();
    let mut l: usize = 0;
    let mut layer_at: usize = fri_at;
    while l < layers
        invariant
            l <= layers,
            layers > 0 ==> layer_stride == layer_size(queries as nat, df as nat),
            fri_at == fri_base(queries as nat, dt as nat),
            fri_at + layers * layer_stride <= total == bytes@.len(),
            layer_at == fri_at + l * layer_stride,
            layer_commitments@.len() == l,
            layer_proofs@.len() == l,
            layer_evaluations@.len() == l,
            forall|j: int|
                0 <= j < l ==> (#[trigger] layer_commitments@[j]) == array32(
                    bytes@.subrange(
                        fri_at + j * layer_size(queries as nat, df as nat),
                        fri_at + j * layer_size(queries as nat, df as nat) + 32,
                    ),
                ),
            forall|j: int|
                0 <= j < l ==> layer_decodes(
                    bytes@,
                    fri_at + j * layer_size(queries as nat, df as nat),
                    queries as nat,
                    df as nat,
                    (#[trigger] layer_proofs@[j])@,
                    layer_evaluations@[j]@,
                ),
        decreases layers - l,
    {
        assert((l + 1) * layer_stride <= layers * layer_stride) by (nonlinear_arith)
            requires
                l + 1 <= layers,
                layer_stride >= 0,
        ;
        assert((l + 1) * layer_stride == l * layer_stride + layer_stride) by (nonlinear_arith);
        let root = read_array32(bytes, layer_at);
        let (paths, evaluations) = read_layer(bytes, layer_at, queries, df);
        layer_commitments.push(root);
        layer_proofs.push(paths);
        layer_evaluations.push(evaluations);
        layer_at = layer_at + layer_stride;
        l = l + 1;
    }
    let remainder = read_scalars(bytes, remainder_at, m);
    let fri_proof = FriProof {
        layer_commitments,
        layer_proofs,
        layer_evaluations,
        remainder,
        num_queries: queries,
    };
    Some(
        StarkProof {
            trace_commitment,
            composition_commitment,
            fri_proof,
            trace_query_proofs,
            ood_frame: OodFrame { current, next },
        },
    )
}

} // verus!
