//! Merkle commitment over Keccak-256.
//!
//! A tree binds a sequence of 32-byte leaves to one root. Leaves are padded
//! with the zero hash to a power of two; a parent is the hash of its left
//! child followed by its right child. The proof of a leaf is the list of
//! siblings on the way up, and checking it recomputes the root, taking at
//! each level the side that the index bit names.

use crate::bytes::{
    append_bytes, append_le, array32_eq, le_bytes, le_value, lemma_le_value_bound,
    lemma_pow256_values, read_array32, read_le, zero_word,
};
use crate::hash::{keccak256, spec_keccak256};
use crate::pow2::{is_pow2, next_pow2, next_power_of_two};
use vstd::prelude::*;

verus! {

/// Nodes as byte strings.
pub open spec fn rows(nodes: Seq<[u8; 32]>) -> Seq<Seq<u8>> {
    Seq::new(nodes.len(), |i: int| nodes[i]@)
}

/// The hash that pads the leaves: 32 zero bytes.
pub open spec fn zero_hash() -> Seq<u8> {
    Seq::new(32, |i: int| 0u8)
}

/// The bytes of `leaf:`, which come before the data of a hashed leaf.
pub open spec fn leaf_prefix() -> Seq<u8> {
    seq![0x6cu8, 0x65u8, 0x61u8, 0x66u8, 0x3au8]
}

/// The parent of two nodes.
pub open spec fn hash_pair_spec(left: Seq<u8>, right: Seq<u8>) -> Seq<u8> {
    spec_keccak256(left + right)
}

/// The leaf that commits to `data`.
pub open spec fn hash_leaf_spec(data: Seq<u8>) -> Seq<u8> {
    spec_keccak256(leaf_prefix() + data)
}

/// `leaves` followed by zero hashes, `n` nodes in all.
pub open spec fn padded(leaves: Seq<Seq<u8>>, n: nat) -> Seq<Seq<u8>> {
    Seq::new(
        n,
        |i: int|
            if i < leaves.len() {
                leaves[i]
            } else {
                zero_hash()
            },
    )
}

/// The level above `level`.
pub open spec fn parents(level: Seq<Seq<u8>>) -> Seq<Seq<u8>> {
    Seq::new(level.len() / 2, |i: int| hash_pair_spec(level[2 * i], level[2 * i + 1]))
}

/// The root above a level whose length is a power of two.
pub open spec fn root_of(level: Seq<Seq<u8>>) -> Seq<u8>
    decreases level.len(),
{
    if level.len() <= 1 {
        level[0]
    } else {
        root_of(parents(level))
    }
}

/// All nodes from `level` up to the root, level after level.
pub open spec fn flat(level: Seq<Seq<u8>>) -> Seq<Seq<u8>>
    decreases level.len(),
{
    if level.len() <= 1 {
        level
    } else {
        level + flat(parents(level))
    }
}

/// The position beside `idx` under the same parent.
pub open spec fn sibling_index(idx: int) -> int {
    if idx % 2 == 0 {
        idx + 1
    } else {
        idx - 1
    }
}

/// The siblings on the way from node `idx` of `level` up to the root.
pub open spec fn path_of(level: Seq<Seq<u8>>, idx: int) -> Seq<Seq<u8>>
    decreases level.len(),
{
    if level.len() <= 1 {
        Seq::empty()
    } else {
        seq![level[sibling_index(idx)]] + path_of(parents(level), idx / 2)
    }
}

/// The node reached from `current` at position `idx` by hashing with each
/// sibling of `path` in turn: on the left of the sibling where the position
/// is even, on its right where it is odd.
pub open spec fn fold_path(current: Seq<u8>, idx: int, path: Seq<Seq<u8>>) -> Seq<u8>
    decreases path.len(),
{
    if path.len() == 0 {
        current
    } else {
        let next = if idx % 2 == 0 {
            hash_pair_spec(current, path[0])
        } else {
            hash_pair_spec(path[0], current)
        };
        fold_path(next, idx / 2, path.skip(1))
    }
}

/// Every leaf verifies: folding a node with the path of its position gives
/// the root.
pub proof fn lemma_merkle_path_reaches_root(level: Seq<Seq<u8>>, idx: int)
    requires
        is_pow2(level.len()),
        0 <= idx < level.len(),
    ensures
        fold_path(level[idx], idx, path_of(level, idx)) == root_of(level),
    decreases level.len(),
{
    if level.len() > 1 {
        let up = parents(level);
        let path = path_of(level, idx);
        assert(path.skip(1) =~= path_of(up, idx / 2));
        assert(path[0] == level[sibling_index(idx)]);
        lemma_merkle_path_reaches_root(up, idx / 2);
        if idx % 2 == 0 {
            assert(up[idx / 2] == hash_pair_spec(level[idx], level[idx + 1]));
        } else {
            assert(up[idx / 2] == hash_pair_spec(level[idx - 1], level[idx]));
        }
    }
}

/// The length of a path is the height of the tree, and the tree has one node
/// less than twice its leaves, the last of which is the root.
pub proof fn lemma_flat_shape(level: Seq<Seq<u8>>)
    requires
        is_pow2(level.len()),
    ensures
        flat(level).len() == 2 * level.len() - 1,
        flat(level).last() == root_of(level),
    decreases level.len(),
{
    if level.len() > 1 {
        lemma_flat_shape(parents(level));
    }
}

/// A Merkle tree over padded leaves.
#[derive(Debug)]
pub struct MerkleTree {
    /// All nodes, level after level, leaves first.
    nodes: Vec<[u8; 32]>,
    /// Number of leaves after padding; zero for the empty tree.
    num_leaves: usize,
}

/// The authentication path of one leaf.
#[derive(Debug, Clone)]
pub struct MerkleProof {
    /// Position of the leaf.
    pub leaf_index: usize,
    /// Siblings from the leaf level up.
    pub siblings: Vec<[u8; 32]>,
}

/// The parent of two nodes, `keccak256(left ‖ right)`.
pub fn hash_pair(left: &[u8; 32], right: &[u8; 32]) -> (out: [u8; 32])
    ensures
        out@ == hash_pair_spec(left@, right@),
{
    let mut buf: Vec<u8> = Vec::new();
    append_bytes(&mut buf, left.as_slice());
    append_bytes(&mut buf, right.as_slice());
    keccak256(buf.as_slice())
}

/// The leaf that commits to `data`, `keccak256("leaf:" ‖ data)`.
pub fn hash_leaf(data: &[u8]) -> (out: [u8; 32])
    ensures
        out@ == hash_leaf_spec(data@),
{
    let mut buf: Vec<u8> = Vec::new();
    buf.push(0x6cu8);
    buf.push(0x65u8);
    buf.push(0x61u8);
    buf.push(0x66u8);
    buf.push(0x3au8);
    assert(buf@ =~= leaf_prefix());
    append_bytes(&mut buf, data);
    keccak256(buf.as_slice())
}

impl MerkleTree {
    #[verifier::type_invariant]
    spec fn well_formed(self) -> bool {
        if self.num_leaves == 0 {
            self.nodes@.len() == 0
        } else {
            &&& is_pow2(self.num_leaves as nat)
            &&& self.num_leaves <= self.nodes@.len()
            &&& rows(self.nodes@) == flat(rows(self.nodes@).subrange(0, self.num_leaves as int))
        }
    }

    /// The leaves that the tree commits to, padding included. Empty for the
    /// empty tree.
    pub closed spec fn leaf_level(self) -> Seq<Seq<u8>> {
        rows(self.nodes@).subrange(0, self.num_leaves as int)
    }

    /// The tree over `leaves`, padded with zero hashes to the next power of
    /// two. No leaves give the empty tree.
    pub fn new(leaves: &[[u8; 32]]) -> (tree: MerkleTree)
        requires
            leaves@.len() <= 0x4000_0000,
        ensures
            tree.leaf_level() == if leaves@.len() == 0 {
                Seq::<Seq<u8>>::empty()
            } else {
                padded(rows(leaves@), next_pow2(leaves@.len()))
            },
    {
        if leaves.len() == 0 {
            let tree = MerkleTree { nodes: Vec::new(), num_leaves: 0 };
            assert(tree.leaf_level() =~= Seq::<Seq<u8>>::empty());
            return tree;
        }
        let num_leaves: usize = next_power_of_two(leaves.len());
        let mut nodes: Vec<[u8; 32]> = Vec::new();
        let mut i: usize = 0;
        while i < leaves.len()
            invariant
                i <= leaves@.len() <= num_leaves,
                nodes@ == leaves@.subrange(0, i as int),
            decreases leaves@.len() - i,
        {
            let ghost before = nodes@;
            nodes.push(leaves[i]);
            assert(before.push(leaves@[i as int]) =~= leaves@.subrange(0, i + 1));
            i = i + 1;
        }
        assert(leaves@.subrange(0, i as int) =~= leaves@);
        assert(rows(nodes@) =~= padded(rows(leaves@), i as nat));
        while i < num_leaves
            invariant
                leaves@.len() <= i <= num_leaves,
                rows(nodes@) == padded(rows(leaves@), i as nat),
            decreases num_leaves - i,
        {
            let zero: [u8; 32] = zero_word();
            let ghost before = rows(nodes@);
            nodes.push(zero);
            assert(rows(nodes@) =~= before.push(zero@));
            assert(before.push(zero@) =~= padded(rows(leaves@), (i + 1) as nat));
            i = i + 1;
        }
        let ghost level0 = rows(nodes@);
        let ghost mut level = level0;
        let ghost mut prefix = Seq::<Seq<u8>>::empty();
        let mut level_start: usize = 0;
        let mut level_size: usize = num_leaves;
        assert(prefix + level =~= level0);
        assert(level0.subrange(0, num_leaves as int) =~= level0);
        while level_size > 1
            invariant
                1 <= level_size <= num_leaves < 0x8000_0000,
                is_pow2(level_size as nat),
                level.len() == level_size,
                prefix.len() == level_start,
                nodes@.len() == level_start + level_size,
                level_start + 2 * level_size == 2 * num_leaves,
                rows(nodes@) == prefix + level,
                prefix + flat(level) == flat(level0),
                level0.len() == num_leaves,
                (prefix + level).subrange(0, num_leaves as int) == level0,
            decreases level_size,
        {
            let next_size: usize = level_size / 2;
            let ghost base = nodes@;
            let mut j: usize = 0;
            while j < next_size
                invariant
                    j <= next_size,
                    next_size == level_size / 2,
                    level_size % 2 == 0,
                    level.len() == level_size,
                    prefix.len() == level_start,
                    level_start + 2 * level_size == 2 * num_leaves,
                    num_leaves < 0x8000_0000,
                    nodes@.len() == level_start + level_size + j,
                    rows(nodes@) == prefix + level + parents(level).subrange(0, j as int),
                decreases next_size - j,
            {
                let left: [u8; 32] = nodes[level_start + 2 * j];
                let right: [u8; 32] = nodes[level_start + 2 * j + 1];
                let parent = hash_pair(&left, &right);
                proof {
                    let all = rows(nodes@);
                    assert(all[level_start + 2 * j] == level[2 * j]);
                    assert(all[level_start + 2 * j + 1] == level[2 * j + 1]);
                    assert(parent@ == parents(level)[j as int]);
                }
                let ghost before = rows(nodes@);
                nodes.push(parent);
                assert(rows(nodes@) =~= before.push(parent@));
                assert(before.push(parent@) =~= prefix + level + parents(level).subrange(
                    0,
                    j + 1,
                ));
                j = j + 1;
            }
            proof {
                let up = parents(level);
                assert(up.subrange(0, next_size as int) =~= up);
                assert(prefix + flat(level) =~= (prefix + level) + flat(up));
                assert((prefix + level + up).subrange(0, num_leaves as int) =~= (prefix
                    + level).subrange(0, num_leaves as int));
                prefix = prefix + level;
                level = up;
            }
            level_start = level_start + level_size;
            level_size = next_size;
        }
        proof {
            assert(flat(level) == level);
            assert(rows(nodes@).subrange(0, num_leaves as int) =~= level0);
        }
        MerkleTree { nodes, num_leaves }
    }

    /// The tree over the hashed leaves of `values`, each value hashed as its
    /// eight little-endian bytes.
    pub fn from_u64_values(values: &[u64]) -> (tree: MerkleTree)
        requires
            values@.len() <= 0x4000_0000,
        ensures
            tree.leaf_level() == if values@.len() == 0 {
                Seq::<Seq<u8>>::empty()
            } else {
                padded(
                    Seq::new(values@.len(), |i: int| hash_leaf_spec(le_bytes(values@[i] as nat, 8))),
                    next_pow2(values@.len()),
                )
            },
    {
        let mut leaves: Vec<[u8; 32]> = Vec::new();
        let mut i: usize = 0;
        while i < values.len()
            invariant
                i <= values@.len(),
                leaves@.len() == i,
                forall|k: int|
                    0 <= k < i ==> leaves@[k]@ == hash_leaf_spec(le_bytes(values@[k] as nat, 8)),
            decreases values@.len() - i,
        {
            let mut data: Vec<u8> = Vec::new();
            append_le(&mut data, values[i] as u128, 8);
            assert(data@ =~= le_bytes(values@[i as int] as nat, 8));
            leaves.push(hash_leaf(data.as_slice()));
            i = i + 1;
        }
        assert(rows(leaves@) =~= Seq::new(
            values@.len(),
            |i: int| hash_leaf_spec(le_bytes(values@[i] as nat, 8)),
        ));
        MerkleTree::new(leaves.as_slice())
    }

    /// The root; 32 zero bytes for the empty tree.
    pub fn root(&self) -> (root: [u8; 32])
        ensures
            root@ == if self.leaf_level().len() == 0 {
                zero_hash()
            } else {
                root_of(self.leaf_level())
            },
    {
        proof {
            use_type_invariant(self);
        }
        if self.nodes.len() == 0 {
            return zero_word();
        }
        proof {
            lemma_flat_shape(self.leaf_level());
        }
        self.nodes[self.nodes.len() - 1]
    }

    /// The proof of the leaf at `leaf_index`; `None` where the tree has no
    /// such leaf. The proof holds the siblings from the leaf level up, and
    /// it leads from the leaf to the root of the tree.
    pub fn prove(&self, leaf_index: usize) -> (result: Option<MerkleProof>)
        ensures
            match result {
                Some(p) => {
                    &&& leaf_index < self.leaf_level().len()
                    &&& p.leaf_index == leaf_index
                    &&& rows(p.siblings@) == path_of(self.leaf_level(), leaf_index as int)
                    &&& p.accepts(
                        self.leaf_level()[leaf_index as int],
                        root_of(self.leaf_level()),
                    )
                },
                None => leaf_index >= self.leaf_level().len(),
            },
    {
        proof {
            use_type_invariant(self);
        }
        if leaf_index >= self.num_leaves || self.nodes.len() == 0 {
            return None;
        }
        let ghost level0 = self.leaf_level();
        let ghost mut level = level0;
        let ghost all = rows(self.nodes@);
        let total: usize = self.nodes.len();
        let mut siblings: Vec<[u8; 32]> = Vec::new();
        let mut current_idx: usize = leaf_index;
        let mut level_start: usize = 0;
        let mut level_size: usize = self.num_leaves;
        proof {
            lemma_flat_shape(level0);
            assert(all.subrange(0, all.len() as int) =~= all);
            assert(rows(siblings@) + path_of(level, current_idx as int) =~= path_of(
                level0,
                leaf_index as int,
            ));
        }
        while level_size > 1
            invariant
                1 <= level_size,
                current_idx < level_size,
                is_pow2(level_size as nat),
                level.len() == level_size,
                all == rows(self.nodes@),
                all.len() == total,
                level_start + 2 * level_size - 1 == all.len(),
                all.subrange(level_start as int, all.len() as int) == flat(level),
                rows(siblings@) + path_of(level, current_idx as int) == path_of(
                    level0,
                    leaf_index as int,
                ),
            decreases level_size,
        {
            let sibling_idx: usize = if current_idx % 2 == 0 {
                level_start + current_idx + 1
            } else {
                level_start + current_idx - 1
            };
            let sibling: [u8; 32] = self.nodes[sibling_idx];
            proof {
                let rest = all.subrange(level_start as int, all.len() as int);
                let up = parents(level);
                assert(rest[sibling_idx - level_start] == level[sibling_index(current_idx as int)]);
                assert(sibling@ == level[sibling_index(current_idx as int)]);
                let before = rows(siblings@);
                assert(before.push(sibling@) + path_of(up, (current_idx / 2) as int) =~= before
                    + path_of(level, current_idx as int));
                lemma_flat_shape(up);
                assert(all.subrange(level_start + level_size, all.len() as int) =~= flat(up)) by {
                    assert(rest =~= level + flat(up));
                    assert(all.subrange(level_start + level_size, all.len() as int) =~= rest.subrange(
                        level_size as int,
                        rest.len() as int,
                    ));
                }
                level = up;
            }
            let ghost old_rows = rows(siblings@);
            siblings.push(sibling);
            assert(rows(siblings@) =~= old_rows.push(sibling@));
            current_idx = current_idx / 2;
            level_start = level_start + level_size;
            level_size = level_size / 2;
        }
        proof {
            assert(rows(siblings@) + path_of(level, current_idx as int) =~= rows(siblings@));
            lemma_merkle_path_reaches_root(level0, leaf_index as int);
        }
        Some(MerkleProof { leaf_index, siblings })
    }
}

/// The proof that a tree gives for a leaf verifies against the tree's root:
/// for every leaf level whose length is a power of two and every position in
/// it, folding the leaf with its path gives the root.
pub proof fn lemma_tree_proof_verifies(tree: MerkleTree, proof_of_leaf: MerkleProof, idx: int)
    requires
        0 <= idx < tree.leaf_level().len(),
        is_pow2(tree.leaf_level().len()),
        rows(proof_of_leaf.siblings@) == path_of(tree.leaf_level(), idx),
        proof_of_leaf.leaf_index == idx,
    ensures
        proof_of_leaf.accepts(tree.leaf_level()[idx], root_of(tree.leaf_level())),
{
    lemma_merkle_path_reaches_root(tree.leaf_level(), idx);
}

impl MerkleProof {
    /// Whether the path leads from `leaf_hash` to `root`.
    pub open spec fn accepts(self, leaf_hash: Seq<u8>, root: Seq<u8>) -> bool {
        fold_path(leaf_hash, self.leaf_index as int, rows(self.siblings@)) == root
    }

    /// `leaf index (4, little-endian) ‖ sibling count (4, little-endian) ‖
    /// siblings`.
    pub open spec fn encoding(self) -> Seq<u8> {
        le_bytes(self.leaf_index as nat, 4) + le_bytes(self.siblings@.len(), 4) + rows(
            self.siblings@,
        ).flatten()
    }

    /// Recomputes the root from `leaf_hash` and compares it with `root`.
    pub fn verify(&self, leaf_hash: &[u8; 32], root: &[u8; 32]) -> (ok: bool)
        ensures
            ok == self.accepts(leaf_hash@, root@),
    {
        let ghost path = rows(self.siblings@);
        let mut current: [u8; 32] = *leaf_hash;
        let mut current_idx: usize = self.leaf_index;
        let mut k: usize = 0;
        assert(path.skip(0) =~= path);
        while k < self.siblings.len()
            invariant
                k <= self.siblings@.len(),
                path == rows(self.siblings@),
                fold_path(current@, current_idx as int, path.skip(k as int)) == fold_path(
                    leaf_hash@,
                    self.leaf_index as int,
                    path,
                ),
            decreases self.siblings@.len() - k,
        {
            let sibling: [u8; 32] = self.siblings[k];
            proof {
                let rest = path.skip(k as int);
                assert(rest[0] == sibling@);
                assert(rest.skip(1) =~= path.skip(k + 1));
            }
            current = if current_idx % 2 == 0 {
                hash_pair(&current, &sibling)
            } else {
                hash_pair(&sibling, &current)
            };
            current_idx = current_idx / 2;
            k = k + 1;
        }
        array32_eq(&current, root)
    }

    /// The encoding of this proof. Each of the two counts is written as its
    /// low four bytes.
    pub fn to_bytes(&self) -> (out: Vec<u8>)
        ensures
            out@ == self.encoding(),
    {
        let mut buf: Vec<u8> = Vec::new();
        append_le(&mut buf, self.leaf_index as u128, 4);
        append_le(&mut buf, self.siblings.len() as u128, 4);
        let ghost head = buf@;
        let mut k: usize = 0;
        assert(rows(self.siblings@).subrange(0, 0) =~= Seq::<Seq<u8>>::empty());
        assert(Seq::<Seq<u8>>::empty().flatten() =~= Seq::<u8>::empty());
        while k < self.siblings.len()
            invariant
                k <= self.siblings@.len(),
                buf@ == head + rows(self.siblings@).subrange(0, k as int).flatten(),
            decreases self.siblings@.len() - k,
        {
            let ghost done = rows(self.siblings@).subrange(0, k as int);
            append_bytes(&mut buf, self.siblings[k].as_slice());
            proof {
                let next = rows(self.siblings@).subrange(0, k + 1);
                assert(next =~= done.push(self.siblings@[k as int]@));
                done.lemma_flatten_push(self.siblings@[k as int]@);
            }
            k = k + 1;
        }
        assert(rows(self.siblings@).subrange(0, k as int) =~= rows(self.siblings@));
        buf
    }

    /// Reads a proof. `None` where fewer than 8 bytes are there or fewer
    /// than the sibling count asks for; bytes after the last sibling are not
    /// read.
    pub fn from_bytes(bytes: &[u8]) -> (result: Option<MerkleProof>)
        ensures
            match result {
                Some(p) => {
                    &&& bytes@.len() >= 8
                    &&& p.leaf_index == le_value(bytes@.subrange(0, 4))
                    &&& p.siblings@.len() == le_value(bytes@.subrange(4, 8))
                    &&& bytes@.len() >= 8 + 32 * p.siblings@.len()
                    &&& forall|k: int|
                        0 <= k < p.siblings@.len() ==> #[trigger] p.siblings@[k]@
                            == bytes@.subrange(8 + 32 * k, 40 + 32 * k)
                },
                None => bytes@.len() < 8 || bytes@.len() < 8 + 32 * le_value(
                    bytes@.subrange(4, 8),
                ),
            },
    {
        if bytes.len() < 8 {
            return None;
        }
        let index_wide: u128 = read_le(bytes, 0, 4);
        let count_wide: u128 = read_le(bytes, 4, 4);
        proof {
            lemma_le_value_bound(bytes@.subrange(0, 4));
            lemma_le_value_bound(bytes@.subrange(4, 8));
            lemma_pow256_values();
        }
        let leaf_index: usize = index_wide as usize;
        let count: usize = count_wide as usize;
        let total: usize = bytes.len();
        if (total - 8) / 32 < count {
            return None;
        }
        let mut siblings: Vec<[u8; 32]> = Vec::new();
        let mut k: usize = 0;
        while k < count
            invariant
                k <= count,
                8 + 32 * count <= total == bytes@.len(),
                siblings@.len() == k,
                forall|j: int|
                    0 <= j < k ==> #[trigger] siblings@[j]@ == bytes@.subrange(
                        8 + 32 * j,
                        40 + 32 * j,
                    ),
            decreases count - k,
        {
            let sibling = read_array32(bytes, 8 + 32 * k);
            siblings.push(sibling);
            k = k + 1;
        }
        Some(MerkleProof { leaf_index, siblings })
    }
}

} // verus!
