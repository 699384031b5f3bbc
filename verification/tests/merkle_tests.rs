use uzkv::stark::merkle::{hash_leaf, hash_pair, MerkleProof, MerkleTree};

#[test]
fn test_merkle_tree_single_leaf() {
    let leaves = [[1u8; 32]];
    let tree = MerkleTree::new(&leaves);

    let proof = tree.prove(0).unwrap();
    assert!(proof.verify(&leaves[0], &tree.root()));
}

#[test]
fn test_merkle_tree_two_leaves() {
    let leaves = [[1u8; 32], [2u8; 32]];
    let tree = MerkleTree::new(&leaves);

    let proof0 = tree.prove(0).unwrap();
    let proof1 = tree.prove(1).unwrap();

    assert!(proof0.verify(&leaves[0], &tree.root()));
    assert!(proof1.verify(&leaves[1], &tree.root()));
}

#[test]
fn test_merkle_tree_four_leaves() {
    let leaves = [[1u8; 32], [2u8; 32], [3u8; 32], [4u8; 32]];
    let tree = MerkleTree::new(&leaves);

    for (i, leaf) in leaves.iter().enumerate() {
        let proof = tree.prove(i).unwrap();
        assert!(proof.verify(leaf, &tree.root()), "Proof {} failed", i);
    }
}

#[test]
fn test_merkle_tree_from_u64() {
    let values = [1u64, 2, 3, 4, 5, 6, 7, 8];
    let tree = MerkleTree::from_u64_values(&values);

    for (i, &value) in values.iter().enumerate() {
        let leaf_hash = hash_leaf(&value.to_le_bytes());
        let proof = tree.prove(i).unwrap();
        assert!(proof.verify(&leaf_hash, &tree.root()), "Proof {} failed", i);
    }
}

#[test]
fn test_proof_serialization() {
    let leaves = [[1u8; 32], [2u8; 32], [3u8; 32], [4u8; 32]];
    let tree = MerkleTree::new(&leaves);

    let proof = tree.prove(2).unwrap();
    let bytes = proof.to_bytes();
    let restored = MerkleProof::from_bytes(&bytes).unwrap();

    assert_eq!(proof.leaf_index, restored.leaf_index);
    assert_eq!(proof.siblings.len(), restored.siblings.len());
    assert!(restored.verify(&leaves[2], &tree.root()));
}

#[test]
fn test_invalid_proof_fails() {
    let leaves = [[1u8; 32], [2u8; 32]];
    let tree = MerkleTree::new(&leaves);

    let proof = tree.prove(0).unwrap();

    let wrong_leaf = [99u8; 32];
    assert!(!proof.verify(&wrong_leaf, &tree.root()));

    let wrong_root = [99u8; 32];
    assert!(!proof.verify(&leaves[0], &wrong_root));
}

fn keccak(data: &[u8]) -> [u8; 32] {
    <sha3::Keccak256 as sha3::Digest>::digest(data).into()
}

#[test]
fn parent_is_keccak_of_left_then_right() {
    let left = [1u8; 32];
    let right = [2u8; 32];
    let mut both = Vec::new();
    both.extend_from_slice(&left);
    both.extend_from_slice(&right);
    assert_eq!(hash_pair(&left, &right), keccak(&both));
    assert_ne!(hash_pair(&left, &right), hash_pair(&right, &left));
    assert_ne!(hash_pair(&left, &right), left);
}

#[test]
fn leaf_is_keccak_of_prefix_and_data() {
    assert_eq!(hash_leaf(&[7, 8, 9]), keccak(b"leaf:\x07\x08\x09"));
    assert_eq!(hash_leaf(&[]), keccak(b"leaf:"));
}

#[test]
fn root_of_two_leaves_is_their_parent() {
    let leaves = [[1u8; 32], [2u8; 32]];
    let tree = MerkleTree::new(&leaves);
    assert_eq!(tree.root(), hash_pair(&leaves[0], &leaves[1]));
}

#[test]
fn three_leaves_are_padded_with_the_zero_hash() {
    let leaves = [[1u8; 32], [2u8; 32], [3u8; 32]];
    let tree = MerkleTree::new(&leaves);
    let expected = hash_pair(
        &hash_pair(&leaves[0], &leaves[1]),
        &hash_pair(&leaves[2], &[0u8; 32]),
    );
    assert_eq!(tree.root(), expected);
    // The padding leaf has a proof too, and there is no fifth leaf.
    let padding = tree.prove(3).unwrap();
    assert!(padding.verify(&[0u8; 32], &tree.root()));
    assert_eq!(padding.siblings, vec![leaves[2], hash_pair(&leaves[0], &leaves[1])]);
    assert!(tree.prove(4).is_none());
}

#[test]
fn empty_tree_has_zero_root_and_no_proofs() {
    let tree = MerkleTree::new(&[]);
    assert_eq!(tree.root(), [0u8; 32]);
    assert!(tree.prove(0).is_none());
}

#[test]
fn every_leaf_of_every_size_verifies() {
    for count in 1usize..=17 {
        let leaves: Vec<[u8; 32]> = (0..count).map(|i| [i as u8 + 1; 32]).collect();
        let tree = MerkleTree::new(&leaves);
        let root = tree.root();
        for (i, leaf) in leaves.iter().enumerate() {
            let proof = tree.prove(i).unwrap();
            assert!(proof.verify(leaf, &root), "{} of {}", i, count);
            // The path is bound to the position.
            let mut moved = proof.clone();
            moved.leaf_index = i ^ 1;
            if count > 1 {
                assert!(!moved.verify(leaf, &root), "{} of {}", i, count);
            }
        }
    }
}

#[test]
fn proof_bytes_layout() {
    let proof = MerkleProof { leaf_index: 0x01020304, siblings: vec![[5u8; 32], [6u8; 32]] };
    let bytes = proof.to_bytes();
    assert_eq!(bytes.len(), 72);
    assert_eq!(&bytes[..8], &[4, 3, 2, 1, 2, 0, 0, 0]);
    assert_eq!(&bytes[8..40], &[5u8; 32]);
    assert_eq!(&bytes[40..], &[6u8; 32]);
    let restored = MerkleProof::from_bytes(&bytes).unwrap();
    assert_eq!(restored.leaf_index, 0x01020304);
    assert_eq!(restored.siblings, proof.siblings);
}

#[test]
fn proof_bytes_that_are_too_short() {
    assert!(MerkleProof::from_bytes(&[0u8; 7]).is_none());
    // One sibling is declared, none is there.
    assert!(MerkleProof::from_bytes(&[0, 0, 0, 0, 1, 0, 0, 0]).is_none());
    let mut bytes = vec![0, 0, 0, 0, 1, 0, 0, 0];
    bytes.extend_from_slice(&[9u8; 31]);
    assert!(MerkleProof::from_bytes(&bytes).is_none());
    bytes.push(9);
    assert_eq!(MerkleProof::from_bytes(&bytes).unwrap().siblings, vec![[9u8; 32]]);
    // No siblings at all is a proof.
    assert!(MerkleProof::from_bytes(&[0u8; 8]).unwrap().siblings.is_empty());
}
