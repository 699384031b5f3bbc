//! The two hash functions of the verifier.
//!
//! Keccak-256 commits in the pairing-based paths and in the Keccak Merkle
//! tree; BLAKE3 commits in the FRI-based path. Both are computed by outside
//! crates. What they return is named here, so that contracts can say which
//! bytes were hashed.

use vstd::prelude::*;

verus! {

/// The Keccak-256 digest of `data`.
pub uninterp spec fn spec_keccak256(data: Seq<u8>) -> Seq<u8>;

/// The BLAKE3 digest of `data`.
pub uninterp spec fn spec_blake3(data: Seq<u8>) -> Seq<u8>;

/// `Keccak256::digest` of sha3: the 32-byte Keccak-256 digest of `data`, a
/// function of the bytes alone.
#[verifier::external_body]
pub(crate) fn keccak256(data: &[u8]) -> (digest: [u8; 32])
    ensures
        digest@ == spec_keccak256(data@),
{
    <sha3::Keccak256 as sha3::Digest>::digest(data).into()
}

/// `blake3::hash`: the 32-byte BLAKE3 digest of `data`, a function of the
/// bytes alone.
#[verifier::external_body]
pub(crate) fn blake3(data: &[u8]) -> (digest: [u8; 32])
    ensures
        digest@ == spec_blake3(data@),
{
    *blake3::hash(data).as_bytes()
}

} // verus!
