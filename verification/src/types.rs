//! Wire types shared by every proof system.

use crate::bytes::{
    append_bytes, append_le, copy_range, le_bytes, le_value, lemma_le_bytes_len,
    lemma_le_bytes_of_value, lemma_le_value_bound, lemma_le_value_of_bytes, lemma_pow256_values,
    read_array32, read_le,
};
use vstd::prelude::*;

verus! {

/// Proof system identifier. The numeric encoding is part of every binding
/// commitment and is fixed: Groth16 is 0, PLONK is 1, STARK is 2.
#[derive(Debug, Clone, Copy, PartialEq, Eq, Structural)]
pub enum ProofType {
    Groth16,
    PLONK,
    STARK,
}

impl ProofType {
    /// The number that stands for this proof system on the wire.
    pub open spec fn code(self) -> u8 {
        match self {
            ProofType::Groth16 => 0,
            ProofType::PLONK => 1,
            ProofType::STARK => 2,
        }
    }

    /// The proof system a wire number stands for, if any.
    pub open spec fn from_code(value: u8) -> Option<ProofType> {
        if value == 0 {
            Some(ProofType::Groth16)
        } else if value == 1 {
            Some(ProofType::PLONK)
        } else if value == 2 {
            Some(ProofType::STARK)
        } else {
            None
        }
    }

    pub fn from_u8(value: u8) -> (result: Option<ProofType>)
        ensures
            result == Self::from_code(value),
    {
        match value {
            0 => Some(ProofType::Groth16),
            1 => Some(ProofType::PLONK),
            2 => Some(ProofType::STARK),
            _ => None,
        }
    }

    pub fn to_u8(self) -> (result: u8)
        ensures
            result == self.code(),
    {
        match self {
            ProofType::Groth16 => 0,
            ProofType::PLONK => 1,
            ProofType::STARK => 2,
        }
    }
}

/// Curve over which a proof or a key is defined.
#[derive(Debug, Clone, Copy, PartialEq, Eq, Structural)]
pub enum CurveId {
    BN254,
    BLS12_381,
}

impl CurveId {
    pub open spec fn code(self) -> u8 {
        match self {
            CurveId::BN254 => 0,
            CurveId::BLS12_381 => 1,
        }
    }

    pub fn to_u8(self) -> (result: u8)
        ensures
            result == self.code(),
    {
        match self {
            CurveId::BN254 => 0,
            CurveId::BLS12_381 => 1,
        }
    }
}

/// Hash function that a proof system commits with.
#[derive(Debug, Clone, Copy, PartialEq, Eq, Structural)]
pub enum HashFunctionId {
    Keccak256,
    Blake3,
}

impl HashFunctionId {
    pub open spec fn code(self) -> u8 {
        match self {
            HashFunctionId::Keccak256 => 0,
            HashFunctionId::Blake3 => 1,
        }
    }

    pub fn to_u8(self) -> (result: u8)
        ensures
            result == self.code(),
    {
        match self {
            HashFunctionId::Keccak256 => 0,
            HashFunctionId::Blake3 => 1,
        }
    }
}

/// What a proof claims about itself before anything is verified: which
/// system made it, over which curve, how large it is, and which key and
/// circuit it is bound to.
#[derive(Debug, Clone, Copy, PartialEq, Eq)]
pub struct UniversalProofDescriptor {
    pub proof_system_id: u8,
    pub curve_id: CurveId,
    pub hash_function_id: HashFunctionId,
    pub recursion_depth: u8,
    pub public_input_count: u16,
    pub proof_length: u32,
    pub vk_commitment: [u8; 32],
    pub circuit_id: [u8; 32],
}

impl UniversalProofDescriptor {
    /// Length of an encoded descriptor.
    pub const ENCODED_SIZE: usize = 74;

    /// The byte string of a descriptor: one byte each for system, curve, hash
    /// function and recursion depth, the input count in two and the proof
    /// length in four little-endian bytes, then the key commitment and the
    /// circuit identifier.
    pub open spec fn encoding(self) -> Seq<u8> {
        seq![
            self.proof_system_id,
            self.curve_id.code(),
            self.hash_function_id.code(),
            self.recursion_depth,
        ] + le_bytes(self.public_input_count as nat, 2) + le_bytes(self.proof_length as nat, 4)
            + self.vk_commitment@ + self.circuit_id@
    }

    pub proof fn lemma_encoding_len(self)
        ensures
            self.encoding().len() == 74,
    {
        lemma_le_bytes_len(self.public_input_count as nat, 2);
        lemma_le_bytes_len(self.proof_length as nat, 4);
    }

    pub fn new(
        proof_system_id: u8,
        curve_id: CurveId,
        hash_function_id: HashFunctionId,
        recursion_depth: u8,
        public_input_count: u16,
        proof_length: u32,
        vk_commitment: [u8; 32],
        circuit_id: [u8; 32],
    ) -> (result: Self)
        ensures
            result == (UniversalProofDescriptor {
                proof_system_id,
                curve_id,
                hash_function_id,
                recursion_depth,
                public_input_count,
                proof_length,
                vk_commitment,
                circuit_id,
            }),
    {
        UniversalProofDescriptor {
            proof_system_id,
            curve_id,
            hash_function_id,
            recursion_depth,
            public_input_count,
            proof_length,
            vk_commitment,
            circuit_id,
        }
    }

    /// The descriptor of a Groth16 proof over BN254: 256 proof bytes, no
    /// recursion.
    pub fn groth16(public_input_count: u16, vk_commitment: [u8; 32], circuit_id: [u8; 32]) -> (result:
        Self)
        ensures
            result == (UniversalProofDescriptor {
                proof_system_id: 0,
                curve_id: CurveId::BN254,
                hash_function_id: HashFunctionId::Keccak256,
                recursion_depth: 0,
                public_input_count,
                proof_length: 256,
                vk_commitment,
                circuit_id,
            }),
    {
        UniversalProofDescriptor {
            proof_system_id: 0,
            curve_id: CurveId::BN254,
            hash_function_id: HashFunctionId::Keccak256,
            recursion_depth: 0,
            public_input_count,
            proof_length: 256,
            vk_commitment,
            circuit_id,
        }
    }

    pub fn encode(&self) -> (out: Vec<u8>)
        ensures
            out@ == self.encoding(),
            out@.len() == 74,
    {
        let mut buf: Vec<u8> = Vec::new();
        buf.push(self.proof_system_id);
        buf.push(self.curve_id.to_u8());
        buf.push(self.hash_function_id.to_u8());
        buf.push(self.recursion_depth);
        assert(buf@ =~= seq![
            self.proof_system_id,
            self.curve_id.code(),
            self.hash_function_id.code(),
            self.recursion_depth,
        ]);
        append_le(&mut buf, self.public_input_count as u128, 2);
        append_le(&mut buf, self.proof_length as u128, 4);
        append_bytes(&mut buf, self.vk_commitment.as_slice());
        append_bytes(&mut buf, self.circuit_id.as_slice());
        proof {
            self.lemma_encoding_len();
        }
        buf
    }
}

/// What every proof of this system attests to, whatever circuit made it.
#[derive(Debug, Clone, PartialEq, Eq)]
pub struct PublicStatement {
    /// Root of the state tree.
    pub merkle_root: [u8; 32],
    /// Public key of the prover.
    pub public_key: [u8; 32],
    /// Value that marks the claim as consumed.
    pub nullifier: [u8; 32],
    /// Application value.
    pub value: u128,
    /// Application-specific extension bytes.
    pub extra: Vec<u8>,
}

/// A `PublicStatement` as plain values.
pub struct PublicStatementView {
    pub merkle_root: Seq<u8>,
    pub public_key: Seq<u8>,
    pub nullifier: Seq<u8>,
    pub value: u128,
    pub extra: Seq<u8>,
}

impl View for PublicStatement {
    type V = PublicStatementView;

    open spec fn view(&self) -> PublicStatementView {
        PublicStatementView {
            merkle_root: self.merkle_root@,
            public_key: self.public_key@,
            nullifier: self.nullifier@,
            value: self.value,
            extra: self.extra@,
        }
    }
}

impl PublicStatementView {
    /// A statement that has an encoding which decodes to it: three 32-byte
    /// fields and an extension whose length fits in four bytes.
    pub open spec fn valid(self) -> bool {
        &&& self.merkle_root.len() == 32
        &&& self.public_key.len() == 32
        &&& self.nullifier.len() == 32
        &&& self.extra.len() < 0x1_0000_0000
    }

    /// `merkle_root ‖ public_key ‖ nullifier ‖ value (16, little-endian) ‖
    /// extra length (4, little-endian) ‖ extra`.
    pub open spec fn encoding(self) -> Seq<u8> {
        self.merkle_root + self.public_key + self.nullifier + le_bytes(self.value as nat, 16)
            + le_bytes(self.extra.len(), 4) + self.extra
    }

    /// The statement that a byte string holds, if it holds one. Bytes after
    /// the extension are not read.
    pub open spec fn decoding(bytes: Seq<u8>) -> Option<PublicStatementView> {
        if bytes.len() < 116 {
            None
        } else {
            let extra_len = le_value(bytes.subrange(112, 116)) as int;
            if bytes.len() < 116 + extra_len {
                None
            } else {
                Some(
                    PublicStatementView {
                        merkle_root: bytes.subrange(0, 32),
                        public_key: bytes.subrange(32, 64),
                        nullifier: bytes.subrange(64, 96),
                        value: le_value(bytes.subrange(96, 112)) as u128,
                        extra: bytes.subrange(116, 116 + extra_len),
                    },
                )
            }
        }
    }
}

/// Decoding the encoding of a valid public statement gives the statement.
pub proof fn lemma_public_statement_roundtrip(x: PublicStatementView)
    requires
        x.valid(),
    ensures
        PublicStatementView::decoding(x.encoding()) == Some(x),
{
    let bytes = x.encoding();
    let value_bytes = le_bytes(x.value as nat, 16);
    let len_bytes = le_bytes(x.extra.len(), 4);
    lemma_le_bytes_len(x.value as nat, 16);
    lemma_le_bytes_len(x.extra.len(), 4);
    lemma_pow256_values();
    lemma_le_value_of_bytes(x.value as nat, 16);
    lemma_le_value_of_bytes(x.extra.len(), 4);
    assert(bytes.len() == 116 + x.extra.len());
    assert(bytes.subrange(0, 32) =~= x.merkle_root);
    assert(bytes.subrange(32, 64) =~= x.public_key);
    assert(bytes.subrange(64, 96) =~= x.nullifier);
    assert(bytes.subrange(96, 112) =~= value_bytes);
    assert(bytes.subrange(112, 116) =~= len_bytes);
    assert(bytes.subrange(116, 116 + x.extra.len() as int) =~= x.extra);
}

impl PublicStatement {
    /// A statement with no extension bytes.
    pub fn new(merkle_root: [u8; 32], public_key: [u8; 32], nullifier: [u8; 32], value: u128) -> (result:
        Self)
        ensures
            result.merkle_root == merkle_root,
            result.public_key == public_key,
            result.nullifier == nullifier,
            result.value == value,
            result.extra@ == Seq::<u8>::empty(),
    {
        PublicStatement { merkle_root, public_key, nullifier, value, extra: Vec::new() }
    }

    /// A statement with extension bytes.
    pub fn with_extra(
        merkle_root: [u8; 32],
        public_key: [u8; 32],
        nullifier: [u8; 32],
        value: u128,
        extra: Vec<u8>,
    ) -> (result: Self)
        ensures
            result.merkle_root == merkle_root,
            result.public_key == public_key,
            result.nullifier == nullifier,
            result.value == value,
            result.extra == extra,
    {
        PublicStatement { merkle_root, public_key, nullifier, value, extra }
    }

    /// The encoding of this statement. The length field holds the low four
    /// bytes of the extension's length.
    pub fn encode(&self) -> (out: Vec<u8>)
        ensures
            out@ == self@.encoding(),
    {
        let mut buf: Vec<u8> = Vec::new();
        append_bytes(&mut buf, self.merkle_root.as_slice());
        append_bytes(&mut buf, self.public_key.as_slice());
        append_bytes(&mut buf, self.nullifier.as_slice());
        append_le(&mut buf, self.value, 16);
        append_le(&mut buf, self.extra.len() as u128, 4);
        append_bytes(&mut buf, self.extra.as_slice());
        assert(buf@ =~= self@.encoding());
        buf
    }

    /// Reads a statement. `None` where the buffer is shorter than 116 bytes
    /// or than the extension length it declares.
    pub fn decode(bytes: &[u8]) -> (result: Option<PublicStatement>)
        ensures
            match result {
                Some(s) => PublicStatementView::decoding(bytes@) == Some(s@),
                None => PublicStatementView::decoding(bytes@).is_none(),
            },
    {
        if bytes.len() < 116 {
            return None;
        }
        let merkle_root = read_array32(bytes, 0);
        let public_key = read_array32(bytes, 32);
        let nullifier = read_array32(bytes, 64);
        let value: u128 = read_le(bytes, 96, 16);
        let extra_len_wide: u128 = read_le(bytes, 112, 4);
        proof {
            lemma_le_value_bound(bytes@.subrange(112, 116));
            lemma_le_value_bound(bytes@.subrange(96, 112));
            lemma_pow256_values();
        }
        let extra_len: usize = extra_len_wide as usize;
        if bytes.len() - 116 < extra_len {
            return None;
        }
        let extra = copy_range(bytes, 116, extra_len);
        Some(PublicStatement { merkle_root, public_key, nullifier, value, extra })
    }

    /// Length of the encoding.
    pub fn encoded_size(&self) -> (size: usize)
        requires
            116 + self.extra@.len() <= usize::MAX,
        ensures
            size == 116 + self.extra@.len(),
    {
        116 + self.extra.len()
    }
}

/// The envelope in which every proof arrives.
#[derive(Debug, Clone, PartialEq, Eq)]
pub struct UniversalProof {
    /// Protocol version; only version 1 exists.
    pub version: u8,
    /// Proof system that made the proof.
    pub proof_type: ProofType,
    /// Circuit the proof belongs to.
    pub program_id: u32,
    /// Hash of the verification key the proof is to be checked against.
    pub vk_hash: [u8; 32],
    /// The proof in its system's own encoding.
    pub proof_bytes: Vec<u8>,
    /// The encoded public inputs.
    pub public_inputs_bytes: Vec<u8>,
}

/// A `UniversalProof` as plain values.
pub struct UniversalProofView {
    pub version: u8,
    pub proof_type: ProofType,
    pub program_id: u32,
    pub vk_hash: Seq<u8>,
    pub proof_bytes: Seq<u8>,
    pub public_inputs_bytes: Seq<u8>,
}

impl View for UniversalProof {
    type V = UniversalProofView;

    open spec fn view(&self) -> UniversalProofView {
        UniversalProofView {
            version: self.version,
            proof_type: self.proof_type,
            program_id: self.program_id,
            vk_hash: self.vk_hash@,
            proof_bytes: self.proof_bytes@,
            public_inputs_bytes: self.public_inputs_bytes@,
        }
    }
}

impl UniversalProofView {
    /// An envelope that has an encoding which decodes to it: version 1, a
    /// 32-byte key hash, and two payloads whose lengths fit in four bytes.
    pub open spec fn valid(self) -> bool {
        &&& self.version == 1
        &&& self.vk_hash.len() == 32
        &&& self.proof_bytes.len() < 0x1_0000_0000
        &&& self.public_inputs_bytes.len() < 0x1_0000_0000
    }

    /// `version ‖ proof_type ‖ program_id (4, little-endian) ‖ vk_hash (32) ‖
    /// proof length (4, little-endian) ‖ proof ‖ inputs length (4,
    /// little-endian) ‖ inputs`.
    pub open spec fn encoding(self) -> Seq<u8> {
        seq![self.version, self.proof_type.code()] + le_bytes(self.program_id as nat, 4)
            + self.vk_hash + le_bytes(self.proof_bytes.len(), 4) + self.proof_bytes + le_bytes(
            self.public_inputs_bytes.len(),
            4,
        ) + self.public_inputs_bytes
    }

    /// The envelope that a byte string holds, if it holds one: the buffer has
    /// at least 46 bytes, names version 1 and a known proof system, and is
    /// exactly as long as the two lengths it declares: 46 bytes and the two
    /// payloads. A buffer that is shorter or longer holds no envelope.
    pub open spec fn decoding(bytes: Seq<u8>) -> Option<UniversalProofView> {
        if bytes.len() < 46 || bytes[0] != 1 {
            None
        } else {
            match ProofType::from_code(bytes[1]) {
                None => None,
                Some(proof_type) => {
                    let proof_len = le_value(bytes.subrange(38, 42)) as int;
                    if bytes.len() < 42 + proof_len + 4 {
                        None
                    } else {
                        let inputs_at = 42 + proof_len;
                        let inputs_len = le_value(bytes.subrange(inputs_at, inputs_at + 4)) as int;
                        if bytes.len() != inputs_at + 4 + inputs_len {
                            None
                        } else {
                            Some(
                                UniversalProofView {
                                    version: bytes[0],
                                    proof_type,
                                    program_id: le_value(bytes.subrange(2, 6)) as u32,
                                    vk_hash: bytes.subrange(6, 38),
                                    proof_bytes: bytes.subrange(42, inputs_at),
                                    public_inputs_bytes: bytes.subrange(
                                        inputs_at + 4,
                                        inputs_at + 4 + inputs_len,
                                    ),
                                },
                            )
                        }
                    }
                },
            }
        }
    }
}

/// Decoding the encoding of a valid envelope gives the envelope.
pub proof fn lemma_universal_proof_roundtrip(x: UniversalProofView)
    requires
        x.valid(),
    ensures
        UniversalProofView::decoding(x.encoding()) == Some(x),
{
    let bytes = x.encoding();
    let n = x.proof_bytes.len() as int;
    let m = x.public_inputs_bytes.len() as int;
    lemma_le_bytes_len(x.program_id as nat, 4);
    lemma_le_bytes_len(n as nat, 4);
    lemma_le_bytes_len(m as nat, 4);
    lemma_pow256_values();
    lemma_le_value_of_bytes(x.program_id as nat, 4);
    lemma_le_value_of_bytes(n as nat, 4);
    lemma_le_value_of_bytes(m as nat, 4);
    assert(bytes.len() == 46 + n + m);
    assert(bytes[0] == x.version);
    assert(bytes[1] == x.proof_type.code());
    assert(bytes.subrange(2, 6) =~= le_bytes(x.program_id as nat, 4));
    assert(bytes.subrange(6, 38) =~= x.vk_hash);
    assert(bytes.subrange(38, 42) =~= le_bytes(n as nat, 4));
    assert(bytes.subrange(42, 42 + n) =~= x.proof_bytes);
    assert(bytes.subrange(42 + n, 42 + n + 4) =~= le_bytes(m as nat, 4));
    assert(bytes.subrange(42 + n + 4, 42 + n + 4 + m) =~= x.public_inputs_bytes);
}

/// A byte string holds one envelope at most, and is the encoding of the
/// envelope it holds.
pub proof fn lemma_universal_proof_decoding_is_exact(bytes: Seq<u8>, x: UniversalProofView)
    requires
        UniversalProofView::decoding(bytes) == Some(x),
    ensures
        x.encoding() == bytes,
        x.valid(),
{
    let n = x.proof_bytes.len() as int;
    let m = x.public_inputs_bytes.len() as int;
    lemma_pow256_values();
    lemma_le_value_bound(bytes.subrange(2, 6));
    lemma_le_value_bound(bytes.subrange(38, 42));
    lemma_le_value_bound(bytes.subrange(42 + n, 46 + n));
    lemma_le_bytes_of_value(bytes.subrange(2, 6));
    lemma_le_bytes_of_value(bytes.subrange(38, 42));
    lemma_le_bytes_of_value(bytes.subrange(42 + n, 46 + n));
    assert(n == le_value(bytes.subrange(38, 42)));
    assert(m == le_value(bytes.subrange(42 + n, 46 + n)));
    assert(bytes.len() == 46 + n + m);
    lemma_le_bytes_len(x.program_id as nat, 4);
    lemma_le_bytes_len(n as nat, 4);
    lemma_le_bytes_len(m as nat, 4);
    assert(x.encoding() =~= bytes);
}

impl UniversalProof {
    /// An envelope of the current version, 1.
    pub fn new(
        proof_type: ProofType,
        program_id: u32,
        vk_hash: [u8; 32],
        proof_bytes: Vec<u8>,
        public_inputs_bytes: Vec<u8>,
    ) -> (result: Self)
        ensures
            result.version == 1,
            result.proof_type == proof_type,
            result.program_id == program_id,
            result.vk_hash == vk_hash,
            result.proof_bytes == proof_bytes,
            result.public_inputs_bytes == public_inputs_bytes,
    {
        UniversalProof { version: 1, proof_type, program_id, vk_hash, proof_bytes, public_inputs_bytes }
    }

    /// The encoding of this envelope. Each length field holds the low four
    /// bytes of its payload's length.
    pub fn encode(&self) -> (out: Vec<u8>)
        ensures
            out@ == self@.encoding(),
    {
        let mut buf: Vec<u8> = Vec::new();
        buf.push(self.version);
        buf.push(self.proof_type.to_u8());
        assert(buf@ =~= seq![self.version, self.proof_type.code()]);
        append_le(&mut buf, self.program_id as u128, 4);
        append_bytes(&mut buf, self.vk_hash.as_slice());
        append_le(&mut buf, self.proof_bytes.len() as u128, 4);
        append_bytes(&mut buf, self.proof_bytes.as_slice());
        append_le(&mut buf, self.public_inputs_bytes.len() as u128, 4);
        append_bytes(&mut buf, self.public_inputs_bytes.as_slice());
        buf
    }

    /// Reads an envelope. `None` where the buffer is shorter than 46 bytes,
    /// names another version than 1 or an unknown proof system, or is not
    /// exactly as long as the lengths it declares.
    pub fn decode(bytes: &[u8]) -> (result: Option<UniversalProof>)
        ensures
            match result {
                Some(p) => UniversalProofView::decoding(bytes@) == Some(p@),
                None => UniversalProofView::decoding(bytes@).is_none(),
            },
    {
        if bytes.len() < 46 {
            return None;
        }
        let version: u8 = bytes[0];
        if version != 1 {
            return None;
        }
        let proof_type = match ProofType::from_u8(bytes[1]) {
            Some(t) => t,
            None => {
                return None;
            },
        };
        let program_id_wide: u128 = read_le(bytes, 2, 4);
        let vk_hash = read_array32(bytes, 6);
        let proof_len_wide: u128 = read_le(bytes, 38, 4);
        proof {
            lemma_le_value_bound(bytes@.subrange(2, 6));
            lemma_le_value_bound(bytes@.subrange(38, 42));
            lemma_pow256_values();
        }
        let program_id: u32 = program_id_wide as u32;
        let proof_len: usize = proof_len_wide as usize;
        // 46 bytes are there, so 42 and then 4 more can be taken off.
        if bytes.len() - 46 < proof_len {
            return None;
        }
        let proof_bytes = copy_range(bytes, 42, proof_len);
        let inputs_at: usize = 42 + proof_len;
        let inputs_len_wide: u128 = read_le(bytes, inputs_at, 4);
        proof {
            lemma_le_value_bound(bytes@.subrange(inputs_at as int, inputs_at + 4));
        }
        let inputs_len: usize = inputs_len_wide as usize;
        if bytes.len() - inputs_at - 4 != inputs_len {
            return None;
        }
        let public_inputs_bytes = copy_range(bytes, inputs_at + 4, inputs_len);
        Some(
            UniversalProof {
                version,
                proof_type,
                program_id,
                vk_hash,
                proof_bytes,
                public_inputs_bytes,
            },
        )
    }

    /// Length of the encoding.
    pub fn encoded_size(&self) -> (size: usize)
        requires
            46 + self.proof_bytes@.len() + self.public_inputs_bytes@.len() <= usize::MAX,
        ensures
            size == 46 + self.proof_bytes@.len() + self.public_inputs_bytes@.len(),
    {
        46 + self.proof_bytes.len() + self.public_inputs_bytes.len()
    }

    /// The public statement that the public inputs hold, if they hold one.
    pub fn decode_public_statement(&self) -> (result: Option<PublicStatement>)
        ensures
            match result {
                Some(s) => PublicStatementView::decoding(self.public_inputs_bytes@) == Some(s@),
                None => PublicStatementView::decoding(self.public_inputs_bytes@).is_none(),
            },
    {
        PublicStatement::decode(self.public_inputs_bytes.as_slice())
    }
}

} // verus!
