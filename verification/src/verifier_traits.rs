//! The capability that every proof system offers: what it assumes, what it
//! costs, whether it recurses, and its verdict on a proof.

use vstd::prelude::*;

verus! {

/// How the parameters of a proof system come about.
#[derive(Debug, Clone, Copy, PartialEq, Eq, Structural)]
pub enum SetupType {
    /// A ceremony for each circuit.
    Trusted,
    /// One ceremony for all circuits up to a size.
    Universal,
    /// No ceremony.
    Transparent,
}

impl SetupType {
    pub open spec fn code(self) -> u8 {
        match self {
            SetupType::Trusted => 0,
            SetupType::Universal => 1,
            SetupType::Transparent => 2,
        }
    }

    pub open spec fn from_code(value: u8) -> Option<SetupType> {
        if value == 0 {
            Some(SetupType::Trusted)
        } else if value == 1 {
            Some(SetupType::Universal)
        } else if value == 2 {
            Some(SetupType::Transparent)
        } else {
            None
        }
    }

    pub fn from_u8(value: u8) -> (result: Option<SetupType>)
        ensures
            result == Self::from_code(value),
    {
        match value {
            0 => Some(SetupType::Trusted),
            1 => Some(SetupType::Universal),
            2 => Some(SetupType::Transparent),
            _ => None,
        }
    }

    pub fn to_u8(self) -> (result: u8)
        ensures
            result == self.code(),
    {
        match self {
            SetupType::Trusted => 0,
            SetupType::Universal => 1,
            SetupType::Transparent => 2,
        }
    }
}

/// The hardness assumption under a proof system.
#[derive(Debug, Clone, Copy, PartialEq, Eq, Structural)]
pub enum CryptoAssumption {
    DiscreteLog,
    Pairing,
    HashBased,
    Lattice,
}

impl CryptoAssumption {
    pub open spec fn code(self) -> u8 {
        match self {
            CryptoAssumption::DiscreteLog => 0,
            CryptoAssumption::Pairing => 1,
            CryptoAssumption::HashBased => 2,
            CryptoAssumption::Lattice => 3,
        }
    }

    pub open spec fn from_code(value: u8) -> Option<CryptoAssumption> {
        if value == 0 {
            Some(CryptoAssumption::DiscreteLog)
        } else if value == 1 {
            Some(CryptoAssumption::Pairing)
        } else if value == 2 {
            Some(CryptoAssumption::HashBased)
        } else if value == 3 {
            Some(CryptoAssumption::Lattice)
        } else {
            None
        }
    }

    /// Hash-based and lattice-based assumptions hold against quantum
    /// attackers; the others do not.
    pub open spec fn post_quantum(self) -> bool {
        self == CryptoAssumption::HashBased || self == CryptoAssumption::Lattice
    }

    pub fn from_u8(value: u8) -> (result: Option<CryptoAssumption>)
        ensures
            result == Self::from_code(value),
    {
        match value {
            0 => Some(CryptoAssumption::DiscreteLog),
            1 => Some(CryptoAssumption::Pairing),
            2 => Some(CryptoAssumption::HashBased),
            3 => Some(CryptoAssumption::Lattice),
            _ => None,
        }
    }

    pub fn to_u8(self) -> (result: u8)
        ensures
            result == self.code(),
    {
        match self {
            CryptoAssumption::DiscreteLog => 0,
            CryptoAssumption::Pairing => 1,
            CryptoAssumption::HashBased => 2,
            CryptoAssumption::Lattice => 3,
        }
    }

    pub fn is_post_quantum_secure(self) -> (result: bool)
        ensures
            result == self.post_quantum(),
    {
        match self {
            CryptoAssumption::HashBased => true,
            CryptoAssumption::Lattice => true,
            _ => false,
        }
    }
}

/// The security properties that a proof system declares.
#[derive(Debug, Clone, Copy, PartialEq, Eq, Structural)]
pub struct SecurityModel {
    pub setup_type: SetupType,
    pub crypto_assumption: CryptoAssumption,
    pub post_quantum_secure: bool,
    pub security_bits: u8,
    pub formally_verified: bool,
}

impl SecurityModel {
    /// The five bytes of a model: setup, assumption, post-quantum flag,
    /// security bits, verified flag; a flag is 1 or 0.
    pub open spec fn encoding(self) -> Seq<u8> {
        seq![
            self.setup_type.code(),
            self.crypto_assumption.code(),
            if self.post_quantum_secure { 1u8 } else { 0u8 },
            self.security_bits,
            if self.formally_verified { 1u8 } else { 0u8 },
        ]
    }

    /// The model that five bytes hold, if the first two name a setup and an
    /// assumption; a flag is set by any byte but 0.
    pub open spec fn decoding(bytes: Seq<u8>) -> Option<SecurityModel> {
        match (SetupType::from_code(bytes[0]), CryptoAssumption::from_code(bytes[1])) {
            (Some(setup_type), Some(crypto_assumption)) => Some(
                SecurityModel {
                    setup_type,
                    crypto_assumption,
                    post_quantum_secure: bytes[2] != 0,
                    security_bits: bytes[3],
                    formally_verified: bytes[4] != 0,
                },
            ),
            _ => None,
        }
    }

    /// Decoding the encoding of a model gives the model.
    pub proof fn lemma_roundtrip(self)
        ensures
            Self::decoding(self.encoding()) == Some(self),
    {
    }

    /// A model that is not formally verified; it is post-quantum secure
    /// exactly if its assumption is.
    pub fn new(setup_type: SetupType, crypto_assumption: CryptoAssumption, security_bits: u8) -> (result:
        Self)
        ensures
            result == (SecurityModel {
                setup_type,
                crypto_assumption,
                post_quantum_secure: crypto_assumption.post_quantum(),
                security_bits,
                formally_verified: false,
            }),
    {
        SecurityModel {
            setup_type,
            crypto_assumption,
            post_quantum_secure: crypto_assumption.is_post_quantum_secure(),
            security_bits,
            formally_verified: false,
        }
    }

    /// Groth16 over BN254.
    pub fn groth16_bn254() -> (result: Self)
        ensures
            result == (SecurityModel {
                setup_type: SetupType::Trusted,
                crypto_assumption: CryptoAssumption::Pairing,
                post_quantum_secure: false,
                security_bits: 128,
                formally_verified: true,
            }),
    {
        SecurityModel {
            setup_type: SetupType::Trusted,
            crypto_assumption: CryptoAssumption::Pairing,
            post_quantum_secure: false,
            security_bits: 128,
            formally_verified: true,
        }
    }

    /// PLONK with KZG commitments over BN254.
    pub fn plonk_kzg_bn254() -> (result: Self)
        ensures
            result == (SecurityModel {
                setup_type: SetupType::Universal,
                crypto_assumption: CryptoAssumption::Pairing,
                post_quantum_secure: false,
                security_bits: 128,
                formally_verified: false,
            }),
    {
        SecurityModel {
            setup_type: SetupType::Universal,
            crypto_assumption: CryptoAssumption::Pairing,
            post_quantum_secure: false,
            security_bits: 128,
            formally_verified: false,
        }
    }

    /// STARK with FRI.
    pub fn stark_fri() -> (result: Self)
        ensures
            result == (SecurityModel {
                setup_type: SetupType::Transparent,
                crypto_assumption: CryptoAssumption::HashBased,
                post_quantum_secure: true,
                security_bits: 128,
                formally_verified: false,
            }),
    {
        SecurityModel {
            setup_type: SetupType::Transparent,
            crypto_assumption: CryptoAssumption::HashBased,
            post_quantum_secure: true,
            security_bits: 128,
            formally_verified: false,
        }
    }

    pub fn encode(&self) -> (out: [u8; 5])
        ensures
            out@ == self.encoding(),
    {
        let out: [u8; 5] = [
            self.setup_type.to_u8(),
            self.crypto_assumption.to_u8(),
            if self.post_quantum_secure { 1 } else { 0 },
            self.security_bits,
            if self.formally_verified { 1 } else { 0 },
        ];
        assert(out@ =~= self.encoding());
        out
    }

    pub fn decode(bytes: &[u8; 5]) -> (result: Option<Self>)
        ensures
            result == Self::decoding(bytes@),
    {
        let setup_type = match SetupType::from_u8(bytes[0]) {
            Some(s) => s,
            None => {
                return None;
            },
        };
        let crypto_assumption = match CryptoAssumption::from_u8(bytes[1]) {
            Some(c) => c,
            None => {
                return None;
            },
        };
        Some(
            SecurityModel {
                setup_type,
                crypto_assumption,
                post_quantum_secure: bytes[2] != 0,
                security_bits: bytes[3],
                formally_verified: bytes[4] != 0,
            },
        )
    }
}

/// Which proof systems a verifier can check from inside a proof.
#[derive(Debug, Clone, Copy, PartialEq, Eq, Structural)]
pub struct RecursionSupport {
    pub can_verify_groth16: bool,
    pub can_verify_plonk: bool,
    pub can_verify_stark: bool,
    /// Deepest nesting; 0 for none.
    pub max_depth: u8,
}

impl RecursionSupport {
    /// The four bytes of a declaration: three flags, 1 or 0, then the depth.
    pub open spec fn encoding(self) -> Seq<u8> {
        seq![
            if self.can_verify_groth16 { 1u8 } else { 0u8 },
            if self.can_verify_plonk { 1u8 } else { 0u8 },
            if self.can_verify_stark { 1u8 } else { 0u8 },
            self.max_depth,
        ]
    }

    /// No recursion.
    pub fn none() -> (result: Self)
        ensures
            result == (RecursionSupport {
                can_verify_groth16: false,
                can_verify_plonk: false,
                can_verify_stark: false,
                max_depth: 0,
            }),
    {
        RecursionSupport {
            can_verify_groth16: false,
            can_verify_plonk: false,
            can_verify_stark: false,
            max_depth: 0,
        }
    }

    /// Every proof system, to the given depth.
    pub fn full(max_depth: u8) -> (result: Self)
        ensures
            result == (RecursionSupport {
                can_verify_groth16: true,
                can_verify_plonk: true,
                can_verify_stark: true,
                max_depth,
            }),
    {
        RecursionSupport {
            can_verify_groth16: true,
            can_verify_plonk: true,
            can_verify_stark: true,
            max_depth,
        }
    }

    /// The pairing-based systems only, to the given depth.
    pub fn snark_only(max_depth: u8) -> (result: Self)
        ensures
            result == (RecursionSupport {
                can_verify_groth16: true,
                can_verify_plonk: true,
                can_verify_stark: false,
                max_depth,
            }),
    {
        RecursionSupport {
            can_verify_groth16: true,
            can_verify_plonk: true,
            can_verify_stark: false,
            max_depth,
        }
    }

    pub fn encode(&self) -> (out: [u8; 4])
        ensures
            out@ == self.encoding(),
    {
        let out: [u8; 4] = [
            if self.can_verify_groth16 { 1 } else { 0 },
            if self.can_verify_plonk { 1 } else { 0 },
            if self.can_verify_stark { 1 } else { 0 },
            self.max_depth,
        ];
        assert(out@ =~= self.encoding());
        out
    }
}

/// The gas that a verification costs, as a line in the number of public
/// inputs and in the number of proof bytes.
#[derive(Debug, Clone, Copy, PartialEq, Eq, Structural)]
pub struct GasCost {
    pub base: u64,
    pub per_public_input: u64,
    pub per_proof_byte: u64,
}

impl GasCost {
    /// `base + per_public_input * public_inputs + per_proof_byte * proof_bytes`.
    pub open spec fn total(self, public_inputs: int, proof_bytes: int) -> int {
        self.base + self.per_public_input * public_inputs + self.per_proof_byte * proof_bytes
    }

    /// The gas for one proof. The estimate has to fit in 64 bits.
    pub fn estimate(&self, public_inputs: usize, proof_bytes: usize) -> (gas: u64)
        requires
            self.total(public_inputs as int, proof_bytes as int) <= u64::MAX,
        ensures
            gas == self.total(public_inputs as int, proof_bytes as int),
    {
        proof {
            assert(self.per_public_input * public_inputs >= 0) by (nonlinear_arith);
            assert(self.per_proof_byte * proof_bytes >= 0) by (nonlinear_arith);
        }
        self.base + self.per_public_input * (public_inputs as u64) + self.per_proof_byte * (
        proof_bytes as u64)
    }

    /// Groth16: 250,000 gas and 40,000 for each public input.
    pub fn groth16() -> (result: Self)
        ensures
            result == (GasCost { base: 250_000, per_public_input: 40_000, per_proof_byte: 0 }),
    {
        GasCost { base: 250_000, per_public_input: 40_000, per_proof_byte: 0 }
    }

    /// PLONK: 350,000 gas and 10,000 for each public input.
    pub fn plonk() -> (result: Self)
        ensures
            result == (GasCost { base: 350_000, per_public_input: 10_000, per_proof_byte: 0 }),
    {
        GasCost { base: 350_000, per_public_input: 10_000, per_proof_byte: 0 }
    }

    /// STARK: 200,000 gas, 5,000 for each public input and 10 for each proof
    /// byte.
    pub fn stark() -> (result: Self)
        ensures
            result == (GasCost { base: 200_000, per_public_input: 5_000, per_proof_byte: 10 }),
    {
        GasCost { base: 200_000, per_public_input: 5_000, per_proof_byte: 10 }
    }
}

/// A verdict with what came with it.
#[derive(Debug, Clone)]
pub struct VerifyResult {
    /// Whether the proof is valid.
    pub valid: bool,
    /// Gas consumed, where it was measured.
    pub gas_used: Option<u64>,
    /// Why the proof was not accepted.
    pub error_message: Option<&'static str>,
}

impl VerifyResult {
    /// The verdict that a proof is valid.
    pub fn valid() -> (result: Self)
        ensures
            result.valid,
            result.gas_used.is_none(),
            result.error_message.is_none(),
    {
        VerifyResult { valid: true, gas_used: None, error_message: None }
    }

    /// The verdict that a proof is not valid, with the reason.
    pub fn invalid(reason: &'static str) -> (result: Self)
        ensures
            !result.valid,
            result.gas_used.is_none(),
            result.error_message == Some(reason),
    {
        VerifyResult { valid: false, gas_used: None, error_message: Some(reason) }
    }
}

/// `count` verdicts that a proof is not valid, each with the same reason.
pub fn all_invalid(count: usize, reason: &'static str) -> (results: Vec<VerifyResult>)
    ensures
        results@.len() == count,
        forall|i: int|
            0 <= i < count ==> !(#[trigger] results@[i]).valid && results@[i].gas_used.is_none()
                && results@[i].error_message == Some(reason),
{
    let mut results: Vec<VerifyResult> = Vec::new();
    let mut i: usize = 0;
    while i < count
        invariant
            i <= count,
            results@.len() == i,
            forall|k: int|
                0 <= k < i ==> !(#[trigger] results@[k]).valid && results@[k].gas_used.is_none()
                    && results@[k].error_message == Some(reason),
        decreases count - i,
    {
        results.push(VerifyResult::invalid(reason));
        i = i + 1;
    }
    results
}

/// A result for each verdict of a list: that the proof is valid, or that it
/// is not, with the given reason.
pub fn results_of(verdicts: &[bool], reason: &'static str) -> (results: Vec<VerifyResult>)
    ensures
        results@.len() == verdicts@.len(),
        forall|i: int|
            0 <= i < results@.len() ==> (#[trigger] results@[i]).valid == verdicts@[i]
                && results@[i].gas_used.is_none() && results@[i].error_message == if verdicts@[i] {
                None::<&'static str>
            } else {
                Some(reason)
            },
{
    let mut results: Vec<VerifyResult> = Vec::new();
    let mut i: usize = 0;
    while i < verdicts.len()
        invariant
            i <= verdicts@.len(),
            results@.len() == i,
            forall|k: int|
                0 <= k < i ==> (#[trigger] results@[k]).valid == verdicts@[k]
                    && results@[k].gas_used.is_none() && results@[k].error_message
                    == if verdicts@[k] {
                    None::<&'static str>
                } else {
                    Some(reason)
                },
        decreases verdicts@.len() - i,
    {
        if verdicts[i] {
            results.push(VerifyResult::valid());
        } else {
            results.push(VerifyResult::invalid(reason));
        }
        i = i + 1;
    }
    results
}

/// What every proof system offers.
pub trait ZkVerifier {
    /// The verdict on a proof, as the proof system defines it.
    spec fn verdict(proof_bytes: Seq<u8>, public_inputs: Seq<u8>, vk: Seq<u8>) -> bool;

    /// The cost model of the proof system.
    spec fn cost_model() -> GasCost;

    /// The number of the proof system, as `ProofType` has it.
    fn proof_system_id() -> u8;

    /// The name of the proof system.
    fn name() -> &'static str;

    fn security_model() -> SecurityModel;

    fn gas_cost_model() -> (model: GasCost)
        ensures
            model == Self::cost_model(),
    ;

    fn recursion_support() -> RecursionSupport;

    /// Verifies one proof.
    fn verify(proof_bytes: &[u8], public_inputs: &[u8], vk: &[u8]) -> (result: VerifyResult)
        ensures
            result.valid == Self::verdict(proof_bytes@, public_inputs@, vk@),
    ;

    /// Verifies proofs against one key. For lists of one length there is a
    /// verdict on each proof, the verdict that `verify` gives on it alone.
    /// Where the lists differ in length, no proof without public inputs is
    /// found valid; as given here, the tail of the longer list is not read.
    fn batch_verify(proofs: &[Vec<u8>], public_inputs: &[Vec<u8>], vk: &[u8]) -> (results: Vec<
        VerifyResult,
    >)
        ensures
            results@.len() <= proofs@.len(),
            proofs@.len() == public_inputs@.len() ==> results@.len() == proofs@.len(),
            forall|i: int|
                0 <= i < results@.len() ==> if proofs@.len() == public_inputs@.len() {
                    (#[trigger] results@[i]).valid == Self::verdict(
                        proofs@[i]@,
                        public_inputs@[i]@,
                        vk@,
                    )
                } else {
                    results@[i].valid ==> i < public_inputs@.len() && Self::verdict(
                        proofs@[i]@,
                        public_inputs@[i]@,
                        vk@,
                    )
                },
    {
        let count: usize = if proofs.len() <= public_inputs.len() {
            proofs.len()
        } else {
            public_inputs.len()
        };
        let mut results: Vec<VerifyResult> = Vec::new();
        let mut i: usize = 0;
        while i < count
            invariant
                i <= count,
                count <= proofs@.len(),
                count <= public_inputs@.len(),
                results@.len() == i,
                forall|k: int|
                    0 <= k < i ==> (#[trigger] results@[k]).valid == Self::verdict(
                        proofs@[k]@,
                        public_inputs@[k]@,
                        vk@,
                    ),
            decreases count - i,
        {
            results.push(Self::verify(proofs[i].as_slice(), public_inputs[i].as_slice(), vk));
            i = i + 1;
        }
        results
    }

    /// The gas that the cost model gives for a proof. The estimate has to fit
    /// in 64 bits.
    fn estimate_gas(proof_size: usize, public_input_count: usize) -> (gas: u64)
        requires
            Self::cost_model().total(public_input_count as int, proof_size as int) <= u64::MAX,
        ensures
            gas == Self::cost_model().total(public_input_count as int, proof_size as int),
    {
        Self::gas_cost_model().estimate(public_input_count, proof_size)
    }
}

} // verus!
