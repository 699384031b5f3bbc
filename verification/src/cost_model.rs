//! Gas estimates before verification.
//!
//! The estimate of a proof is its proof system's cost line at the proof's
//! size and number of public inputs. Estimates are compared, summed with a
//! batch discount, and held against a budget.

use crate::pow2::{ilog2, log2_floor};
use crate::types::{ProofType, UniversalProofDescriptor};
use crate::verifier_traits::GasCost;
use vstd::prelude::*;

verus! {

/// The estimated cost of one verification, with the figures it was made
/// from.
#[derive(Debug, Clone, Copy, PartialEq, Eq, Structural)]
pub struct VerificationCost {
    /// Constant overhead.
    pub base_gas: u64,
    /// Gas for each public input.
    pub per_input_gas: u64,
    /// Gas for each proof byte.
    pub per_byte_gas: u64,
    /// Number of public inputs.
    pub public_input_count: usize,
    /// Proof size in bytes.
    pub proof_size: usize,
    /// The estimate.
    pub estimated_total: u64,
    /// Proof system the estimate is for.
    pub proof_system: ProofType,
}

/// Shares of an estimate, in percent, each rounded down.
#[derive(Debug, Clone, Copy)]
pub struct CostBreakdown {
    pub base_pct: u64,
    pub input_pct: u64,
    pub byte_pct: u64,
}

/// Which of two estimates is lower.
#[derive(Debug, Clone, Copy, PartialEq, Eq, Structural)]
pub enum CostComparison {
    FirstCheaper,
    SecondCheaper,
    Equal,
}

/// Gas limits to send a verification with.
#[derive(Debug, Clone, Copy)]
pub struct GasLimitRecommendation {
    /// The estimate.
    pub minimum: u64,
    /// The estimate and a fifth.
    pub recommended: u64,
    /// The estimate and a half.
    pub maximum: u64,
}

/// The cost line of a proof system; an unknown number is costed as Groth16.
pub open spec fn model_of(proof_system_id: u8) -> GasCost {
    if proof_system_id == 1 {
        GasCost { base: 350_000, per_public_input: 10_000, per_proof_byte: 0 }
    } else if proof_system_id == 2 {
        GasCost { base: 200_000, per_public_input: 5_000, per_proof_byte: 10 }
    } else {
        GasCost { base: 250_000, per_public_input: 40_000, per_proof_byte: 0 }
    }
}

/// The proof system of a number; an unknown number counts as Groth16.
pub open spec fn system_of(proof_system_id: u8) -> ProofType {
    if proof_system_id == 1 {
        ProofType::PLONK
    } else if proof_system_id == 2 {
        ProofType::STARK
    } else {
        ProofType::Groth16
    }
}

/// The estimate that a cost line gives.
pub open spec fn cost_of(
    model: GasCost,
    public_inputs: usize,
    proof_size: usize,
    proof_system: ProofType,
) -> VerificationCost {
    VerificationCost {
        base_gas: model.base,
        per_input_gas: model.per_public_input,
        per_byte_gas: model.per_proof_byte,
        public_input_count: public_inputs,
        proof_size,
        estimated_total: model.total(public_inputs as int, proof_size as int) as u64,
        proof_system,
    }
}

/// The size of a PLONK proof for a circuit: 800 bytes and 64 for each bit
/// of the circuit size.
pub open spec fn plonk_proof_size(circuit_size: usize) -> int {
    800 + log2_floor(circuit_size as nat) as int * 64
}

/// The size of a STARK proof: 40,000 bytes and 2,000 for each bit of the
/// trace length, counted from 64 up, times a 32nd of the security bits.
pub open spec fn stark_proof_size(trace_length: usize, security_bits: u8) -> int {
    let length: nat = if trace_length < 64 {
        64
    } else {
        trace_length as nat
    };
    40_000 + log2_floor(length) as int * (security_bits as int / 32) * 2_000
}

/// The sum of the first `n` estimates.
pub open spec fn sum_of_totals(costs: Seq<VerificationCost>, n: nat) -> nat
    decreases n,
{
    if n == 0 {
        0
    } else {
        sum_of_totals(costs, (n - 1) as nat) + costs[n - 1].estimated_total as nat
    }
}

/// The discount on a batch, in percent: five for each proof after the
/// first, thirty at most.
pub open spec fn batch_discount_pct(count: nat) -> nat {
    if count == 0 {
        0
    } else if (count - 1) * 5 >= 30 {
        30
    } else {
        ((count - 1) * 5) as nat
    }
}

impl VerificationCost {
    /// The estimate for a Groth16 proof of 256 bytes.
    pub fn for_groth16(public_inputs: usize) -> (cost: Self)
        requires
            250_000 + 40_000 * public_inputs <= u64::MAX,
        ensures
            cost == cost_of(model_of(0), public_inputs, 256, ProofType::Groth16),
    {
        let model = GasCost::groth16();
        let proof_size: usize = 256;
        assert(model.total(public_inputs as int, 256) == 250_000 + 40_000 * public_inputs);
        let estimated_total = model.estimate(public_inputs, proof_size);
        VerificationCost {
            base_gas: model.base,
            per_input_gas: model.per_public_input,
            per_byte_gas: model.per_proof_byte,
            public_input_count: public_inputs,
            proof_size,
            estimated_total,
            proof_system: ProofType::Groth16,
        }
    }

    /// The estimate for a PLONK proof of a circuit of the given size.
    pub fn for_plonk(public_inputs: usize, circuit_size: usize) -> (cost: Self)
        requires
            circuit_size > 0,
            350_000 + 10_000 * public_inputs <= u64::MAX,
        ensures
            cost == cost_of(
                model_of(1),
                public_inputs,
                plonk_proof_size(circuit_size) as usize,
                ProofType::PLONK,
            ),
    {
        let model = GasCost::plonk();
        let bits: u32 = ilog2(circuit_size);
        let proof_size: usize = 800 + (bits as usize) * 64;
        assert(model.total(public_inputs as int, proof_size as int) == 350_000 + 10_000
            * public_inputs) by (nonlinear_arith)
            requires
                model.base == 350_000,
                model.per_public_input == 10_000,
                model.per_proof_byte == 0,
        ;
        let estimated_total = model.estimate(public_inputs, proof_size);
        VerificationCost {
            base_gas: model.base,
            per_input_gas: model.per_public_input,
            per_byte_gas: model.per_proof_byte,
            public_input_count: public_inputs,
            proof_size,
            estimated_total,
            proof_system: ProofType::PLONK,
        }
    }

    /// The estimate for a STARK proof with four public inputs.
    pub fn for_stark(trace_length: usize, security_bits: u8) -> (cost: Self)
        ensures
            cost == cost_of(
                model_of(2),
                4,
                stark_proof_size(trace_length, security_bits) as usize,
                ProofType::STARK,
            ),
    {
        let model = GasCost::stark();
        let length: usize = if trace_length < 64 {
            64
        } else {
            trace_length
        };
        let log_trace: usize = ilog2(length) as usize;
        let security_factor: usize = (security_bits / 32) as usize;
        assert(log_trace * security_factor <= 63 * 7) by (nonlinear_arith)
            requires
                log_trace <= 63,
                security_factor <= 7,
        ;
        let proof_size: usize = 40_000 + (log_trace * security_factor * 2_000);
        let estimated_total = model.estimate(4, proof_size);
        VerificationCost {
            base_gas: model.base,
            per_input_gas: model.per_public_input,
            per_byte_gas: model.per_proof_byte,
            public_input_count: 4,
            proof_size,
            estimated_total,
            proof_system: ProofType::STARK,
        }
    }

    /// The estimate for the proof that a descriptor describes.
    pub fn from_descriptor(descriptor: &UniversalProofDescriptor) -> (cost: Self)
        ensures
            cost == cost_of(
                model_of(descriptor.proof_system_id),
                descriptor.public_input_count as usize,
                descriptor.proof_length as usize,
                system_of(descriptor.proof_system_id),
            ),
    {
        let model = match descriptor.proof_system_id {
            1 => GasCost::plonk(),
            2 => GasCost::stark(),
            _ => GasCost::groth16(),
        };
        let proof_type = match descriptor.proof_system_id {
            1 => ProofType::PLONK,
            2 => ProofType::STARK,
            _ => ProofType::Groth16,
        };
        let count: usize = descriptor.public_input_count as usize;
        let size: usize = descriptor.proof_length as usize;
        assert(model.per_public_input * count <= 40_000 * 0xffff) by (nonlinear_arith)
            requires
                model.per_public_input <= 40_000,
                count <= 0xffff,
        ;
        assert(model.per_proof_byte * size <= 10 * 0xffff_ffff) by (nonlinear_arith)
            requires
                model.per_proof_byte <= 10,
                size <= 0xffff_ffff,
        ;
        let estimated_total = model.estimate(count, size);
        VerificationCost {
            base_gas: model.base,
            per_input_gas: model.per_public_input,
            per_byte_gas: model.per_proof_byte,
            public_input_count: count,
            proof_size: size,
            estimated_total,
            proof_system: proof_type,
        }
    }

    /// Whether this estimate is lower than the other.
    pub fn cheaper_than(&self, other: &Self) -> (cheaper: bool)
        ensures
            cheaper == (self.estimated_total < other.estimated_total),
    {
        self.estimated_total < other.estimated_total
    }

    /// The gas saved against the other estimate; negative where this one is
    /// higher. Both estimates have to fit in 63 bits.
    pub fn savings_vs(&self, other: &Self) -> (savings: i64)
        requires
            self.estimated_total <= i64::MAX,
            other.estimated_total <= i64::MAX,
        ensures
            savings == other.estimated_total - self.estimated_total,
    {
        other.estimated_total as i64 - self.estimated_total as i64
    }

    /// Whether the estimate is within the gas limit.
    pub fn within_budget(&self, gas_limit: u64) -> (within: bool)
        ensures
            within == (self.estimated_total <= gas_limit),
    {
        self.estimated_total <= gas_limit
    }

    /// The shares of base, inputs and bytes in the estimate, in percent of
    /// the estimate, or of 1 where the estimate is 0. A hundred times each
    /// part has to fit in 64 bits.
    pub fn cost_breakdown(&self) -> (breakdown: CostBreakdown)
        requires
            self.base_gas * 100 <= u64::MAX,
            self.per_input_gas * self.public_input_count * 100 <= u64::MAX,
            self.per_byte_gas * self.proof_size * 100 <= u64::MAX,
        ensures
            breakdown.base_pct == (self.base_gas * 100) / self.divisor(),
            breakdown.input_pct == (self.per_input_gas * self.public_input_count * 100)
                / self.divisor(),
            breakdown.byte_pct == (self.per_byte_gas * self.proof_size * 100) / self.divisor(),
    {
        proof {
            let a = self.per_input_gas as int;
            let b = self.public_input_count as int;
            assert(0 <= a * b <= a * b * 100) by (nonlinear_arith)
                requires
                    0 <= a,
                    0 <= b,
            ;
            let c = self.per_byte_gas as int;
            let d = self.proof_size as int;
            assert(0 <= c * d <= c * d * 100) by (nonlinear_arith)
                requires
                    0 <= c,
                    0 <= d,
            ;
        }
        let input_cost: u64 = self.per_input_gas * (self.public_input_count as u64);
        let byte_cost: u64 = self.per_byte_gas * (self.proof_size as u64);
        let divisor: u64 = if self.estimated_total == 0 {
            1
        } else {
            self.estimated_total
        };
        CostBreakdown {
            base_pct: (self.base_gas * 100) / divisor,
            input_pct: (input_cost * 100) / divisor,
            byte_pct: (byte_cost * 100) / divisor,
        }
    }

    /// The estimate, or 1 where the estimate is 0.
    pub open spec fn divisor(self) -> int {
        if self.estimated_total == 0 {
            1
        } else {
            self.estimated_total as int
        }
    }
}

/// Which of two estimates is lower.
pub fn compare_costs(a: &VerificationCost, b: &VerificationCost) -> (result: CostComparison)
    ensures
        result == if a.estimated_total < b.estimated_total {
            CostComparison::FirstCheaper
        } else if a.estimated_total > b.estimated_total {
            CostComparison::SecondCheaper
        } else {
            CostComparison::Equal
        },
{
    if a.estimated_total < b.estimated_total {
        CostComparison::FirstCheaper
    } else if a.estimated_total > b.estimated_total {
        CostComparison::SecondCheaper
    } else {
        CostComparison::Equal
    }
}

/// The position of the lowest estimate, the first of them where several are
/// lowest; `None` for no estimates.
pub fn select_cheapest(costs: &[VerificationCost]) -> (result: Option<usize>)
    ensures
        match result {
            None => costs@.len() == 0,
            Some(best) => {
                &&& best < costs@.len()
                &&& forall|j: int|
                    0 <= j < costs@.len() ==> costs@[best as int].estimated_total
                        <= #[trigger] costs@[j].estimated_total
                &&& forall|j: int|
                    0 <= j < best ==> costs@[best as int].estimated_total
                        < #[trigger] costs@[j].estimated_total
            },
        },
{
    if costs.len() == 0 {
        return None;
    }
    let mut best: usize = 0;
    let mut i: usize = 1;
    while i < costs.len()
        invariant
            1 <= i <= costs@.len(),
            best < i,
            forall|j: int|
                0 <= j < i ==> costs@[best as int].estimated_total
                    <= #[trigger] costs@[j].estimated_total,
            forall|j: int|
                0 <= j < best ==> costs@[best as int].estimated_total
                    < #[trigger] costs@[j].estimated_total,
        decreases costs@.len() - i,
    {
        if costs[i].estimated_total < costs[best].estimated_total {
            best = i;
        }
        i = i + 1;
    }
    Some(best)
}

/// Whether the estimate, raised by the safety margin in percent, is within
/// the gas limit. The margin is rounded down.
pub fn should_verify(cost: &VerificationCost, gas_limit: u64, safety_margin_pct: u8) -> (proceed:
    bool)
    ensures
        proceed == (cost.estimated_total + (cost.estimated_total * safety_margin_pct) / 100
            <= gas_limit),
{
    let total: u128 = cost.estimated_total as u128;
    assert(total * safety_margin_pct <= 0xffff_ffff_ffff_ffff * 255) by (nonlinear_arith)
        requires
            total <= 0xffff_ffff_ffff_ffff,
            safety_margin_pct <= 255,
    ;
    let margin: u128 = (total * (safety_margin_pct as u128)) / 100;
    total + margin <= gas_limit as u128
}

/// The cost of verifying the proofs as one batch: the sum of the estimates
/// less the batch discount, which is rounded down. The sum has to fit in 64
/// bits.
pub fn estimate_batch_cost(costs: &[VerificationCost]) -> (total: u64)
    requires
        sum_of_totals(costs@, costs@.len()) <= u64::MAX,
    ensures
        total == sum_of_totals(costs@, costs@.len()) - (sum_of_totals(costs@, costs@.len())
            * batch_discount_pct(costs@.len())) / 100,
{
    if costs.len() == 0 {
        return 0;
    }
    let mut base_total: u64 = 0;
    let mut i: usize = 0;
    while i < costs.len()
        invariant
            i <= costs@.len(),
            base_total == sum_of_totals(costs@, i as nat),
            sum_of_totals(costs@, costs@.len()) <= u64::MAX,
        decreases costs@.len() - i,
    {
        proof {
            lemma_sum_monotonic(costs@, (i + 1) as nat, costs@.len());
        }
        base_total = base_total + costs[i].estimated_total;
        i = i + 1;
    }
    let extra: usize = costs.len() - 1;
    let discount_pct: u64 = if extra >= 6 {
        30
    } else {
        (extra * 5) as u64
    };
    assert(base_total * discount_pct <= 0xffff_ffff_ffff_ffff * 30) by (nonlinear_arith)
        requires
            base_total <= 0xffff_ffff_ffff_ffff,
            discount_pct <= 30,
    ;
    let discount: u128 = ((base_total as u128) * (discount_pct as u128)) / 100;
    assert(discount <= base_total) by (nonlinear_arith)
        requires
            discount == (base_total * discount_pct) / 100,
            discount_pct <= 30,
    ;
    base_total - (discount as u64)
}

/// A partial sum of estimates is at most the whole sum.
pub proof fn lemma_sum_monotonic(costs: Seq<VerificationCost>, a: nat, b: nat)
    requires
        a <= b,
    ensures
        sum_of_totals(costs, a) <= sum_of_totals(costs, b),
    decreases b,
{
    if a < b {
        lemma_sum_monotonic(costs, a, (b - 1) as nat);
    }
}

/// The estimate that limits are recommended for: Groth16 as it is, PLONK
/// for a circuit of 65,536 gates, STARK for a trace of 1,024 rows at 128
/// bits.
pub open spec fn reference_cost(proof_type: ProofType, public_inputs: usize) -> VerificationCost {
    match proof_type {
        ProofType::Groth16 => cost_of(model_of(0), public_inputs, 256, ProofType::Groth16),
        ProofType::PLONK => cost_of(
            model_of(1),
            public_inputs,
            plonk_proof_size(65536) as usize,
            ProofType::PLONK,
        ),
        ProofType::STARK => cost_of(
            model_of(2),
            4,
            stark_proof_size(1024, 128) as usize,
            ProofType::STARK,
        ),
    }
}

impl GasLimitRecommendation {
    /// The limits for a proof type: the estimate, the estimate and a fifth,
    /// the estimate and a half, each rounded down. Fifteen times the
    /// estimate has to fit in 64 bits.
    pub fn for_proof_type(proof_type: ProofType, public_inputs: usize) -> (limits: Self)
        requires
            (350_000 + 40_000 * public_inputs) * 15 <= u64::MAX,
        ensures
            limits.minimum == reference_cost(proof_type, public_inputs).estimated_total,
            limits.recommended == limits.minimum * 12 / 10,
            limits.maximum == limits.minimum * 15 / 10,
    {
        let cost = match proof_type {
            ProofType::Groth16 => VerificationCost::for_groth16(public_inputs),
            ProofType::PLONK => VerificationCost::for_plonk(public_inputs, 65536),
            ProofType::STARK => VerificationCost::for_stark(1024, 128),
        };
        proof {
            let n = public_inputs as int;
            assert(model_of(0).total(n, 256) == 250_000 + 40_000 * n);
            assert(model_of(1).total(n, plonk_proof_size(65536)) == 350_000 + 10_000 * n)
                by (nonlinear_arith);
            crate::pow2::lemma_two_to_values();
            crate::pow2::lemma_log2_floor_below(1024, 64);
            assert(cost.estimated_total <= 350_000 + 40_000 * n || cost.estimated_total
                <= 200_000 + 20_000 + 10 * (40_000 + 63 * 7 * 2_000)) by {
                if proof_type == ProofType::STARK {
                    let size = stark_proof_size(1024, 128);
                    assert(log2_floor(1024) * (128int / 32) * 2_000 <= 63 * 4 * 2_000)
                        by (nonlinear_arith)
                        requires
                            log2_floor(1024) <= 63,
                    ;
                }
            }
        }
        GasLimitRecommendation {
            minimum: cost.estimated_total,
            recommended: cost.estimated_total * 12 / 10,
            maximum: cost.estimated_total * 15 / 10,
        }
    }
}

} // verus!
