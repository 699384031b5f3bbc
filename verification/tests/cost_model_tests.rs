use uzkv::cost_model::{
    compare_costs, estimate_batch_cost, select_cheapest, should_verify, CostComparison,
    GasLimitRecommendation, VerificationCost,
};
use uzkv::types::{ProofType, UniversalProofDescriptor};

#[test]
fn test_plonk_cost() {
    let cost = VerificationCost::for_plonk(4, 65536);

    assert_eq!(cost.proof_system, ProofType::PLONK);
    assert!(cost.estimated_total > 150_000);
}

#[test]
fn test_stark_cost() {
    let cost = VerificationCost::for_stark(1024, 128);

    assert_eq!(cost.proof_system, ProofType::STARK);
    assert!(cost.estimated_total > 400_000);
}

#[test]
fn test_cost_comparison() {
    let groth16 = VerificationCost::for_groth16(4);
    let plonk = VerificationCost::for_plonk(4, 65536);

    assert!(plonk.cheaper_than(&groth16));
    assert_eq!(compare_costs(&plonk, &groth16), CostComparison::FirstCheaper);
}

#[test]
fn test_select_cheapest() {
    let options = vec![
        VerificationCost::for_stark(1024, 128),
        VerificationCost::for_groth16(4),
        VerificationCost::for_plonk(4, 65536),
    ];

    let cheapest = select_cheapest(&options);
    assert_eq!(cheapest, Some(2));
}

#[test]
fn test_budget_check() {
    let cost = VerificationCost::for_groth16(4);

    assert!(should_verify(&cost, 500_000, 10));
    assert!(!should_verify(&cost, 100_000, 10));
}

#[test]
fn test_batch_discount() {
    let single = VerificationCost::for_groth16(4).estimated_total;
    let batch_3 = estimate_batch_cost(&[
        VerificationCost::for_groth16(4),
        VerificationCost::for_groth16(4),
        VerificationCost::for_groth16(4),
    ]);

    let expected = (single * 3) * 90 / 100;
    assert_eq!(batch_3, expected);
}

#[test]
fn test_gas_recommendation() {
    let rec = GasLimitRecommendation::for_proof_type(ProofType::Groth16, 4);

    assert!(rec.minimum < rec.recommended);
    assert!(rec.recommended < rec.maximum);
}

#[test]
fn groth16_cost_is_the_cost_line_at_256_bytes() {
    let cost = VerificationCost::for_groth16(4);
    assert_eq!(cost.proof_system, ProofType::Groth16);
    assert_eq!(cost.proof_size, 256);
    assert_eq!(cost.public_input_count, 4);
    assert_eq!(cost.estimated_total, 250_000 + 4 * 40_000);
}

#[test]
fn plonk_cost_counts_the_bits_of_the_circuit() {
    let cost = VerificationCost::for_plonk(4, 65536);
    assert_eq!(cost.proof_size, 800 + 16 * 64);
    assert_eq!(cost.estimated_total, 350_000 + 4 * 10_000);
    assert_eq!(VerificationCost::for_plonk(0, 1).proof_size, 800);
    assert_eq!(VerificationCost::for_plonk(0, 3).proof_size, 800 + 64);
}

#[test]
fn stark_cost_grows_with_trace_and_security() {
    let cost = VerificationCost::for_stark(1024, 128);
    assert_eq!(cost.proof_size, 40_000 + 10 * 4 * 2_000);
    assert_eq!(cost.public_input_count, 4);
    assert_eq!(cost.estimated_total, 200_000 + 4 * 5_000 + 10 * 120_000);
    // A trace shorter than 64 rows is costed as 64 rows.
    assert_eq!(VerificationCost::for_stark(2, 32).proof_size, 40_000 + 6 * 2_000);
    // Fewer than 32 security bits add nothing to the size.
    assert_eq!(VerificationCost::for_stark(1024, 31).proof_size, 40_000);
}

#[test]
fn from_descriptor_follows_the_proof_system() {
    let mut descriptor = UniversalProofDescriptor::groth16(4, [1u8; 32], [2u8; 32]);
    let cost = VerificationCost::from_descriptor(&descriptor);
    assert_eq!(cost.proof_system, ProofType::Groth16);
    assert_eq!(cost.estimated_total, 250_000 + 4 * 40_000);

    descriptor.proof_system_id = 2;
    descriptor.proof_length = 1000;
    let cost = VerificationCost::from_descriptor(&descriptor);
    assert_eq!(cost.proof_system, ProofType::STARK);
    assert_eq!(cost.estimated_total, 200_000 + 4 * 5_000 + 10 * 1000);

    descriptor.proof_system_id = 1;
    assert_eq!(VerificationCost::from_descriptor(&descriptor).proof_system, ProofType::PLONK);

    // An unknown proof system is costed as Groth16.
    descriptor.proof_system_id = 77;
    let cost = VerificationCost::from_descriptor(&descriptor);
    assert_eq!(cost.proof_system, ProofType::Groth16);
    assert_eq!(cost.base_gas, 250_000);
}

#[test]
fn savings_and_budget() {
    let groth16 = VerificationCost::for_groth16(4);
    let plonk = VerificationCost::for_plonk(4, 65536);
    assert_eq!(plonk.savings_vs(&groth16), 20_000);
    assert_eq!(groth16.savings_vs(&plonk), -20_000);
    assert!(groth16.within_budget(410_000));
    assert!(!groth16.within_budget(409_999));
}

#[test]
fn breakdown_is_in_percent_rounded_down() {
    let cost = VerificationCost::for_groth16(4);
    let breakdown = cost.cost_breakdown();
    assert_eq!(breakdown.base_pct, 60);
    assert_eq!(breakdown.input_pct, 39);
    assert_eq!(breakdown.byte_pct, 0);
}

#[test]
fn compare_costs_has_three_outcomes() {
    let a = VerificationCost::for_groth16(1);
    let b = VerificationCost::for_groth16(2);
    assert_eq!(compare_costs(&a, &b), CostComparison::FirstCheaper);
    assert_eq!(compare_costs(&b, &a), CostComparison::SecondCheaper);
    assert_eq!(compare_costs(&a, &a), CostComparison::Equal);
}

#[test]
fn select_cheapest_takes_the_first_of_equals() {
    assert_eq!(select_cheapest(&[]), None);
    let a = VerificationCost::for_groth16(2);
    let b = VerificationCost::for_groth16(1);
    assert_eq!(select_cheapest(&[a, b, b]), Some(1));
}

#[test]
fn batch_discount_is_capped_at_thirty_percent() {
    assert_eq!(estimate_batch_cost(&[]), 0);
    let one = VerificationCost::for_groth16(0);
    assert_eq!(estimate_batch_cost(&[one]), 250_000);
    let seven = vec![one; 7];
    assert_eq!(estimate_batch_cost(&seven), 7 * 250_000 * 70 / 100);
    let twenty = vec![one; 20];
    assert_eq!(estimate_batch_cost(&twenty), 20 * 250_000 * 70 / 100);
}

#[test]
fn recommendation_for_each_proof_type() {
    let rec = GasLimitRecommendation::for_proof_type(ProofType::Groth16, 4);
    assert_eq!(rec.minimum, 410_000);
    assert_eq!(rec.recommended, 492_000);
    assert_eq!(rec.maximum, 615_000);
    let rec = GasLimitRecommendation::for_proof_type(ProofType::PLONK, 4);
    assert_eq!(rec.minimum, 390_000);
    let rec = GasLimitRecommendation::for_proof_type(ProofType::STARK, 4);
    assert_eq!(rec.minimum, 1_420_000);
}
