use ark_bn254::{Fq, Fr, G1Affine, G1Projective, G2Affine, G2Projective};
use ark_ec::{AffineRepr, CurveGroup, Group};
use ark_ff::{BigInteger, FftField, Field, One, PrimeField, Zero};
use ark_std::UniformRand;
use uzkv::curve::{G1Point, G2Point};
use uzkv::field::{fr_add, fr_pow, fr_sub, Scalar};
use uzkv::plonk::host::{deserialize_plonk_proof, deserialize_plonk_vk, verify_host};
use uzkv::plonk::kzg;
use uzkv::plonk::labels::Label;
use uzkv::plonk::plonk::{
    compute_challenges, compute_gate_value, compute_lagrange_first, compute_public_input_eval,
    encode_vk_for_transcript, verify_plonk_host,
};
use uzkv::plonk::{
    batch_verify, verify, verify_plonk_proof, Error, PlonkProof, PlonkVerificationKey, PlonkVerifier,
    Srs, SrsDegree, SrsRegistry, Transcript,
};
use uzkv::verifier_traits::ZkVerifier;

fn be32(f: Fq) -> [u8; 32] {
    f.into_bigint().to_bytes_be().try_into().unwrap()
}

fn g1(p: G1Affine) -> G1Point {
    if p.infinity {
        G1Point::identity()
    } else {
        G1Point::new(be32(p.x), be32(p.y))
    }
}

fn g2(p: G2Affine) -> G2Point {
    if p.infinity {
        G2Point::identity()
    } else {
        G2Point {
            x_c0: be32(p.x.c0),
            x_c1: be32(p.x.c1),
            y_c0: be32(p.y.c0),
            y_c1: be32(p.y.c1),
            infinity: false,
        }
    }
}

fn scalar(f: Fr) -> Scalar {
    Scalar::from_be_bytes(f.into_bigint().to_bytes_be().try_into().unwrap())
}

fn fr(s: Scalar) -> Fr {
    Fr::from_be_bytes_mod_order(&s.to_be_bytes())
}

fn g1_bytes(p: &G1Point) -> Vec<u8> {
    let mut out = Vec::new();
    out.extend_from_slice(&p.x);
    out.extend_from_slice(&p.y);
    out
}

fn g2_bytes(p: &G2Point) -> Vec<u8> {
    let mut out = Vec::new();
    out.extend_from_slice(&p.x_c1);
    out.extend_from_slice(&p.x_c0);
    out.extend_from_slice(&p.y_c1);
    out.extend_from_slice(&p.y_c0);
    out
}

fn random_g1(rng: &mut impl ark_std::rand::Rng) -> G1Point {
    g1(G1Projective::rand(rng).into_affine())
}

fn generate_test_srs(degree: SrsDegree) -> Srs {
    let mut rng = ark_std::test_rng();
    let tau = Fr::rand(&mut rng);

    let size = degree.size();
    let g1_gen = G1Projective::generator();
    let g2_gen = G2Projective::generator();

    let mut g1_powers = Vec::with_capacity(size + 1);
    let mut tau_power = Fr::one();
    for _ in 0..=size {
        g1_powers.push(g1((g1_gen * tau_power).into_affine()));
        tau_power *= tau;
    }

    let g2_powers = vec![g2(g2_gen.into_affine()), g2((g2_gen * tau).into_affine())];

    Srs::new(g1_powers, g2_powers, degree).unwrap()
}

fn generate_test_vk(n: usize) -> PlonkVerificationKey {
    let mut rng = ark_std::test_rng();

    let omega = Fr::get_root_of_unity(n as u64).unwrap();

    PlonkVerificationKey {
        n,
        num_public_inputs: 2,
        selector_commitments: [
            random_g1(&mut rng),
            random_g1(&mut rng),
            random_g1(&mut rng),
            random_g1(&mut rng),
            random_g1(&mut rng),
        ],
        permutation_commitments: [random_g1(&mut rng), random_g1(&mut rng), random_g1(&mut rng)],
        lagrange_first: random_g1(&mut rng),
        lagrange_last: random_g1(&mut rng),
        omega: scalar(omega),
        k1: Scalar::from_u64(2),
        k2: Scalar::from_u64(3),
    }
}

fn setup_test_vk() -> PlonkVerificationKey {
    generate_test_vk(8)
}

fn generate_test_proof() -> PlonkProof {
    let mut rng = ark_std::test_rng();

    PlonkProof {
        wire_commitments: [random_g1(&mut rng), random_g1(&mut rng), random_g1(&mut rng)],
        permutation_commitment: random_g1(&mut rng),
        quotient_commitments: [random_g1(&mut rng), random_g1(&mut rng), random_g1(&mut rng)],
        wire_evals: [
            scalar(Fr::rand(&mut rng)),
            scalar(Fr::rand(&mut rng)),
            scalar(Fr::rand(&mut rng)),
        ],
        permutation_evals: [scalar(Fr::rand(&mut rng)), scalar(Fr::rand(&mut rng))],
        selector_evals: [
            scalar(Fr::rand(&mut rng)),
            scalar(Fr::rand(&mut rng)),
            scalar(Fr::rand(&mut rng)),
            scalar(Fr::rand(&mut rng)),
            scalar(Fr::rand(&mut rng)),
        ],
        opening_proof_zeta: random_g1(&mut rng),
        opening_proof_omega: random_g1(&mut rng),
    }
}

/// A small reference string for the tests that need only `tau G2`.
fn small_tau() -> (Fr, G2Point) {
    let mut rng = ark_std::test_rng();
    let tau = Fr::rand(&mut rng);
    (tau, g2((G2Projective::generator() * tau).into_affine()))
}

// ---------------------------------------------------------------------------
// KZG
// ---------------------------------------------------------------------------

#[test]
fn test_validate_g1_point_on_curve() {
    let mut rng = ark_std::test_rng();
    let point = random_g1(&mut rng);
    assert!(kzg::validate_g1_point(&point));
}

#[test]
fn test_validate_g1_identity() {
    let identity = G1Point::identity();
    assert!(kzg::validate_g1_point(&identity));
}

#[test]
fn test_validate_g2_point_on_curve() {
    let mut rng = ark_std::test_rng();
    let point = g2(G2Projective::rand(&mut rng).into_affine());
    assert!(kzg::validate_g2_point(&point));
}

#[test]
fn test_kzg_opening_valid_serialization() {
    let mut rng = ark_std::test_rng();

    let commitment = random_g1(&mut rng);
    let proof = random_g1(&mut rng);
    let srs_g2 = g2(G2Projective::rand(&mut rng).into_affine());
    let eval_point = scalar(Fr::rand(&mut rng));
    let claimed_eval = scalar(Fr::rand(&mut rng));

    let commitment_bytes = g1_bytes(&commitment);
    let proof_bytes = g1_bytes(&proof);

    let result = kzg::verify_kzg_opening(
        &commitment_bytes,
        &eval_point,
        &claimed_eval,
        &proof_bytes,
        &srs_g2,
    );

    assert!(result.is_ok());
}

#[test]
fn test_kzg_opening_invalid_size() {
    let srs_g2 = g2(G2Affine::generator());
    let eval_point = Scalar::from_u64(1);
    let claimed_eval = Scalar::from_u64(2);

    let large_commitment = vec![0u8; kzg::MAX_COMMITMENT_SIZE + 1];
    let proof = vec![0u8; 32];

    let result =
        kzg::verify_kzg_opening(&large_commitment, &eval_point, &claimed_eval, &proof, &srs_g2);

    assert_eq!(result, Err(Error::InvalidInputSize));
}

#[test]
fn test_batch_opening_empty_inputs() {
    let srs_g2 = g2(G2Affine::generator());
    let proof = g1(G1Affine::generator());
    let eval_point = Scalar::from_u64(1);

    let result = kzg::verify_kzg_batch_opening(
        &[],
        &eval_point,
        &[],
        &proof,
        &srs_g2,
        &Scalar::from_u64(2),
    );

    assert_eq!(result, Err(Error::InvalidInputSize));
}

#[test]
fn test_batch_opening_mismatched_lengths() {
    let mut rng = ark_std::test_rng();
    let srs_g2 = g2(G2Affine::generator());
    let proof = random_g1(&mut rng);
    let eval_point = Scalar::from_u64(1);

    let commitments = vec![random_g1(&mut rng)];
    let claimed_evals = vec![scalar(Fr::rand(&mut rng)), scalar(Fr::rand(&mut rng))];

    let result = kzg::verify_kzg_batch_opening(
        &commitments,
        &eval_point,
        &claimed_evals,
        &proof,
        &srs_g2,
        &Scalar::from_u64(2),
    );

    assert_eq!(result, Err(Error::InvalidInputSize));
}

#[test]
fn test_kzg_point_validation() {
    let mut rng = ark_std::test_rng();

    let valid_g1 = random_g1(&mut rng);
    assert!(kzg::validate_g1_point(&valid_g1));

    let valid_g2 = g2(G2Projective::rand(&mut rng).into_affine());
    assert!(kzg::validate_g2_point(&valid_g2));

    let identity_g1 = G1Point::identity();
    assert!(kzg::validate_g1_point(&identity_g1));
}

#[test]
fn test_kzg_opening_verification_structure() {
    let (_, tau_g2) = small_tau();
    let mut rng = ark_std::test_rng();

    let commitment = random_g1(&mut rng);
    let point = scalar(Fr::rand(&mut rng));
    let eval = scalar(Fr::rand(&mut rng));
    let proof = random_g1(&mut rng);

    let result = kzg::verify_kzg_opening(
        &g1_bytes(&commitment),
        &point,
        &eval,
        &g1_bytes(&proof),
        &tau_g2,
    );
    assert!(result.is_ok());
}

#[test]
fn test_kzg_batch_opening_structure() {
    let (_, tau_g2) = small_tau();
    let mut rng = ark_std::test_rng();

    let commitments = vec![random_g1(&mut rng), random_g1(&mut rng), random_g1(&mut rng)];
    let evals =
        vec![scalar(Fr::rand(&mut rng)), scalar(Fr::rand(&mut rng)), scalar(Fr::rand(&mut rng))];
    let point = scalar(Fr::rand(&mut rng));
    let proof = random_g1(&mut rng);

    let result = kzg::verify_kzg_batch_opening(
        &commitments,
        &point,
        &evals,
        &proof,
        &tau_g2,
        &Scalar::from_u64(2),
    );
    assert!(result.is_ok());
}

/// The value at `x` of the polynomial with the given coefficients.
fn evaluate(coefficients: &[Fr], x: Fr) -> Fr {
    let mut value = Fr::zero();
    for c in coefficients.iter().rev() {
        value = value * x + c;
    }
    value
}

/// Commitment to a polynomial and the opening proof at `z`, made with the
/// secret of the setup.
fn open(coefficients: &[Fr], tau: Fr, z: Fr) -> (G1Point, Fr, G1Point) {
    let y = evaluate(coefficients, z);
    let at_tau = evaluate(coefficients, tau);
    let quotient = (at_tau - y) * (tau - z).inverse().unwrap();
    let generator = G1Projective::generator();
    (g1((generator * at_tau).into_affine()), y, g1((generator * quotient).into_affine()))
}

#[test]
fn opening_of_a_committed_polynomial_holds() {
    let (tau, tau_g2) = small_tau();
    let coefficients = [Fr::from(3u64), Fr::from(5u64), Fr::from(7u64)];
    let z = Fr::from(11u64);
    let (commitment, y, proof) = open(&coefficients, tau, z);
    assert_eq!(y, Fr::from(3u64 + 5 * 11 + 7 * 121));

    let verdict = kzg::verify_kzg_opening(
        &g1_bytes(&commitment),
        &scalar(z),
        &scalar(y),
        &g1_bytes(&proof),
        &tau_g2,
    );
    assert_eq!(verdict, Ok(true));
    assert!(kzg::check_opening(&commitment, &scalar(z), &scalar(y), &proof, &tau_g2));

    // Another value, another point, another proof: none of them holds.
    let wrong = kzg::verify_kzg_opening(
        &g1_bytes(&commitment),
        &scalar(z),
        &scalar(y + Fr::one()),
        &g1_bytes(&proof),
        &tau_g2,
    );
    assert_eq!(wrong, Ok(false));
    assert!(!kzg::check_opening(&commitment, &scalar(z + Fr::one()), &scalar(y), &proof, &tau_g2));
    assert!(!kzg::check_opening(&commitment, &scalar(z), &scalar(y), &commitment, &tau_g2));
    let other_tau = g2((G2Projective::generator() * (tau + Fr::one())).into_affine());
    assert!(!kzg::check_opening(&commitment, &scalar(z), &scalar(y), &proof, &other_tau));
}

#[test]
fn opening_errors() {
    let (tau, tau_g2) = small_tau();
    let (commitment, y, proof) = open(&[Fr::from(9u64), Fr::from(4u64)], tau, Fr::from(2u64));
    let z = Scalar::from_u64(2);
    let c = g1_bytes(&commitment);
    let p = g1_bytes(&proof);
    assert_eq!(kzg::verify_kzg_opening(&c, &z, &scalar(y), &p, &tau_g2), Ok(true));
    assert_eq!(
        kzg::verify_kzg_opening(&c, &z, &scalar(y), &[0u8; 65], &tau_g2),
        Err(Error::InvalidInputSize)
    );
    assert_eq!(
        kzg::verify_kzg_opening(&c[..63], &z, &scalar(y), &p, &tau_g2),
        Err(Error::DeserializationError)
    );
    assert_eq!(
        kzg::verify_kzg_opening(&c, &z, &scalar(y), &p[..32], &tau_g2),
        Err(Error::DeserializationError)
    );
    assert_eq!(
        kzg::verify_kzg_opening(&[0u8; 64], &z, &scalar(y), &p, &tau_g2),
        Err(Error::MalformedProof)
    );
    let mut bad = p.clone();
    bad[63] ^= 1;
    assert_eq!(
        kzg::verify_kzg_opening(&c, &z, &scalar(y), &bad, &tau_g2),
        Err(Error::MalformedProof)
    );
    let mut bad_tau = tau_g2;
    bad_tau.y_c0[31] ^= 1;
    assert_eq!(
        kzg::verify_kzg_opening(&c, &z, &scalar(y), &p, &bad_tau),
        Err(Error::MalformedProof)
    );
}

#[test]
fn batch_opening_weighs_with_powers_of_the_challenge() {
    let (tau, tau_g2) = small_tau();
    let z = Fr::from(17u64);
    let r = Fr::from(1000003u64);
    let polynomials: [&[Fr]; 3] = [
        &[Fr::from(1u64), Fr::from(2u64)],
        &[Fr::from(5u64)],
        &[Fr::from(4u64), Fr::from(0u64), Fr::from(9u64)],
    ];
    let mut commitments = Vec::new();
    let mut evals = Vec::new();
    let mut aggregated = Fr::zero();
    let mut weight = Fr::one();
    for coefficients in polynomials {
        let (commitment, y, _) = open(coefficients, tau, z);
        commitments.push(commitment);
        evals.push(scalar(y));
        aggregated += weight * (evaluate(coefficients, tau) - y);
        weight *= r;
    }
    let quotient = aggregated * (tau - z).inverse().unwrap();
    let proof = g1((G1Projective::generator() * quotient).into_affine());

    let verdict =
        kzg::verify_kzg_batch_opening(&commitments, &scalar(z), &evals, &proof, &tau_g2, &scalar(r));
    assert_eq!(verdict, Ok(true));

    // Under another challenge the same proof does not hold.
    let other = kzg::verify_kzg_batch_opening(
        &commitments,
        &scalar(z),
        &evals,
        &proof,
        &tau_g2,
        &scalar(r + Fr::one()),
    );
    assert_eq!(other, Ok(false));
    // Nor in another order.
    let mut swapped = commitments.clone();
    swapped.swap(0, 2);
    let other =
        kzg::verify_kzg_batch_opening(&swapped, &scalar(z), &evals, &proof, &tau_g2, &scalar(r));
    assert_eq!(other, Ok(false));
    // A point off the curve is an error wherever it stands.
    let mut broken = commitments.clone();
    broken[2].x[31] ^= 1;
    let other =
        kzg::verify_kzg_batch_opening(&broken, &scalar(z), &evals, &proof, &tau_g2, &scalar(r));
    assert_eq!(other, Err(Error::MalformedProof));
    // One opening as a batch of one.
    let (commitment, y, single) = open(polynomials[0], tau, z);
    let verdict = kzg::verify_kzg_batch_opening(
        &[commitment],
        &scalar(z),
        &[scalar(y)],
        &single,
        &tau_g2,
        &scalar(r),
    );
    assert_eq!(verdict, Ok(true));
}

// ---------------------------------------------------------------------------
// Transcript
// ---------------------------------------------------------------------------

#[test]
fn test_transcript_deterministic() {
    let mut transcript1 = Transcript::new(b"test_protocol");
    let mut transcript2 = Transcript::new(b"test_protocol");

    let mut rng = ark_std::test_rng();
    let element = scalar(Fr::rand(&mut rng));

    transcript1.absorb_field(b"test_elem", &element);
    transcript2.absorb_field(b"test_elem", &element);

    let challenge1 = transcript1.squeeze_challenge(b"test_challenge");
    let challenge2 = transcript2.squeeze_challenge(b"test_challenge");

    assert_eq!(challenge1, challenge2);
}

#[test]
fn test_transcript_different_domain_labels() {
    let mut transcript1 = Transcript::new(b"protocol_v1");
    let mut transcript2 = Transcript::new(b"protocol_v2");

    let mut rng = ark_std::test_rng();
    let element = scalar(Fr::rand(&mut rng));

    transcript1.absorb_field(b"elem", &element);
    transcript2.absorb_field(b"elem", &element);

    let challenge1 = transcript1.squeeze_challenge(b"challenge");
    let challenge2 = transcript2.squeeze_challenge(b"challenge");

    assert_ne!(challenge1, challenge2);
}

#[test]
fn test_transcript_different_labels() {
    let mut transcript = Transcript::new(b"test_protocol");

    let mut rng = ark_std::test_rng();
    let element = scalar(Fr::rand(&mut rng));

    transcript.absorb_field(b"label_a", &element);
    let challenge1 = transcript.squeeze_challenge(b"challenge");

    transcript.reset();
    transcript.absorb_field(b"label_b", &element);
    let challenge2 = transcript.squeeze_challenge(b"challenge");

    assert_ne!(challenge1, challenge2);
}

#[test]
fn test_transcript_order_matters() {
    let mut rng = ark_std::test_rng();
    let elem1 = scalar(Fr::rand(&mut rng));
    let elem2 = scalar(Fr::rand(&mut rng));

    let mut transcript1 = Transcript::new(b"test_protocol");
    transcript1.absorb_field(b"e1", &elem1);
    transcript1.absorb_field(b"e2", &elem2);
    let challenge1 = transcript1.squeeze_challenge(b"c");

    let mut transcript2 = Transcript::new(b"test_protocol");
    transcript2.absorb_field(b"e2", &elem2);
    transcript2.absorb_field(b"e1", &elem1);
    let challenge2 = transcript2.squeeze_challenge(b"c");

    assert_ne!(challenge1, challenge2);
}

#[test]
fn test_squeeze_multiple_challenges() {
    let mut transcript = Transcript::new(b"test_protocol");

    let challenges = transcript.squeeze_challenges(b"multi", 5);

    assert_eq!(challenges.len(), 5);

    for i in 0..challenges.len() {
        for j in (i + 1)..challenges.len() {
            assert_ne!(challenges[i], challenges[j]);
        }
    }
}

#[test]
fn test_transcript_reset() {
    let mut transcript = Transcript::new(b"test_protocol");

    let mut rng = ark_std::test_rng();
    let element = scalar(Fr::rand(&mut rng));

    transcript.absorb_field(b"elem", &element);
    let challenge1 = transcript.squeeze_challenge(b"c");

    transcript.reset();
    transcript.absorb_field(b"elem", &element);
    let challenge2 = transcript.squeeze_challenge(b"c");

    assert_eq!(challenge1, challenge2);
}

#[test]
fn test_absorb_bytes_length_matters() {
    let mut transcript1 = Transcript::new(b"test");
    let mut transcript2 = Transcript::new(b"test");

    transcript1.absorb_bytes(b"data", &[1, 2, 3]);
    transcript2.absorb_bytes(b"data", &[1, 2, 3, 0, 0]);

    let c1 = transcript1.squeeze_challenge(b"c");
    let c2 = transcript2.squeeze_challenge(b"c");

    assert_ne!(c1, c2);
}

#[test]
fn test_transcript_determinism() {
    let mut t1 = Transcript::new(b"test_protocol");
    let mut t2 = Transcript::new(b"test_protocol");

    let field_elem = Scalar::from_u64(12345);

    t1.absorb_field(b"test", &field_elem);
    t2.absorb_field(b"test", &field_elem);

    let c1 = t1.squeeze_challenge(b"challenge");
    let c2 = t2.squeeze_challenge(b"challenge");

    assert_eq!(c1, c2);
}

#[test]
fn test_transcript_domain_separation() {
    let mut t1 = Transcript::new(b"protocol_1");
    let mut t2 = Transcript::new(b"protocol_2");

    let field_elem = Scalar::from_u64(12345);

    t1.absorb_field(b"test", &field_elem);
    t2.absorb_field(b"test", &field_elem);

    let c1 = t1.squeeze_challenge(b"challenge");
    let c2 = t2.squeeze_challenge(b"challenge");

    assert_ne!(c1, c2);
}

#[test]
fn test_transcript_order_sensitivity() {
    let mut t1 = Transcript::new(b"test");
    let mut t2 = Transcript::new(b"test");

    let f1 = Scalar::from_u64(1);
    let f2 = Scalar::from_u64(2);

    t1.absorb_field(b"a", &f1);
    t1.absorb_field(b"b", &f2);

    t2.absorb_field(b"a", &f2);
    t2.absorb_field(b"b", &f1);

    let c1 = t1.squeeze_challenge(b"c");
    let c2 = t2.squeeze_challenge(b"c");

    assert_ne!(c1, c2);
}

#[test]
fn test_transcript_multiple_challenges() {
    let mut transcript = Transcript::new(b"test");

    transcript.absorb_field(b"input", &Scalar::from_u64(42));

    let c1 = transcript.squeeze_challenge(b"c1");
    let c2 = transcript.squeeze_challenge(b"c2");
    let c3 = transcript.squeeze_challenge(b"c3");

    assert_ne!(c1, c2);
    assert_ne!(c2, c3);
    assert_ne!(c1, c3);
}

fn keccak(data: &[u8]) -> [u8; 32] {
    <sha3::Keccak256 as sha3::Digest>::digest(data).into()
}

#[test]
fn challenge_is_the_digest_of_everything_absorbed() {
    let mut transcript = Transcript::new(b"dom");
    let element = Scalar::from_u64(0x0102);
    transcript.absorb_field(b"f", &element);
    transcript.absorb_bytes(b"b", &[7, 8]);
    let point = G1Point::new([3u8; 32], [4u8; 32]);
    transcript.absorb_point(b"p", &point);
    transcript.absorb_points(b"ps", &[point, point]);

    let mut absorbed = b"dom".to_vec();
    absorbed.extend_from_slice(b"f");
    absorbed.extend_from_slice(&element.to_be_bytes());
    absorbed.extend_from_slice(b"b");
    absorbed.extend_from_slice(&2u64.to_le_bytes());
    absorbed.extend_from_slice(&[7, 8]);
    absorbed.extend_from_slice(b"p");
    absorbed.extend_from_slice(&[3u8; 32]);
    absorbed.extend_from_slice(&[4u8; 32]);
    absorbed.extend_from_slice(b"ps");
    absorbed.extend_from_slice(&2u64.to_le_bytes());
    for _ in 0..2 {
        absorbed.extend_from_slice(&[3u8; 32]);
        absorbed.extend_from_slice(&[4u8; 32]);
    }

    let mut input = absorbed.clone();
    input.extend_from_slice(b"c");
    let digest = keccak(&input);
    let first = transcript.squeeze_challenge(b"c");
    assert_eq!(fr(first), Fr::from_be_bytes_mod_order(&digest));
    assert!(first.is_canonical());

    // The digest is absorbed: the same label gives another challenge.
    absorbed.extend_from_slice(&digest);
    let mut input = absorbed.clone();
    input.extend_from_slice(b"c");
    let second = transcript.squeeze_challenge(b"c");
    assert_eq!(fr(second), Fr::from_be_bytes_mod_order(&keccak(&input)));
    assert_ne!(first, second);
}

#[test]
fn several_challenges_are_single_challenges_under_indexed_labels() {
    let mut a = Transcript::new(b"x");
    let mut b = Transcript::new(b"x");
    let several = a.squeeze_challenges(b"multi", 3);
    for i in 0..3u64 {
        let mut label = b"multi".to_vec();
        label.extend_from_slice(&i.to_le_bytes());
        assert_eq!(several[i as usize], b.squeeze_challenge(&label));
    }
    assert_eq!(a.squeeze_challenge(b"next"), b.squeeze_challenge(b"next"));
    assert!(a.squeeze_challenges(b"none", 0).is_empty());
}

#[test]
fn replaying_a_message_changes_later_challenges() {
    let element = Scalar::from_u64(5);
    let mut once = Transcript::new(b"t");
    once.absorb_field(b"m", &element);
    let mut twice = Transcript::new(b"t");
    twice.absorb_field(b"m", &element);
    twice.absorb_field(b"m", &element);
    assert_ne!(once.squeeze_challenge(b"c"), twice.squeeze_challenge(b"c"));
}

#[test]
fn labels_are_the_step_names() {
    assert_eq!(Label::Protocol.bytes(), b"plonk_bn254_v1".to_vec());
    assert_eq!(Label::VerificationKey.bytes(), b"plonk_vk".to_vec());
    assert_eq!(Label::PublicInput.bytes(), b"plonk_public_input".to_vec());
    assert_eq!(Label::WireCommitment.bytes(), b"plonk_wire_comm".to_vec());
    assert_eq!(Label::Beta.bytes(), b"plonk_beta".to_vec());
    assert_eq!(Label::Gamma.bytes(), b"plonk_gamma".to_vec());
    assert_eq!(Label::PermutationCommitment.bytes(), b"plonk_perm_comm".to_vec());
    assert_eq!(Label::Alpha.bytes(), b"plonk_alpha".to_vec());
    assert_eq!(Label::QuotientCommitment.bytes(), b"plonk_quotient_comm".to_vec());
    assert_eq!(Label::Zeta.bytes(), b"plonk_zeta".to_vec());
    assert_eq!(Label::WireEval.bytes(), b"plonk_wire_eval".to_vec());
    assert_eq!(Label::PermutationEval.bytes(), b"plonk_perm_eval".to_vec());
    assert_eq!(Label::SelectorEval.bytes(), b"plonk_selector_eval".to_vec());
    assert_eq!(Label::V.bytes(), b"plonk_v".to_vec());
    assert_eq!(Label::OpeningProof.bytes(), b"plonk_opening_proof".to_vec());
    assert_eq!(Label::U.bytes(), b"plonk_u".to_vec());
}

// ---------------------------------------------------------------------------
// Verification key and polynomials
// ---------------------------------------------------------------------------

#[test]
fn plonk_test_vk_validation() {
    let vk = setup_test_vk();
    assert!(vk.validate().is_ok());
}

#[test]
fn test_vk_omega_is_root_of_unity() {
    let vk = setup_test_vk();
    let omega_n = fr_pow(vk.omega, Scalar::from_u64(vk.n as u64));
    assert_eq!(omega_n, Scalar::one());
}

#[test]
fn plonk_test_lagrange_first_at_one() {
    let vk = setup_test_vk();
    let zh = fr_sub(fr_pow(Scalar::one(), Scalar::from_u64(vk.n as u64)), Scalar::one());
    let l1 = compute_lagrange_first(Scalar::one(), zh, vk.omega, vk.n);
    assert_eq!(l1, Scalar::one());
}

#[test]
fn plonk_test_public_input_eval_empty() {
    let vk = setup_test_vk();
    let eval = compute_public_input_eval(&[], Scalar::from_u64(5), vk.omega, vk.n);
    assert!(eval.is_ok());
    assert_eq!(eval.unwrap(), Scalar::zero());
}

#[test]
fn test_public_input_eval() {
    let vk = setup_test_vk();
    let public_inputs = vec![Scalar::from_u64(10), Scalar::from_u64(20)];
    let point = Scalar::from_u64(5);

    let eval = compute_public_input_eval(&public_inputs, point, vk.omega, vk.n);
    assert!(eval.is_ok());

    let result = eval.unwrap();
    assert_ne!(result, Scalar::zero());
}

#[test]
fn test_encode_vk_deterministic() {
    let vk = setup_test_vk();
    let bytes1 = encode_vk_for_transcript(&vk);
    let bytes2 = encode_vk_for_transcript(&vk);
    assert_eq!(bytes1, bytes2);
}

#[test]
fn plonk_test_vanishing_polynomial() {
    let vk = setup_test_vk();
    let n = Scalar::from_u64(vk.n as u64);

    for i in 0..vk.n {
        let point = fr_pow(vk.omega, Scalar::from_u64(i as u64));
        let zh = fr_sub(fr_pow(point, n), Scalar::one());
        assert_eq!(zh, Scalar::zero());
    }

    let zh_at_one = fr_sub(fr_pow(Scalar::one(), n), Scalar::one());
    assert_eq!(zh_at_one, Scalar::zero());

    let random_point = Scalar::from_u64(12345);
    let zh_random = fr_sub(fr_pow(random_point, n), Scalar::one());
    assert_ne!(zh_random, Scalar::zero());
}

#[test]
fn plonk_test_proof_structure() {
    let proof = generate_test_proof();

    assert_eq!(proof.wire_commitments.len(), 3);
    assert_eq!(proof.quotient_commitments.len(), 3);
}

#[test]
fn plonk_tests_test_vk_validation() {
    let vk = generate_test_vk(8);
    assert!(vk.validate().is_ok());
}

#[test]
fn test_vk_invalid_size() {
    let mut vk = generate_test_vk(8);

    vk.n = 7;

    let result = vk.validate();
    assert!(result.is_err());
}

#[test]
fn test_vk_omega_root_of_unity() {
    let vk = generate_test_vk(16);

    let omega_n = fr_pow(vk.omega, Scalar::from_u64(vk.n as u64));
    assert_eq!(omega_n, Scalar::one());

    let omega_half = fr_pow(vk.omega, Scalar::from_u64((vk.n / 2) as u64));
    assert_ne!(omega_half, Scalar::one());
}

#[test]
fn plonk_tests_test_proof_structure() {
    let proof = generate_test_proof();

    assert_eq!(proof.wire_commitments.len(), 3);
    assert_eq!(proof.quotient_commitments.len(), 3);
    assert_eq!(proof.wire_evals.len(), 3);
    assert_eq!(proof.permutation_evals.len(), 2);
    assert_eq!(proof.selector_evals.len(), 5);

    for commitment in &proof.wire_commitments {
        assert!(kzg::validate_g1_point(commitment));
    }
    for commitment in &proof.quotient_commitments {
        assert!(kzg::validate_g1_point(commitment));
    }
}

#[test]
fn plonk_tests_test_public_input_eval_empty() {
    let vk = generate_test_vk(8);
    let point = Scalar::from_u64(5);

    let eval = compute_public_input_eval(&[], point, vk.omega, vk.n);
    assert!(eval.is_ok());
    assert_eq!(eval.unwrap(), Scalar::zero());
}

#[test]
fn plonk_tests_test_lagrange_first_at_one() {
    let vk = generate_test_vk(8);

    let zh = Scalar::zero();
    let l1 = compute_lagrange_first(Scalar::one(), zh, vk.omega, vk.n);

    assert_eq!(l1, Scalar::one());
}

#[test]
fn plonk_tests_test_vanishing_polynomial() {
    let n: usize = 8;
    let omega = scalar(Fr::get_root_of_unity(n as u64).unwrap());

    for i in 0..n {
        let point = fr_pow(omega, Scalar::from_u64(i as u64));
        let zh = fr_sub(fr_pow(point, Scalar::from_u64(n as u64)), Scalar::one());
        assert_eq!(zh, Scalar::zero());
    }

    let random = Scalar::from_u64(99999);
    let zh_random = fr_sub(fr_pow(random, Scalar::from_u64(n as u64)), Scalar::one());
    assert_ne!(zh_random, Scalar::zero());
}

#[test]
fn circuit_size_is_checked_before_anything_else() {
    let mut vk = generate_test_vk(8);
    vk.n = 7;
    // The commitments and the domain are wrong too; the size is named.
    vk.selector_commitments[0].x[31] ^= 1;
    vk.omega = Scalar::from_u64(5);
    assert_eq!(vk.validate(), Err(Error::InvalidCircuitSize));
    vk.n = 0;
    assert_eq!(vk.validate(), Err(Error::InvalidCircuitSize));
    vk.n = 8;
    assert_eq!(vk.validate(), Err(Error::InvalidG1Point));
    vk.selector_commitments[0].x[31] ^= 1;
    assert_eq!(vk.validate(), Err(Error::InvalidDomain));
    // A root of unity of order 16 is none of order 8.
    vk.omega = scalar(Fr::get_root_of_unity(16).unwrap());
    assert_eq!(vk.validate(), Err(Error::InvalidDomain));
    // One of order 4 is.
    vk.omega = scalar(Fr::get_root_of_unity(4).unwrap());
    assert_eq!(vk.validate(), Ok(()));
    vk.lagrange_last.y[0] ^= 1;
    assert_eq!(vk.validate(), Err(Error::InvalidG1Point));
}

#[test]
fn public_input_polynomial_is_lagrange_interpolation() {
    let n: usize = 8;
    let omega = Fr::get_root_of_unity(n as u64).unwrap();
    let inputs = [Fr::from(10u64), Fr::from(20u64), Fr::from(30u64)];
    let point = Fr::from(5u64);
    let zh = point.pow([n as u64]) - Fr::one();
    let mut expected = Fr::zero();
    let mut omega_i = Fr::one();
    for input in inputs {
        let lagrange = zh * omega_i * ((point - omega_i) * Fr::from(n as u64)).inverse().unwrap();
        expected -= input * lagrange;
        omega_i *= omega;
    }
    let computed = compute_public_input_eval(
        &[scalar(inputs[0]), scalar(inputs[1]), scalar(inputs[2])],
        scalar(point),
        scalar(omega),
        n,
    );
    assert_eq!(computed, Ok(scalar(expected)));
    // At a point of the domain a denominator is zero.
    let in_domain = compute_public_input_eval(
        &[scalar(inputs[0]), scalar(inputs[1])],
        scalar(omega),
        scalar(omega),
        n,
    );
    assert_eq!(in_domain, Err(Error::InvalidDomain));
    // The first input's denominator is reached first.
    assert_eq!(
        compute_public_input_eval(&[scalar(inputs[0])], Scalar::one(), scalar(omega), n),
        Err(Error::InvalidDomain)
    );
}

#[test]
fn first_lagrange_polynomial() {
    let n: usize = 8;
    let omega = scalar(Fr::get_root_of_unity(n as u64).unwrap());
    let point = Fr::from(5u64);
    let zh = point.pow([n as u64]) - Fr::one();
    let expected = zh * (Fr::from(n as u64) * (point - Fr::one())).inverse().unwrap();
    assert_eq!(compute_lagrange_first(scalar(point), scalar(zh), omega, n), scalar(expected));
    assert_eq!(compute_lagrange_first(Scalar::one(), scalar(zh), omega, n), Scalar::one());
    // A circuit of size zero has a zero denominator.
    assert_eq!(compute_lagrange_first(scalar(point), scalar(zh), omega, 0), Scalar::zero());
}

#[test]
fn key_encoding_for_the_transcript() {
    let vk = setup_test_vk();
    let bytes = encode_vk_for_transcript(&vk);
    assert_eq!(bytes.len(), 752);
    assert_eq!(&bytes[..8], &8u64.to_be_bytes());
    assert_eq!(&bytes[8..16], &2u64.to_be_bytes());
    assert_eq!(&bytes[16..48], &vk.selector_commitments[0].x);
    assert_eq!(&bytes[48..80], &vk.selector_commitments[0].y);
    assert_eq!(&bytes[336..368], &vk.permutation_commitments[0].x);
    assert_eq!(&bytes[528..560], &vk.lagrange_first.x);
    assert_eq!(&bytes[592..624], &vk.lagrange_last.x);
    assert_eq!(&bytes[656..688], &vk.omega.to_be_bytes());
    assert_eq!(&bytes[688..720], &vk.k1.to_be_bytes());
    assert_eq!(&bytes[720..], &vk.k2.to_be_bytes());
}

// ---------------------------------------------------------------------------
// Proofs
// ---------------------------------------------------------------------------

/// A key, public inputs and a proof that verifies, made with the secret of
/// the setup: commitments are multiples of the generator, so that their
/// openings can be computed.
struct Instance {
    vk: PlonkVerificationKey,
    proof: PlonkProof,
    inputs: Vec<Scalar>,
    tau_g2: G2Point,
}

fn instance(num_inputs: usize) -> Instance {
    let mut rng = ark_std::test_rng();
    let tau = Fr::rand(&mut rng);
    let generator = G1Projective::generator();
    let tau_g2 = g2((G2Projective::generator() * tau).into_affine());
    let commit = |value: Fr| g1((generator * value).into_affine());

    let n: usize = 8;
    let omega = Fr::get_root_of_unity(n as u64).unwrap();
    let selectors: Vec<Fr> = (0..5).map(|_| Fr::rand(&mut rng)).collect();
    let wires: Vec<Fr> = (0..3).map(|_| Fr::rand(&mut rng)).collect();
    let permutation = Fr::rand(&mut rng);
    let vk = PlonkVerificationKey {
        n,
        num_public_inputs: num_inputs,
        selector_commitments: [
            commit(selectors[0]),
            commit(selectors[1]),
            commit(selectors[2]),
            commit(selectors[3]),
            commit(selectors[4]),
        ],
        permutation_commitments: [random_g1(&mut rng), random_g1(&mut rng), random_g1(&mut rng)],
        lagrange_first: random_g1(&mut rng),
        lagrange_last: random_g1(&mut rng),
        omega: scalar(omega),
        k1: Scalar::from_u64(2),
        k2: Scalar::from_u64(3),
    };
    let inputs: Vec<Scalar> = (0..num_inputs).map(|_| scalar(Fr::rand(&mut rng))).collect();

    // Evaluations that meet the arithmetic constraint but for q_C, which is
    // fixed once zeta is known.
    let a = Fr::rand(&mut rng);
    let b = Fr::rand(&mut rng);
    let c = Fr::rand(&mut rng);
    let ql = Fr::rand(&mut rng);
    let qr = Fr::rand(&mut rng);
    let qo = Fr::rand(&mut rng);
    let qm = Fr::rand(&mut rng);
    let z_zeta = Fr::rand(&mut rng);
    let z_omega = Fr::rand(&mut rng);
    let mut proof = PlonkProof {
        wire_commitments: [commit(wires[0]), commit(wires[1]), commit(wires[2])],
        permutation_commitment: commit(permutation),
        quotient_commitments: [random_g1(&mut rng), random_g1(&mut rng), random_g1(&mut rng)],
        wire_evals: [scalar(a), scalar(b), scalar(c)],
        permutation_evals: [scalar(z_zeta), scalar(z_omega)],
        selector_evals: [scalar(ql), scalar(qr), scalar(qo), scalar(qm), Scalar::zero()],
        opening_proof_zeta: G1Point::identity(),
        opening_proof_omega: G1Point::identity(),
    };

    // zeta follows from key, inputs and commitments.
    let zeta = compute_challenges(&proof, &vk, &inputs).zeta;
    let pi = compute_public_input_eval(&inputs, zeta, vk.omega, n).unwrap();
    let qc = -(ql * a + qr * b + qo * c + qm * a * b + fr(pi));
    proof.selector_evals[4] = scalar(qc);
    assert_eq!(compute_gate_value(&proof, pi), Scalar::zero());

    // v follows from the evaluations; the openings follow from v.
    let challenges = compute_challenges(&proof, &vk, &inputs);
    assert_eq!(challenges.zeta, zeta);
    let zeta = fr(zeta);
    let v = fr(challenges.v);
    let committed =
        [wires[0], wires[1], wires[2], selectors[0], selectors[1], selectors[2], selectors[3], selectors[4], permutation];
    let claimed = [a, b, c, ql, qr, qo, qm, qc, z_zeta];
    let mut aggregated = Fr::zero();
    let mut weight = Fr::one();
    for k in 0..9 {
        aggregated += weight * (committed[k] - claimed[k]);
        weight *= v;
    }
    proof.opening_proof_zeta = commit(aggregated * (tau - zeta).inverse().unwrap());
    proof.opening_proof_omega =
        commit((permutation - z_omega) * (tau - zeta * omega).inverse().unwrap());
    Instance { vk, proof, inputs, tau_g2 }
}

fn proof_bytes(proof: &PlonkProof) -> Vec<u8> {
    let mut out = Vec::new();
    for p in &proof.wire_commitments {
        out.extend(g1_bytes(p));
    }
    out.extend(g1_bytes(&proof.permutation_commitment));
    for p in &proof.quotient_commitments {
        out.extend(g1_bytes(p));
    }
    out.extend(g1_bytes(&proof.opening_proof_zeta));
    out.extend(g1_bytes(&proof.opening_proof_omega));
    for s in
        proof.wire_evals.iter().chain(proof.permutation_evals.iter()).chain(proof.selector_evals.iter())
    {
        out.extend_from_slice(&s.to_be_bytes());
    }
    out
}

fn vk_bytes(vk: &PlonkVerificationKey, tau_g2: &G2Point) -> Vec<u8> {
    let mut out = encode_vk_for_transcript(vk);
    out.extend(g2_bytes(tau_g2));
    out
}

fn input_bytes(inputs: &[Scalar]) -> Vec<u8> {
    let mut out = Vec::new();
    for input in inputs {
        out.extend_from_slice(&input.to_be_bytes());
    }
    out
}

#[test]
fn valid_plonk_proof_is_accepted() {
    for num_inputs in [0usize, 2] {
        let i = instance(num_inputs);
        assert_eq!(verify_plonk_host(&i.proof, &i.vk, &i.inputs, &i.tau_g2), Ok(true));
    }
}

#[test]
fn valid_plonk_proof_is_accepted_from_bytes() {
    let i = instance(2);
    let proof = proof_bytes(&i.proof);
    let vk = vk_bytes(&i.vk, &i.tau_g2);
    let inputs = input_bytes(&i.inputs);
    assert_eq!(proof.len(), 896);
    assert_eq!(vk.len(), 880);
    assert_eq!(deserialize_plonk_proof(&proof), Some(i.proof));
    assert_eq!(deserialize_plonk_vk(&vk), Some(i.vk));
    assert_eq!(verify_host(&proof, &inputs, &vk), Ok(true));
    assert_eq!(verify(&proof, &inputs, &vk), Ok(true));
    assert!(PlonkVerifier::verify(&proof, &inputs, &vk).valid);
    // Bytes between the key and tau G2 are not read.
    let mut longer = encode_vk_for_transcript(&i.vk);
    longer.extend_from_slice(&[0xabu8; 40]);
    longer.extend(g2_bytes(&i.tau_g2));
    assert_eq!(verify_host(&proof, &inputs, &longer), Ok(true));
}

#[test]
fn constraint_that_is_not_met_is_a_false_proof() {
    let i = instance(2);
    let mut proof = i.proof;
    proof.wire_evals[0] = fr_add(proof.wire_evals[0], Scalar::one());
    assert_eq!(verify_plonk_host(&proof, &i.vk, &i.inputs, &i.tau_g2), Ok(false));
    // Other public inputs change the public-input polynomial.
    let mut inputs = i.inputs.clone();
    inputs[1] = fr_add(inputs[1], Scalar::one());
    assert_eq!(verify_plonk_host(&i.proof, &i.vk, &inputs, &i.tau_g2), Ok(false));
}

#[test]
fn opening_that_does_not_hold_is_a_false_proof() {
    let i = instance(2);
    // The batch at zeta.
    let mut proof = i.proof;
    proof.opening_proof_zeta = proof.opening_proof_omega;
    assert_eq!(verify_plonk_host(&proof, &i.vk, &i.inputs, &i.tau_g2), Ok(false));
    // The single opening at zeta omega.
    let mut proof = i.proof;
    proof.opening_proof_omega = proof.opening_proof_zeta;
    assert_eq!(verify_plonk_host(&proof, &i.vk, &i.inputs, &i.tau_g2), Ok(false));
    // A commitment that was swapped for another changes the challenges.
    let mut proof = i.proof;
    proof.quotient_commitments[0] = proof.quotient_commitments[1];
    assert_eq!(verify_plonk_host(&proof, &i.vk, &i.inputs, &i.tau_g2), Ok(false));
    // Another reference string.
    let other_tau = g2(G2Affine::generator());
    assert_eq!(verify_plonk_host(&i.proof, &i.vk, &i.inputs, &other_tau), Ok(false));
}

#[test]
fn malformed_points_are_errors() {
    let i = instance(0);
    let mut proof = i.proof;
    proof.wire_commitments[1].y[31] ^= 1;
    assert_eq!(verify_plonk_host(&proof, &i.vk, &i.inputs, &i.tau_g2), Err(Error::MalformedProof));
    let mut proof = i.proof;
    proof.opening_proof_zeta.y[31] ^= 1;
    assert_eq!(verify_plonk_host(&proof, &i.vk, &i.inputs, &i.tau_g2), Err(Error::MalformedProof));
    let mut proof = i.proof;
    proof.opening_proof_omega.y[31] ^= 1;
    assert_eq!(verify_plonk_host(&proof, &i.vk, &i.inputs, &i.tau_g2), Err(Error::MalformedProof));
    let mut tau = i.tau_g2;
    tau.x_c1[31] ^= 1;
    assert_eq!(verify_plonk_host(&i.proof, &i.vk, &i.inputs, &tau), Err(Error::MalformedProof));
}

#[test]
fn byte_entry_errors() {
    let i = instance(2);
    let proof = proof_bytes(&i.proof);
    let vk = vk_bytes(&i.vk, &i.tau_g2);
    let inputs = input_bytes(&i.inputs);
    assert_eq!(verify(&[0u8; 4097], &inputs, &vk), Err(Error::InvalidInputSize));
    assert_eq!(verify(&proof, &inputs, &[0u8; 8193]), Err(Error::InvalidInputSize));
    assert_eq!(verify(&proof, &[0u8; 257 * 32], &vk), Err(Error::InvalidInputSize));
    assert_eq!(verify(&proof, &inputs[..63], &vk), Err(Error::InvalidPublicInputs));
    assert_eq!(verify(&proof[..895], &inputs, &vk), Err(Error::DeserializationError));
    assert_eq!(verify(&proof, &inputs, &vk[..879]), Err(Error::InvalidVerificationKey));
    assert_eq!(verify(&proof, &inputs[..32], &vk), Err(Error::InvalidPublicInput));
    assert_eq!(verify_host(&[], &[], &[]), Err(Error::DeserializationError));
    assert_eq!(verify_host(&proof, &[0u8; 31], &[]), Err(Error::InvalidVerificationKey));
    assert_eq!(verify_host(&proof, &[0u8; 31], &vk), Err(Error::InvalidPublicInputs));
    // Public inputs are reduced into the field: 5 and 5 + r are one input.
    let r = Scalar::from_halves(
        0x30644e72e131a029b85045b68181585d,
        0x2833e84879b9709143e1f593f0000001,
    );
    let small = instance_with_first_input_small();
    let mut bytes = input_bytes(&small.inputs);
    let mut lifted = r.to_be_bytes();
    lifted[31] += 5;
    bytes[..32].copy_from_slice(&lifted);
    let small_proof = proof_bytes(&small.proof);
    let small_vk = vk_bytes(&small.vk, &small.tau_g2);
    assert_eq!(verify_host(&small_proof, &input_bytes(&small.inputs), &small_vk), Ok(true));
    assert_eq!(verify_host(&small_proof, &bytes, &small_vk), Ok(true));
}

/// As `instance(1)`, with the public input 5.
fn instance_with_first_input_small() -> Instance {
    let mut rng = ark_std::test_rng();
    let tau = Fr::rand(&mut rng);
    let generator = G1Projective::generator();
    let tau_g2 = g2((G2Projective::generator() * tau).into_affine());
    let commit = |value: Fr| g1((generator * value).into_affine());
    let omega = Fr::get_root_of_unity(8u64).unwrap();
    let committed: Vec<Fr> = (0..9).map(|_| Fr::rand(&mut rng)).collect();
    let vk = PlonkVerificationKey {
        n: 8,
        num_public_inputs: 1,
        selector_commitments: [
            commit(committed[3]),
            commit(committed[4]),
            commit(committed[5]),
            commit(committed[6]),
            commit(committed[7]),
        ],
        permutation_commitments: [random_g1(&mut rng), random_g1(&mut rng), random_g1(&mut rng)],
        lagrange_first: random_g1(&mut rng),
        lagrange_last: random_g1(&mut rng),
        omega: scalar(omega),
        k1: Scalar::from_u64(2),
        k2: Scalar::from_u64(3),
    };
    let inputs = vec![Scalar::from_u64(5)];
    let mut claimed: Vec<Fr> = (0..9).map(|_| Fr::rand(&mut rng)).collect();
    let z_omega = Fr::rand(&mut rng);
    let mut proof = PlonkProof {
        wire_commitments: [commit(committed[0]), commit(committed[1]), commit(committed[2])],
        permutation_commitment: commit(committed[8]),
        quotient_commitments: [random_g1(&mut rng), random_g1(&mut rng), random_g1(&mut rng)],
        wire_evals: [scalar(claimed[0]), scalar(claimed[1]), scalar(claimed[2])],
        permutation_evals: [scalar(claimed[8]), scalar(z_omega)],
        selector_evals: [
            scalar(claimed[3]),
            scalar(claimed[4]),
            scalar(claimed[5]),
            scalar(claimed[6]),
            Scalar::zero(),
        ],
        opening_proof_zeta: G1Point::identity(),
        opening_proof_omega: G1Point::identity(),
    };
    let zeta = compute_challenges(&proof, &vk, &inputs).zeta;
    let pi = compute_public_input_eval(&inputs, zeta, vk.omega, 8).unwrap();
    claimed[7] = -(claimed[3] * claimed[0]
        + claimed[4] * claimed[1]
        + claimed[5] * claimed[2]
        + claimed[6] * claimed[0] * claimed[1]
        + fr(pi));
    proof.selector_evals[4] = scalar(claimed[7]);
    let challenges = compute_challenges(&proof, &vk, &inputs);
    let zeta = fr(challenges.zeta);
    let v = fr(challenges.v);
    let mut aggregated = Fr::zero();
    let mut weight = Fr::one();
    for k in 0..9 {
        aggregated += weight * (committed[k] - claimed[k]);
        weight *= v;
    }
    proof.opening_proof_zeta = commit(aggregated * (tau - zeta).inverse().unwrap());
    proof.opening_proof_omega =
        commit((committed[8] - z_omega) * (tau - zeta * omega).inverse().unwrap());
    Instance { vk, proof, inputs, tau_g2 }
}

#[test]
fn plonk_batch_gives_the_single_verdicts() {
    let i = instance(2);
    let proof = proof_bytes(&i.proof);
    let vk = vk_bytes(&i.vk, &i.tau_g2);
    let inputs = input_bytes(&i.inputs);
    let mut false_proof = proof.clone();
    false_proof[895] ^= 1;
    let proofs = vec![proof.clone(), false_proof, vec![0u8; 10], proof.clone()];
    let all_inputs = vec![inputs.clone(), inputs.clone(), inputs.clone(), inputs[..32].to_vec()];
    let results = batch_verify(&proofs, &all_inputs, &vk).unwrap();
    assert_eq!(results, vec![true, false, false, false]);
    for k in 0..proofs.len() {
        assert_eq!(results[k], verify(&proofs[k], &all_inputs[k], &vk) == Ok(true));
    }
    assert_eq!(batch_verify(&proofs, &all_inputs[..3], &vk), Err(Error::InvalidInputSize));
    assert_eq!(batch_verify(&[], &[], &vk), Ok(vec![]));
}

#[test]
fn challenges_are_bound_to_what_came_before() {
    let i = instance(2);
    let base = compute_challenges(&i.proof, &i.vk, &i.inputs);
    let again = compute_challenges(&i.proof, &i.vk, &i.inputs);
    assert_eq!(base.beta, again.beta);
    assert_eq!(base.u, again.u);

    // An opening proof comes after v: only u changes.
    let mut proof = i.proof;
    proof.opening_proof_omega = proof.opening_proof_zeta;
    let changed = compute_challenges(&proof, &i.vk, &i.inputs);
    assert_eq!(base.v, changed.v);
    assert_ne!(base.u, changed.u);

    // An evaluation comes after zeta: v and u change.
    let mut proof = i.proof;
    proof.selector_evals[2] = Scalar::from_u64(1);
    let changed = compute_challenges(&proof, &i.vk, &i.inputs);
    assert_eq!(base.zeta, changed.zeta);
    assert_ne!(base.v, changed.v);
    assert_ne!(base.u, changed.u);

    // The permutation commitment comes after beta and gamma.
    let mut proof = i.proof;
    proof.permutation_commitment = proof.wire_commitments[0];
    let changed = compute_challenges(&proof, &i.vk, &i.inputs);
    assert_eq!(base.beta, changed.beta);
    assert_eq!(base.gamma, changed.gamma);
    assert_ne!(base.alpha, changed.alpha);
    assert_ne!(base.zeta, changed.zeta);

    // A public input comes before everything.
    let mut inputs = i.inputs.clone();
    inputs.swap(0, 1);
    let changed = compute_challenges(&i.proof, &i.vk, &inputs);
    assert_ne!(base.beta, changed.beta);
    assert_ne!(base.gamma, changed.gamma);
    assert_ne!(base.beta, base.gamma);
}

#[test]
fn gate_value_formula() {
    let mut proof = generate_test_proof();
    proof.wire_evals = [Scalar::from_u64(2), Scalar::from_u64(3), Scalar::from_u64(5)];
    proof.selector_evals = [
        Scalar::from_u64(7),
        Scalar::from_u64(11),
        Scalar::from_u64(13),
        Scalar::from_u64(17),
        Scalar::from_u64(19),
    ];
    // 7*2 + 11*3 + 13*5 + 17*2*3 + 19 + 23
    assert_eq!(
        compute_gate_value(&proof, Scalar::from_u64(23)),
        Scalar::from_u64(14 + 33 + 65 + 102 + 19 + 23)
    );
}

// ---------------------------------------------------------------------------
// Reference string
// ---------------------------------------------------------------------------

#[test]
fn test_srs_degree_size() {
    assert_eq!(SrsDegree::D1024.size(), 1024);
    assert_eq!(SrsDegree::D4096.size(), 4096);
    assert_eq!(SrsDegree::D1048576.size(), 1048576);
}

#[test]
fn degrees_by_exponent() {
    assert_eq!(SrsDegree::from_exponent(10), Ok(SrsDegree::D1024));
    assert_eq!(SrsDegree::from_exponent(12), Ok(SrsDegree::D4096));
    assert_eq!(SrsDegree::from_exponent(14), Ok(SrsDegree::D16384));
    assert_eq!(SrsDegree::from_exponent(16), Ok(SrsDegree::D65536));
    assert_eq!(SrsDegree::from_exponent(18), Ok(SrsDegree::D262144));
    assert_eq!(SrsDegree::from_exponent(20), Ok(SrsDegree::D1048576));
    assert_eq!(SrsDegree::from_exponent(11), Err(Error::InvalidSrsSize));
    assert_eq!(SrsDegree::from_exponent(0), Err(Error::InvalidSrsSize));
    for degree in [SrsDegree::D1024, SrsDegree::D16384, SrsDegree::D262144] {
        assert_eq!(SrsDegree::from_exponent(degree.exponent()), Ok(degree));
        assert_eq!(degree.size(), 1 << degree.exponent());
    }
}

#[test]
fn test_srs_creation() {
    let srs = generate_test_srs(SrsDegree::D1024);
    assert_eq!(srs.g1_powers.len(), 1025);
    assert_eq!(srs.g2_powers.len(), 2);
    assert_eq!(srs.degree, SrsDegree::D1024);
}

#[test]
fn test_srs_consistency() {
    let srs = generate_test_srs(SrsDegree::D1024);
    assert!(srs.verify_consistency().unwrap());
}

#[test]
fn test_srs_hash_deterministic() {
    let srs1 = generate_test_srs(SrsDegree::D1024);
    let hash1 = srs1.hash;

    let srs2 = Srs::new(srs1.g1_powers.clone(), srs1.g2_powers.clone(), srs1.degree).unwrap();
    let hash2 = srs2.hash;

    assert_eq!(hash1, hash2);
}

#[test]
fn srs_test_srs_hash_verification() {
    let srs = generate_test_srs(SrsDegree::D1024);
    let correct_hash = srs.hash;
    assert!(srs.verify_hash(&correct_hash));

    let wrong_hash = [0u8; 32];
    assert!(!srs.verify_hash(&wrong_hash));
}

#[test]
fn srs_test_srs_registry() {
    let mut registry = SrsRegistry::new();

    let srs1024 = generate_test_srs(SrsDegree::D1024);
    let srs4096 = generate_test_srs(SrsDegree::D4096);

    registry.register(srs1024).unwrap();
    registry.register(srs4096).unwrap();

    assert!(registry.has(SrsDegree::D1024));
    assert!(registry.has(SrsDegree::D4096));
    assert!(!registry.has(SrsDegree::D16384));

    let registered = registry.registered_degrees();
    assert_eq!(registered.len(), 2);
}

#[test]
fn srs_test_srs_msm() {
    let srs = generate_test_srs(SrsDegree::D1024);

    let scalars = vec![Scalar::from_u64(1), Scalar::from_u64(2), Scalar::from_u64(3)];
    let result = srs.msm_g1(&scalars);
    assert!(result.is_ok());

    let point = result.unwrap();
    assert!(kzg::validate_g1_point(&point));
}

#[test]
fn test_invalid_srs_size() {
    let g1_gen = G1Projective::generator();
    let g2_gen = G2Projective::generator();

    let g1_powers = vec![g1(g1_gen.into_affine()); 10];
    let g2_powers = vec![g2(g2_gen.into_affine()); 2];

    let result = Srs::new(g1_powers, g2_powers, SrsDegree::D1024);
    assert!(result.is_err());
}

#[test]
fn test_duplicate_registration() {
    let mut registry = SrsRegistry::new();
    let srs1 = generate_test_srs(SrsDegree::D1024);
    let srs2 = generate_test_srs(SrsDegree::D1024);

    registry.register(srs1).unwrap();
    let result = registry.register(srs2);
    assert!(result.is_err());
}

#[test]
fn test_srs_generation_and_validation() {
    let srs = generate_test_srs(SrsDegree::D1024);

    assert_eq!(srs.g1_powers.len(), 1025);
    assert_eq!(srs.g2_powers.len(), 2);
    assert_eq!(srs.degree, SrsDegree::D1024);

    for point in &srs.g1_powers {
        assert!(kzg::validate_g1_point(point));
    }
    for point in &srs.g2_powers {
        assert!(kzg::validate_g2_point(point));
    }
}

#[test]
fn test_srs_consistency_check() {
    let srs = generate_test_srs(SrsDegree::D1024);

    let is_consistent = srs.verify_consistency().unwrap();
    assert!(is_consistent);
}

#[test]
fn plonk_tests_test_srs_hash_verification() {
    let srs = generate_test_srs(SrsDegree::D1024);

    let hash = srs.hash;
    assert!(srs.verify_hash(&hash));

    let wrong_hash = [0u8; 32];
    assert!(!srs.verify_hash(&wrong_hash));
}

#[test]
fn plonk_tests_test_srs_registry() {
    let mut registry = SrsRegistry::new();

    let srs1024 = generate_test_srs(SrsDegree::D1024);
    let srs4096 = generate_test_srs(SrsDegree::D4096);

    registry.register(srs1024).unwrap();
    registry.register(srs4096).unwrap();

    assert!(registry.has(SrsDegree::D1024));
    assert!(registry.has(SrsDegree::D4096));
    assert!(!registry.has(SrsDegree::D16384));

    let retrieved = registry.get(SrsDegree::D1024).unwrap();
    assert_eq!(retrieved.degree, SrsDegree::D1024);
}

#[test]
fn test_srs_registry_duplicate_rejection() {
    let mut registry = SrsRegistry::new();

    let srs1 = generate_test_srs(SrsDegree::D1024);
    let srs2 = generate_test_srs(SrsDegree::D1024);

    registry.register(srs1).unwrap();

    let result = registry.register(srs2);
    assert!(result.is_err());
}

#[test]
fn plonk_tests_test_srs_msm() {
    let srs = generate_test_srs(SrsDegree::D1024);

    let scalars = vec![Scalar::from_u64(1), Scalar::from_u64(2), Scalar::from_u64(3)];
    let result = srs.msm_g1(&scalars);

    assert!(result.is_ok());
    let point = result.unwrap();
    assert!(kzg::validate_g1_point(&point));
}

#[test]
fn test_reject_wrong_public_input_count() {
    let vk = generate_test_vk(8);
    let proof = generate_test_proof();
    let srs = generate_test_srs(SrsDegree::D1024);

    let wrong_inputs = vec![Scalar::from_u64(1), Scalar::from_u64(2), Scalar::from_u64(3)];

    let result = verify_plonk_proof(&proof, &vk, &wrong_inputs, &srs);
    assert!(result.is_err());
}

#[test]
fn test_reject_invalid_vk() {
    let mut vk = generate_test_vk(8);
    let proof = generate_test_proof();
    let srs = generate_test_srs(SrsDegree::D1024);
    let inputs = vec![Scalar::from_u64(1), Scalar::from_u64(2)];

    vk.n = 7;

    let result = verify_plonk_proof(&proof, &vk, &inputs, &srs);
    assert!(result.is_err());
}

#[test]
fn test_srs_insufficient_size() {
    let srs = generate_test_srs(SrsDegree::D1024);

    let result = srs.get_g1_power(2000);
    assert!(result.is_err());
}

#[test]
fn test_full_verification_flow() {
    let n = 8;
    let vk = generate_test_vk(n);
    let proof = generate_test_proof();
    let srs = generate_test_srs(SrsDegree::D1024);
    let public_inputs = vec![Scalar::from_u64(10), Scalar::from_u64(20)];

    let result = verify_plonk_proof(&proof, &vk, &public_inputs, &srs);

    assert!(result.is_ok() || result.is_err());
}

#[test]
fn test_multiple_verifications_same_srs() {
    let srs = generate_test_srs(SrsDegree::D1024);

    for _ in 0..5 {
        let vk = generate_test_vk(8);
        let proof = generate_test_proof();
        let inputs = vec![Scalar::from_u64(1), Scalar::from_u64(2)];

        let result = verify_plonk_proof(&proof, &vk, &inputs, &srs);
        assert!(result.is_ok() || result.is_err());
    }
}

#[test]
fn mod_test_error_display() {
    assert_eq!(Error::DeserializationError.to_string(), "Failed to deserialize proof");
    assert_eq!(Error::KZGVerificationFailed.to_string(), "KZG opening proof verification failed");
}

/// A reference string that `Srs::new` was not asked about.
fn small_srs(tau: Fr, powers: usize) -> Srs {
    let g1_gen = G1Projective::generator();
    let mut g1_powers = Vec::new();
    let mut tau_power = Fr::one();
    for _ in 0..powers {
        g1_powers.push(g1((g1_gen * tau_power).into_affine()));
        tau_power *= tau;
    }
    let g2_gen = G2Projective::generator();
    let g2_powers = vec![g2(g2_gen.into_affine()), g2((g2_gen * tau).into_affine())];
    let hash = Srs::compute_hash(&g1_powers, &g2_powers);
    Srs { g1_powers, g2_powers, degree: SrsDegree::D1024, hash }
}

#[test]
fn reference_string_that_mixes_two_secrets_is_not_consistent() {
    let srs = small_srs(Fr::from(7u64), 4);
    assert_eq!(srs.verify_consistency(), Ok(true));
    let mut mixed = small_srs(Fr::from(7u64), 4);
    mixed.g2_powers[1] = small_srs(Fr::from(8u64), 2).g2_powers[1];
    assert_eq!(mixed.verify_consistency(), Ok(false));
    let mut short = small_srs(Fr::from(7u64), 4);
    short.g1_powers.truncate(1);
    assert_eq!(short.verify_consistency(), Err(Error::InvalidSrsSize));
    let mut short = small_srs(Fr::from(7u64), 4);
    short.g2_powers.truncate(1);
    assert_eq!(short.verify_consistency(), Err(Error::InvalidSrsSize));

    let mut registry = SrsRegistry::new();
    assert_eq!(registry.register(mixed), Err(Error::InvalidProof));
    assert_eq!(registry.register(short), Err(Error::InvalidSrsSize));
    assert!(registry.registered_degrees().is_empty());
    assert!(matches!(registry.get(SrsDegree::D1024), Err(Error::InvalidSrsSize)));
    assert_eq!(registry.register(srs), Ok(()));
    assert_eq!(registry.registered_degrees(), vec![SrsDegree::D1024]);
    assert_eq!(registry.get(SrsDegree::D1024).unwrap().g1_powers.len(), 4);
}

#[test]
fn registered_degrees_come_smallest_first() {
    let mut registry = SrsRegistry::default();
    for degree in [SrsDegree::D65536, SrsDegree::D1024, SrsDegree::D16384] {
        let mut srs = small_srs(Fr::from(3u64), 2);
        srs.degree = degree;
        registry.register(srs).unwrap();
    }
    assert_eq!(
        registry.registered_degrees(),
        vec![SrsDegree::D1024, SrsDegree::D16384, SrsDegree::D65536]
    );
}

#[test]
fn multi_scalar_multiplication_commits_to_a_polynomial() {
    let tau = Fr::from(7u64);
    let srs = small_srs(tau, 4);
    let coefficients = [Fr::from(1u64), Fr::from(2u64), Fr::from(3u64)];
    let expected = g1((G1Projective::generator() * evaluate(&coefficients, tau)).into_affine());
    let scalars = [Scalar::from_u64(1), Scalar::from_u64(2), Scalar::from_u64(3)];
    assert_eq!(srs.msm_g1(&scalars), Ok(expected));
    assert_eq!(srs.msm_g1(&[]), Ok(G1Point::identity()));
    assert_eq!(srs.msm_g1(&[Scalar::one(); 5]), Err(Error::InvalidSrsSize));
    assert_eq!(srs.g1(), &g1(G1Affine::generator()));
    assert_eq!(srs.g2(), &g2(G2Affine::generator()));
    assert_eq!(srs.tau_g2(), &srs.g2_powers[1]);
    assert_eq!(srs.get_g1_power(3), Ok(&srs.g1_powers[3]));
    assert_eq!(srs.get_g1_power(4), Err(Error::InvalidSrsSize));
}

#[test]
fn reference_string_hash_is_keccak_of_all_coordinates() {
    let srs = small_srs(Fr::from(7u64), 2);
    let mut data = Vec::new();
    for p in &srs.g1_powers {
        data.extend_from_slice(&p.x);
        data.extend_from_slice(&p.y);
    }
    for q in &srs.g2_powers {
        data.extend_from_slice(&q.x_c0);
        data.extend_from_slice(&q.x_c1);
        data.extend_from_slice(&q.y_c0);
        data.extend_from_slice(&q.y_c1);
    }
    assert_eq!(srs.hash, keccak(&data));
}

#[test]
fn new_reference_string_names_what_is_wrong() {
    let g1_point = g1(G1Affine::generator());
    let g2_point = g2(G2Affine::generator());
    let too_few = Srs::new(vec![g1_point; 1025], vec![g2_point; 1], SrsDegree::D1024);
    assert!(matches!(too_few, Err(Error::InvalidSrsSize)));
    let too_many = Srs::new(vec![g1_point; 1026], vec![g2_point; 2], SrsDegree::D1024);
    assert!(matches!(too_many, Err(Error::InvalidSrsSize)));
    let mut bad_g1 = vec![g1_point; 1025];
    bad_g1[1024].x[31] ^= 1;
    let mut bad_g2 = vec![g2_point; 2];
    bad_g2[1].x_c0[31] ^= 1;
    assert!(matches!(
        Srs::new(bad_g1, bad_g2.clone(), SrsDegree::D1024),
        Err(Error::InvalidG1Point)
    ));
    assert!(matches!(
        Srs::new(vec![g1_point; 1025], bad_g2, SrsDegree::D1024),
        Err(Error::InvalidG2Point)
    ));
}

#[test]
fn proof_needs_a_reference_string_with_tau() {
    let i = instance(0);
    let mut srs = small_srs(Fr::from(7u64), 2);
    srs.g2_powers[1] = i.tau_g2;
    assert_eq!(verify_plonk_proof(&i.proof, &i.vk, &i.inputs, &srs), Ok(true));
    srs.g2_powers.truncate(1);
    assert_eq!(verify_plonk_proof(&i.proof, &i.vk, &i.inputs, &srs), Err(Error::InvalidSRS));
}
