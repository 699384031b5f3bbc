//! The curve arithmetic that the pairing-based verifiers stand on.
//!
//! Points of BN254 are held as plain coordinates, big-endian. Three
//! operations come from arkworks: adding points, multiplying a point by a
//! scalar, and the product of pairings. What they return is named here, one
//! name per operation; the verifiers are stated over these names and use
//! nothing else of the curve.

use crate::bytes::{
    append_bytes, append_le, append_zeros, array32, be_value, le_bytes, read_array32, zero_word,
    zeros,
};
use crate::field::{reduce_mod, Scalar};
use ark_bn254::{Bn254, Fq, Fq2, Fr, G1Affine, G2Affine};
use ark_ec::pairing::Pairing;
use ark_ec::CurveGroup;
use ark_ff::{BigInteger, PrimeField};
use ark_serialize::{CanonicalDeserialize, CanonicalSerialize};
use vstd::arithmetic::div_mod::lemma_small_mod;
use vstd::prelude::*;

verus! {

/// The order of the base field of BN254,
/// 21888242871839275222246405745257275088696311157297823662689037894645226208583.
pub open spec fn base_modulus() -> nat {
    0x30644e72e131a029b85045b68181585d97816a916871ca8d3c208c16d87cfd47nat
}

/// A point of G1: affine coordinates in the base field, or the point at
/// infinity.
#[derive(Debug, Clone, Copy, PartialEq, Eq)]
pub struct G1Point {
    pub x: [u8; 32],
    pub y: [u8; 32],
    pub infinity: bool,
}

/// A point of G2: affine coordinates in the quadratic extension, each as its
/// real part `c0` and its imaginary part `c1`, or the point at infinity.
#[derive(Debug, Clone, Copy, PartialEq, Eq)]
pub struct G2Point {
    pub x_c0: [u8; 32],
    pub x_c1: [u8; 32],
    pub y_c0: [u8; 32],
    pub y_c1: [u8; 32],
    pub infinity: bool,
}

/// Whether the coordinates of `p`, reduced into the base field, meet
/// `y^2 = x^3 + 3`; the point at infinity does.
pub open spec fn g1_curve_equation(p: G1Point) -> bool {
    let x = be_value(p.x@);
    let y = be_value(p.y@);
    p.infinity || (y * y) % base_modulus() == (x * x * x + 3) % base_modulus()
}

/// Whether arkworks finds `p` in the subgroup of prime order.
pub uninterp spec fn spec_g1_in_subgroup(p: G1Point) -> bool;

/// Whether arkworks finds `q` on the twist curve.
pub uninterp spec fn spec_g2_on_curve(q: G2Point) -> bool;

/// Whether arkworks finds `q` in the subgroup of prime order.
pub uninterp spec fn spec_g2_in_subgroup(q: G2Point) -> bool;

/// The sum of two points of G1.
pub uninterp spec fn spec_g1_add(a: G1Point, b: G1Point) -> G1Point;

/// The point of G1 opposite to `a`.
pub uninterp spec fn spec_g1_neg(a: G1Point) -> G1Point;

/// `s` times the point `a` of G1.
pub uninterp spec fn spec_g1_mul(a: G1Point, s: Scalar) -> G1Point;

/// The sum of two points of G2.
pub uninterp spec fn spec_g2_add(a: G2Point, b: G2Point) -> G2Point;

/// The point of G2 opposite to `a`.
pub uninterp spec fn spec_g2_neg(a: G2Point) -> G2Point;

/// `s` times the point `a` of G2.
pub uninterp spec fn spec_g2_mul(a: G2Point, s: Scalar) -> G2Point;

/// The product of the pairings of two lists of points, each list in the
/// serialized form that `pairing_product` takes; `None` where arkworks
/// cannot read a list or the product has no final exponentiation.
pub uninterp spec fn spec_pairing_product(g1s: Seq<u8>, g2s: Seq<u8>) -> Option<Seq<u8>>;

/// `Affine::is_on_curve` of ark-ec on G1 of BN254, whose equation is
/// `y^2 = x^3 + 3`. Coordinates are reduced into the base field first.
#[verifier::external_body]
pub(crate) fn g1_on_curve(p: &G1Point) -> (on: bool)
    ensures
        on == g1_curve_equation(*p),
{
    let x = Fq::from_be_bytes_mod_order(&p.x);
    let y = Fq::from_be_bytes_mod_order(&p.y);
    G1Affine { x, y, infinity: p.infinity }.is_on_curve()
}

/// `Affine::is_in_correct_subgroup_assuming_on_curve` of ark-ec on G1.
#[verifier::external_body]
pub(crate) fn g1_in_subgroup(p: &G1Point) -> (inside: bool)
    ensures
        inside == spec_g1_in_subgroup(*p),
{
    let x = Fq::from_be_bytes_mod_order(&p.x);
    let y = Fq::from_be_bytes_mod_order(&p.y);
    G1Affine { x, y, infinity: p.infinity }.is_in_correct_subgroup_assuming_on_curve()
}

/// `Affine::is_on_curve` of ark-ec on G2.
#[verifier::external_body]
pub(crate) fn g2_on_curve(q: &G2Point) -> (on: bool)
    ensures
        on == spec_g2_on_curve(*q),
{
    let fq = |b: &[u8; 32]| Fq::from_be_bytes_mod_order(b);
    let x = Fq2::new(fq(&q.x_c0), fq(&q.x_c1));
    let y = Fq2::new(fq(&q.y_c0), fq(&q.y_c1));
    G2Affine { x, y, infinity: q.infinity }.is_on_curve()
}

/// `Affine::is_in_correct_subgroup_assuming_on_curve` of ark-ec on G2.
#[verifier::external_body]
pub(crate) fn g2_in_subgroup(q: &G2Point) -> (inside: bool)
    ensures
        inside == spec_g2_in_subgroup(*q),
{
    let fq = |b: &[u8; 32]| Fq::from_be_bytes_mod_order(b);
    let x = Fq2::new(fq(&q.x_c0), fq(&q.x_c1));
    let y = Fq2::new(fq(&q.y_c0), fq(&q.y_c1));
    G2Affine { x, y, infinity: q.infinity }.is_in_correct_subgroup_assuming_on_curve()
}

/// Addition of two affine points of G1 in ark-ec, the sum made affine.
#[verifier::external_body]
pub(crate) fn g1_add(a: &G1Point, b: &G1Point) -> (sum: G1Point)
    ensures
        sum == spec_g1_add(*a, *b),
{
    let fq = |b: &[u8; 32]| Fq::from_be_bytes_mod_order(b);
    let p = G1Affine { x: fq(&a.x), y: fq(&a.y), infinity: a.infinity };
    let q = G1Affine { x: fq(&b.x), y: fq(&b.y), infinity: b.infinity };
    let r = (p + q).into_affine();
    let be = |f: Fq| f.into_bigint().to_bytes_be().try_into().unwrap();
    G1Point { x: be(r.x), y: be(r.y), infinity: r.infinity }
}

/// Negation of an affine point of G1 in ark-ec.
#[verifier::external_body]
pub(crate) fn g1_neg(a: &G1Point) -> (opposite: G1Point)
    ensures
        opposite == spec_g1_neg(*a),
{
    let fq = |b: &[u8; 32]| Fq::from_be_bytes_mod_order(b);
    let r = -G1Affine { x: fq(&a.x), y: fq(&a.y), infinity: a.infinity };
    let be = |f: Fq| f.into_bigint().to_bytes_be().try_into().unwrap();
    G1Point { x: be(r.x), y: be(r.y), infinity: r.infinity }
}

/// Multiplication of an affine point of G1 by a scalar in ark-ec, the
/// product made affine. The scalar is reduced into the scalar field first.
#[verifier::external_body]
pub(crate) fn g1_mul(a: &G1Point, s: &Scalar) -> (product: G1Point)
    ensures
        product == spec_g1_mul(*a, *s),
{
    let fq = |b: &[u8; 32]| Fq::from_be_bytes_mod_order(b);
    let p = G1Affine { x: fq(&a.x), y: fq(&a.y), infinity: a.infinity };
    let r = (p * Fr::from_be_bytes_mod_order(&s.bytes)).into_affine();
    let be = |f: Fq| f.into_bigint().to_bytes_be().try_into().unwrap();
    G1Point { x: be(r.x), y: be(r.y), infinity: r.infinity }
}

/// Addition of two affine points of G2 in ark-ec, the sum made affine.
#[verifier::external_body]
pub(crate) fn g2_add(a: &G2Point, b: &G2Point) -> (sum: G2Point)
    ensures
        sum == spec_g2_add(*a, *b),
{
    let fq = |b: &[u8; 32]| Fq::from_be_bytes_mod_order(b);
    let ark = |q: &G2Point| G2Affine {
        x: Fq2::new(fq(&q.x_c0), fq(&q.x_c1)),
        y: Fq2::new(fq(&q.y_c0), fq(&q.y_c1)),
        infinity: q.infinity,
    };
    let r = (ark(a) + ark(b)).into_affine();
    let be = |f: Fq| f.into_bigint().to_bytes_be().try_into().unwrap();
    G2Point { x_c0: be(r.x.c0), x_c1: be(r.x.c1), y_c0: be(r.y.c0), y_c1: be(r.y.c1), infinity: r.infinity }
}

/// Negation of an affine point of G2 in ark-ec.
#[verifier::external_body]
pub(crate) fn g2_neg(a: &G2Point) -> (opposite: G2Point)
    ensures
        opposite == spec_g2_neg(*a),
{
    let fq = |b: &[u8; 32]| Fq::from_be_bytes_mod_order(b);
    let x = Fq2::new(fq(&a.x_c0), fq(&a.x_c1));
    let y = Fq2::new(fq(&a.y_c0), fq(&a.y_c1));
    let r = -G2Affine { x, y, infinity: a.infinity };
    let be = |f: Fq| f.into_bigint().to_bytes_be().try_into().unwrap();
    G2Point { x_c0: be(r.x.c0), x_c1: be(r.x.c1), y_c0: be(r.y.c0), y_c1: be(r.y.c1), infinity: r.infinity }
}

/// Multiplication of an affine point of G2 by a scalar in ark-ec, the
/// product made affine. The scalar is reduced into the scalar field first.
#[verifier::external_body]
pub(crate) fn g2_mul(a: &G2Point, s: &Scalar) -> (product: G2Point)
    ensures
        product == spec_g2_mul(*a, *s),
{
    let fq = |b: &[u8; 32]| Fq::from_be_bytes_mod_order(b);
    let x = Fq2::new(fq(&a.x_c0), fq(&a.x_c1));
    let y = Fq2::new(fq(&a.y_c0), fq(&a.y_c1));
    let p = G2Affine { x, y, infinity: a.infinity };
    let r = (p * Fr::from_be_bytes_mod_order(&s.bytes)).into_affine();
    let be = |f: Fq| f.into_bigint().to_bytes_be().try_into().unwrap();
    G2Point { x_c0: be(r.x.c0), x_c1: be(r.x.c1), y_c0: be(r.y.c0), y_c1: be(r.y.c1), infinity: r.infinity }
}

/// `Pairing::multi_miller_loop` of ark-ec on BN254 followed by
/// `Pairing::final_exponentiation`: the product of the pairings of
/// `g1s[i]` with `g2s[i]`, in the compressed serialization of ark-serialize.
/// Each list comes in the uncompressed, unchecked serialization of a vector
/// of affine points, which starts with the number of points in eight
/// bytes; the two lists have to declare the same number.
#[verifier::external_body]
pub(crate) fn pairing_product(g1s: &[u8], g2s: &[u8]) -> (product: Option<Vec<u8>>)
    requires
        g1s@.len() >= 8,
        g2s@.len() >= 8,
        g1s@.subrange(0, 8) == g2s@.subrange(0, 8),
    ensures
        match product {
            Some(bytes) => spec_pairing_product(g1s@, g2s@) == Some(bytes@),
            None => spec_pairing_product(g1s@, g2s@).is_none(),
        },
{
    let a = Vec::<G1Affine>::deserialize_uncompressed_unchecked(g1s).ok()?;
    let b = Vec::<G2Affine>::deserialize_uncompressed_unchecked(g2s).ok()?;
    let value = Bn254::final_exponentiation(Bn254::multi_miller_loop(a, b))?;
    let mut out = Vec::new();
    value.serialize_compressed(&mut out).ok()?;
    Some(out)
}


/// The serialization of a point of G1 that `pairing_product` reads: the two
/// coordinates, least significant byte first; for the point at infinity 64
/// zero bytes with the flag `0x40` in the last.
pub open spec fn ark_g1_bytes(p: G1Point) -> Seq<u8> {
    if p.infinity {
        zeros(63).push(0x40u8)
    } else {
        p.x@.reverse() + p.y@.reverse()
    }
}

/// The serialization of a point of G2 that `pairing_product` reads: the four
/// coordinate parts, least significant byte first; for the point at infinity
/// 128 zero bytes with the flag `0x40` in the last.
pub open spec fn ark_g2_bytes(q: G2Point) -> Seq<u8> {
    if q.infinity {
        zeros(127).push(0x40u8)
    } else {
        q.x_c0@.reverse() + q.x_c1@.reverse() + q.y_c0@.reverse() + q.y_c1@.reverse()
    }
}

/// A list of points of G1, serialized: the count in eight little-endian
/// bytes, then each point.
pub open spec fn ark_g1_list(points: Seq<G1Point>) -> Seq<u8> {
    le_bytes(points.len(), 8) + points.map_values(|p: G1Point| ark_g1_bytes(p)).flatten()
}

/// A list of points of G2, serialized: the count in eight little-endian
/// bytes, then each point.
pub open spec fn ark_g2_list(points: Seq<G2Point>) -> Seq<u8> {
    le_bytes(points.len(), 8) + points.map_values(|q: G2Point| ark_g2_bytes(q)).flatten()
}

/// The serialized unit of the target group: the byte 1 and 383 zero bytes.
pub open spec fn gt_one() -> Seq<u8> {
    seq![1u8] + zeros(383)
}

/// The product of the pairings `e(g1s[i], g2s[i])`, serialized, where
/// arkworks gives one. Lists of different lengths have no product.
pub open spec fn pairing_value_spec(g1s: Seq<G1Point>, g2s: Seq<G2Point>) -> Option<Seq<u8>> {
    if g1s.len() != g2s.len() {
        None
    } else {
        spec_pairing_product(ark_g1_list(g1s), ark_g2_list(g2s))
    }
}

/// Whether the product of the pairings `e(g1s[i], g2s[i])` is the unit.
pub open spec fn pairing_product_is_one(g1s: Seq<G1Point>, g2s: Seq<G2Point>) -> bool {
    pairing_value_spec(g1s, g2s) == Some(gt_one())
}

/// Whether a coordinate is the one representative of its field element.
pub open spec fn canonical(c: [u8; 32]) -> bool {
    be_value(c@) < base_modulus()
}

/// A point of G1 that the verifiers accept: canonical coordinates, on the
/// curve, in the subgroup of prime order.
pub open spec fn g1_valid(p: G1Point) -> bool {
    &&& canonical(p.x)
    &&& canonical(p.y)
    &&& g1_curve_equation(p)
    &&& spec_g1_in_subgroup(p)
}

/// A point of G2 that the verifiers accept: canonical coordinates, on the
/// curve, in the subgroup of prime order.
pub open spec fn g2_valid(q: G2Point) -> bool {
    &&& canonical(q.x_c0)
    &&& canonical(q.x_c1)
    &&& canonical(q.y_c0)
    &&& canonical(q.y_c1)
    &&& spec_g2_on_curve(q)
    &&& spec_g2_in_subgroup(q)
}

/// The difference of two points of G1.
pub open spec fn g1_sub_spec(a: G1Point, b: G1Point) -> G1Point {
    spec_g1_add(a, spec_g1_neg(b))
}

/// The difference of two points of G2.
pub open spec fn g2_sub_spec(a: G2Point, b: G2Point) -> G2Point {
    spec_g2_add(a, spec_g2_neg(b))
}

/// The point at infinity of G1, with zero coordinates.
pub open spec fn g1_identity_spec() -> G1Point {
    G1Point { x: array32(zeros(32)), y: array32(zeros(32)), infinity: true }
}

/// The point at infinity of G2, with zero coordinates.
pub open spec fn g2_identity_spec() -> G2Point {
    G2Point {
        x_c0: array32(zeros(32)),
        x_c1: array32(zeros(32)),
        y_c0: array32(zeros(32)),
        y_c1: array32(zeros(32)),
        infinity: true,
    }
}

/// The generator of G1, `(1, 2)`.
pub open spec fn g1_generator_spec() -> G1Point {
    G1Point {
        x: [
            0u8, 0u8, 0u8, 0u8, 0u8, 0u8, 0u8, 0u8, 0u8, 0u8, 0u8, 0u8, 0u8, 0u8, 0u8, 0u8,
            0u8, 0u8, 0u8, 0u8, 0u8, 0u8, 0u8, 0u8, 0u8, 0u8, 0u8, 0u8, 0u8, 0u8, 0u8, 1u8,
        ],
        y: [
            0u8, 0u8, 0u8, 0u8, 0u8, 0u8, 0u8, 0u8, 0u8, 0u8, 0u8, 0u8, 0u8, 0u8, 0u8, 0u8,
            0u8, 0u8, 0u8, 0u8, 0u8, 0u8, 0u8, 0u8, 0u8, 0u8, 0u8, 0u8, 0u8, 0u8, 0u8, 2u8,
        ],
        infinity: false,
    }
}

/// The generator of G1.
pub fn g1_generator() -> (g: G1Point)
    ensures
        g == g1_generator_spec(),
{
    G1Point {
        x: [
            0u8, 0u8, 0u8, 0u8, 0u8, 0u8, 0u8, 0u8, 0u8, 0u8, 0u8, 0u8, 0u8, 0u8, 0u8, 0u8,
            0u8, 0u8, 0u8, 0u8, 0u8, 0u8, 0u8, 0u8, 0u8, 0u8, 0u8, 0u8, 0u8, 0u8, 0u8, 1u8,
        ],
        y: [
            0u8, 0u8, 0u8, 0u8, 0u8, 0u8, 0u8, 0u8, 0u8, 0u8, 0u8, 0u8, 0u8, 0u8, 0u8, 0u8,
            0u8, 0u8, 0u8, 0u8, 0u8, 0u8, 0u8, 0u8, 0u8, 0u8, 0u8, 0u8, 0u8, 0u8, 0u8, 2u8,
        ],
        infinity: false,
    }
}

/// Whether the coordinate is below the base field order.
pub fn coordinate_is_canonical(c: &[u8; 32]) -> (ok: bool)
    ensures
        ok == canonical(*c),
{
    let m = Scalar::from_halves(
        0x30644e72e131a029b85045b68181585d,
        0x97816a916871ca8d3c208c16d87cfd47,
    );
    let value = Scalar::from_be_bytes(*c);
    let reduced = reduce_mod(&value, &m);
    proof {
        if value.value() < base_modulus() {
            lemma_small_mod(value.value(), base_modulus());
        }
    }
    reduced.equals(&value)
}


/// The generator of G2.
pub open spec fn g2_generator_spec() -> G2Point {
    G2Point {
        x_c0: [
            0x18u8, 0x00u8, 0xdeu8, 0xefu8, 0x12u8, 0x1fu8, 0x1eu8, 0x76u8,
            0x42u8, 0x6au8, 0x00u8, 0x66u8, 0x5eu8, 0x5cu8, 0x44u8, 0x79u8,
            0x67u8, 0x43u8, 0x22u8, 0xd4u8, 0xf7u8, 0x5eu8, 0xdau8, 0xddu8,
            0x46u8, 0xdeu8, 0xbdu8, 0x5cu8, 0xd9u8, 0x92u8, 0xf6u8, 0xedu8,
        ],
        x_c1: [
            0x19u8, 0x8eu8, 0x93u8, 0x93u8, 0x92u8, 0x0du8, 0x48u8, 0x3au8,
            0x72u8, 0x60u8, 0xbfu8, 0xb7u8, 0x31u8, 0xfbu8, 0x5du8, 0x25u8,
            0xf1u8, 0xaau8, 0x49u8, 0x33u8, 0x35u8, 0xa9u8, 0xe7u8, 0x12u8,
            0x97u8, 0xe4u8, 0x85u8, 0xb7u8, 0xaeu8, 0xf3u8, 0x12u8, 0xc2u8,
        ],
        y_c0: [
            0x12u8, 0xc8u8, 0x5eu8, 0xa5u8, 0xdbu8, 0x8cu8, 0x6du8, 0xebu8,
            0x4au8, 0xabu8, 0x71u8, 0x80u8, 0x8du8, 0xcbu8, 0x40u8, 0x8fu8,
            0xe3u8, 0xd1u8, 0xe7u8, 0x69u8, 0x0cu8, 0x43u8, 0xd3u8, 0x7bu8,
            0x4cu8, 0xe6u8, 0xccu8, 0x01u8, 0x66u8, 0xfau8, 0x7du8, 0xaau8,
        ],
        y_c1: [
            0x09u8, 0x06u8, 0x89u8, 0xd0u8, 0x58u8, 0x5fu8, 0xf0u8, 0x75u8,
            0xecu8, 0x9eu8, 0x99u8, 0xadu8, 0x69u8, 0x0cu8, 0x33u8, 0x95u8,
            0xbcu8, 0x4bu8, 0x31u8, 0x33u8, 0x70u8, 0xb3u8, 0x8eu8, 0xf3u8,
            0x55u8, 0xacu8, 0xdau8, 0xdcu8, 0xd1u8, 0x22u8, 0x97u8, 0x5bu8,
        ],
        infinity: false,
    }
}

/// The generator of G2.
pub fn g2_generator() -> (g: G2Point)
    ensures
        g == g2_generator_spec(),
{
    G2Point {
        x_c0: [
            0x18u8, 0x00u8, 0xdeu8, 0xefu8, 0x12u8, 0x1fu8, 0x1eu8, 0x76u8,
            0x42u8, 0x6au8, 0x00u8, 0x66u8, 0x5eu8, 0x5cu8, 0x44u8, 0x79u8,
            0x67u8, 0x43u8, 0x22u8, 0xd4u8, 0xf7u8, 0x5eu8, 0xdau8, 0xddu8,
            0x46u8, 0xdeu8, 0xbdu8, 0x5cu8, 0xd9u8, 0x92u8, 0xf6u8, 0xedu8,
        ],
        x_c1: [
            0x19u8, 0x8eu8, 0x93u8, 0x93u8, 0x92u8, 0x0du8, 0x48u8, 0x3au8,
            0x72u8, 0x60u8, 0xbfu8, 0xb7u8, 0x31u8, 0xfbu8, 0x5du8, 0x25u8,
            0xf1u8, 0xaau8, 0x49u8, 0x33u8, 0x35u8, 0xa9u8, 0xe7u8, 0x12u8,
            0x97u8, 0xe4u8, 0x85u8, 0xb7u8, 0xaeu8, 0xf3u8, 0x12u8, 0xc2u8,
        ],
        y_c0: [
            0x12u8, 0xc8u8, 0x5eu8, 0xa5u8, 0xdbu8, 0x8cu8, 0x6du8, 0xebu8,
            0x4au8, 0xabu8, 0x71u8, 0x80u8, 0x8du8, 0xcbu8, 0x40u8, 0x8fu8,
            0xe3u8, 0xd1u8, 0xe7u8, 0x69u8, 0x0cu8, 0x43u8, 0xd3u8, 0x7bu8,
            0x4cu8, 0xe6u8, 0xccu8, 0x01u8, 0x66u8, 0xfau8, 0x7du8, 0xaau8,
        ],
        y_c1: [
            0x09u8, 0x06u8, 0x89u8, 0xd0u8, 0x58u8, 0x5fu8, 0xf0u8, 0x75u8,
            0xecu8, 0x9eu8, 0x99u8, 0xadu8, 0x69u8, 0x0cu8, 0x33u8, 0x95u8,
            0xbcu8, 0x4bu8, 0x31u8, 0x33u8, 0x70u8, 0xb3u8, 0x8eu8, 0xf3u8,
            0x55u8, 0xacu8, 0xdau8, 0xdcu8, 0xd1u8, 0x22u8, 0x97u8, 0x5bu8,
        ],
        infinity: false,
    }
}

impl G1Point {
    /// The affine point with the given coordinates.
    pub fn new(x: [u8; 32], y: [u8; 32]) -> (p: G1Point)
        ensures
            p == (G1Point { x, y, infinity: false }),
    {
        G1Point { x, y, infinity: false }
    }

    /// The point at infinity.
    pub fn identity() -> (p: G1Point)
        ensures
            p == g1_identity_spec(),
    {
        G1Point { x: zero_word(), y: zero_word(), infinity: true }
    }

    /// The affine point whose coordinates stand at `offset` as `x ‖ y`, 32
    /// big-endian bytes each. No byte string stands for the point at
    /// infinity.
    pub fn read(bytes: &[u8], offset: usize) -> (p: G1Point)
        requires
            offset + 64 <= bytes@.len(),
        ensures
            p == Self::read_spec(bytes@, offset as int),
    {
        let total: usize = bytes.len();
        assert(offset + 64 <= total);
        let x = read_array32(bytes, offset);
        let y = read_array32(bytes, offset + 32);
        G1Point { x, y, infinity: false }
    }

    pub open spec fn read_spec(bytes: Seq<u8>, offset: int) -> G1Point {
        G1Point {
            x: array32(bytes.subrange(offset, offset + 32)),
            y: array32(bytes.subrange(offset + 32, offset + 64)),
            infinity: false,
        }
    }

    /// `x ‖ y`, 32 big-endian bytes each.
    pub open spec fn encoding(self) -> Seq<u8> {
        self.x@ + self.y@
    }

    /// Appends `x ‖ y`.
    pub fn write(&self, buf: &mut Vec<u8>)
        ensures
            final(buf)@ == old(buf)@ + self.encoding(),
    {
        append_bytes(buf, self.x.as_slice());
        append_bytes(buf, self.y.as_slice());
        assert(buf@ =~= old(buf)@ + self.encoding());
    }
}

impl G2Point {
    /// `x_c0 ‖ x_c1 ‖ y_c0 ‖ y_c1`, the real part first, 32 big-endian bytes
    /// each.
    pub open spec fn encoding(self) -> Seq<u8> {
        self.x_c0@ + self.x_c1@ + self.y_c0@ + self.y_c1@
    }

    /// Appends `x_c0 ‖ x_c1 ‖ y_c0 ‖ y_c1`.
    pub fn write(&self, buf: &mut Vec<u8>)
        ensures
            final(buf)@ == old(buf)@ + self.encoding(),
    {
        append_bytes(buf, self.x_c0.as_slice());
        append_bytes(buf, self.x_c1.as_slice());
        append_bytes(buf, self.y_c0.as_slice());
        append_bytes(buf, self.y_c1.as_slice());
        assert(buf@ =~= old(buf)@ + self.encoding());
    }

    /// The point at infinity.
    pub fn identity() -> (q: G2Point)
        ensures
            q == g2_identity_spec(),
    {
        G2Point {
            x_c0: zero_word(),
            x_c1: zero_word(),
            y_c0: zero_word(),
            y_c1: zero_word(),
            infinity: true,
        }
    }

    /// The affine point whose coordinates stand at `offset` as
    /// `x_c1 ‖ x_c0 ‖ y_c1 ‖ y_c0`, the imaginary part first, 32 big-endian
    /// bytes each.
    pub fn read(bytes: &[u8], offset: usize) -> (q: G2Point)
        requires
            offset + 128 <= bytes@.len(),
        ensures
            q == Self::read_spec(bytes@, offset as int),
    {
        let total: usize = bytes.len();
        assert(offset + 128 <= total);
        let x_c1 = read_array32(bytes, offset);
        let x_c0 = read_array32(bytes, offset + 32);
        let y_c1 = read_array32(bytes, offset + 64);
        let y_c0 = read_array32(bytes, offset + 96);
        G2Point { x_c0, x_c1, y_c0, y_c1, infinity: false }
    }

    pub open spec fn read_spec(bytes: Seq<u8>, offset: int) -> G2Point {
        G2Point {
            x_c1: array32(bytes.subrange(offset, offset + 32)),
            x_c0: array32(bytes.subrange(offset + 32, offset + 64)),
            y_c1: array32(bytes.subrange(offset + 64, offset + 96)),
            y_c0: array32(bytes.subrange(offset + 96, offset + 128)),
            infinity: false,
        }
    }
}

/// Whether `p` has canonical coordinates, is on the curve and in the
/// subgroup of prime order.
pub fn validate_g1_point(p: &G1Point) -> (ok: bool)
    ensures
        ok == g1_valid(*p),
{
    coordinate_is_canonical(&p.x) && coordinate_is_canonical(&p.y) && g1_on_curve(p)
        && g1_in_subgroup(p)
}

/// Whether `q` has canonical coordinates, is on the curve and in the
/// subgroup of prime order.
pub fn validate_g2_point(q: &G2Point) -> (ok: bool)
    ensures
        ok == g2_valid(*q),
{
    coordinate_is_canonical(&q.x_c0) && coordinate_is_canonical(&q.x_c1)
        && coordinate_is_canonical(&q.y_c0) && coordinate_is_canonical(&q.y_c1) && g2_on_curve(q)
        && g2_in_subgroup(q)
}

/// `a - b` in G1.
pub fn g1_sub(a: &G1Point, b: &G1Point) -> (difference: G1Point)
    ensures
        difference == g1_sub_spec(*a, *b),
{
    let minus_b = g1_neg(b);
    g1_add(a, &minus_b)
}

/// `a - b` in G2.
pub fn g2_sub(a: &G2Point, b: &G2Point) -> (difference: G2Point)
    ensures
        difference == g2_sub_spec(*a, *b),
{
    let minus_b = g2_neg(b);
    g2_add(a, &minus_b)
}

/// Appends the bytes of `a` in reverse order.
fn append_reversed(buf: &mut Vec<u8>, a: &[u8; 32])
    ensures
        final(buf)@ == old(buf)@ + a@.reverse(),
{
    let mut i: usize = 32;
    while i > 0
        invariant
            i <= 32,
            buf@.len() == old(buf)@.len() + (32 - i),
            forall|k: int| 0 <= k < old(buf)@.len() ==> buf@[k] == old(buf)@[k],
            forall|k: int|
                old(buf)@.len() <= k < buf@.len() ==> #[trigger] buf@[k] == a@[31 - (k - old(
                    buf,
                )@.len())],
        decreases i,
    {
        buf.push(a[i - 1]);
        i = i - 1;
    }
    assert(buf@ =~= old(buf)@ + a@.reverse());
}

/// The serialization of a list of points of G1.
fn encode_g1_list(points: &[G1Point]) -> (out: Vec<u8>)
    ensures
        out@ == ark_g1_list(points@),
{
    let mut buf: Vec<u8> = Vec::new();
    append_le(&mut buf, points.len() as u128, 8);
    let ghost head = buf@;
    let ghost items = points@.map_values(|p: G1Point| ark_g1_bytes(p));
    assert(items.subrange(0, 0) =~= Seq::<Seq<u8>>::empty());
    assert(Seq::<Seq<u8>>::empty().flatten() =~= Seq::<u8>::empty());
    let mut i: usize = 0;
    while i < points.len()
        invariant
            i <= points@.len(),
            items == points@.map_values(|p: G1Point| ark_g1_bytes(p)),
            buf@ == head + items.subrange(0, i as int).flatten(),
        decreases points@.len() - i,
    {
        let ghost done = items.subrange(0, i as int);
        let ghost before = buf@;
        let p = points[i];
        if p.infinity {
            append_zeros(&mut buf, 63);
            buf.push(0x40u8);
        } else {
            append_reversed(&mut buf, &p.x);
            append_reversed(&mut buf, &p.y);
        }
        proof {
            assert(buf@ =~= before + ark_g1_bytes(p));
            assert(items.subrange(0, i + 1) =~= done.push(ark_g1_bytes(p)));
            done.lemma_flatten_push(ark_g1_bytes(p));
        }
        i = i + 1;
    }
    assert(items.subrange(0, i as int) =~= items);
    buf
}

/// The serialization of a list of points of G2.
fn encode_g2_list(points: &[G2Point]) -> (out: Vec<u8>)
    ensures
        out@ == ark_g2_list(points@),
{
    let mut buf: Vec<u8> = Vec::new();
    append_le(&mut buf, points.len() as u128, 8);
    let ghost head = buf@;
    let ghost items = points@.map_values(|q: G2Point| ark_g2_bytes(q));
    assert(items.subrange(0, 0) =~= Seq::<Seq<u8>>::empty());
    assert(Seq::<Seq<u8>>::empty().flatten() =~= Seq::<u8>::empty());
    let mut i: usize = 0;
    while i < points.len()
        invariant
            i <= points@.len(),
            items == points@.map_values(|q: G2Point| ark_g2_bytes(q)),
            buf@ == head + items.subrange(0, i as int).flatten(),
        decreases points@.len() - i,
    {
        let ghost done = items.subrange(0, i as int);
        let ghost before = buf@;
        let q = points[i];
        if q.infinity {
            append_zeros(&mut buf, 127);
            buf.push(0x40u8);
        } else {
            append_reversed(&mut buf, &q.x_c0);
            append_reversed(&mut buf, &q.x_c1);
            append_reversed(&mut buf, &q.y_c0);
            append_reversed(&mut buf, &q.y_c1);
        }
        proof {
            assert(buf@ =~= before + ark_g2_bytes(q));
            assert(items.subrange(0, i + 1) =~= done.push(ark_g2_bytes(q)));
            done.lemma_flatten_push(ark_g2_bytes(q));
        }
        i = i + 1;
    }
    assert(items.subrange(0, i as int) =~= items);
    buf
}

/// The product of the pairings `e(g1s[i], g2s[i])`, serialized.
pub fn pairing_value(g1s: &[G1Point], g2s: &[G2Point]) -> (value: Option<Vec<u8>>)
    ensures
        match value {
            Some(bytes) => pairing_value_spec(g1s@, g2s@) == Some(bytes@),
            None => pairing_value_spec(g1s@, g2s@).is_none(),
        },
{
    if g1s.len() != g2s.len() {
        return None;
    }
    let a = encode_g1_list(g1s);
    let b = encode_g2_list(g2s);
    proof {
        crate::bytes::lemma_le_bytes_len(g1s@.len(), 8);
        assert(a@.subrange(0, 8) =~= le_bytes(g1s@.len(), 8));
        assert(b@.subrange(0, 8) =~= le_bytes(g2s@.len(), 8));
    }
    pairing_product(a.as_slice(), b.as_slice())
}

/// Whether `bytes` is the serialized unit of the target group.
pub fn is_gt_one(bytes: &[u8]) -> (ok: bool)
    ensures
        ok == (bytes@ == gt_one()),
{
    if bytes.len() != 384 || bytes[0] != 1u8 {
        return false;
    }
    let mut i: usize = 1;
    while i < 384
        invariant
            1 <= i <= 384,
            bytes@.len() == 384,
            bytes@[0] == 1u8,
            forall|k: int| 1 <= k < i ==> bytes@[k] == 0u8,
        decreases 384 - i,
    {
        if bytes[i] != 0u8 {
            assert(gt_one()[i as int] == 0u8);
            return false;
        }
        i = i + 1;
    }
    assert(bytes@ =~= gt_one());
    true
}

/// Whether the product of the pairings `e(g1s[i], g2s[i])` is the unit.
pub fn pairing_check(g1s: &[G1Point], g2s: &[G2Point]) -> (ok: bool)
    ensures
        ok == pairing_product_is_one(g1s@, g2s@),
{
    match pairing_value(g1s, g2s) {
        Some(bytes) => is_gt_one(bytes.as_slice()),
        None => false,
    }
}

} // verus!
