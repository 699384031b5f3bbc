//! Arithmetic modulo the scalar prime of BN254.
//!
//! A `Scalar` is a 256-bit unsigned integer held as 32 big-endian bytes. The
//! five field operations take any such integer and give the reduced result.
//! Addition and multiplication are done by `alloy_primitives::U256`; the
//! rest is built from them here.

use crate::bytes::{
    append_be, array32_eq, be_bytes, be_value, copy_range, lemma_be_bytes_len,
    lemma_be_value_concat, lemma_be_value_injective, lemma_be_value_of_bytes, lemma_pow256_values,
    read_array32,
};
use crate::error::Error;
use vstd::arithmetic::div_mod::{
    lemma_add_mod_noop, lemma_mod_multiples_vanish, lemma_mul_mod_noop_general, lemma_small_mod,
};
use vstd::arithmetic::power::{lemma_pow0, lemma_pow1, lemma_pow_adds, pow};
use vstd::prelude::*;

verus! {

/// The order of the BN254 scalar field,
/// 21888242871839275222246405745257275088548364400416034343698204186575808495617.
pub open spec fn scalar_modulus() -> nat {
    0x30644e72e131a029b85045b68181585d2833e84879b9709143e1f593f0000001nat
}

/// `x` reduced into the scalar field.
pub open spec fn fr(x: int) -> nat {
    (x % (scalar_modulus() as int)) as nat
}

/// A 256-bit unsigned integer, most significant byte first.
#[derive(Debug, Clone, Copy, PartialEq, Eq)]
pub struct Scalar {
    pub bytes: [u8; 32],
}

impl Scalar {
    /// The integer that the 32 bytes stand for.
    pub open spec fn value(self) -> nat {
        be_value(self.bytes@)
    }

    /// Scalars that stand for one integer are one scalar.
    pub proof fn lemma_value_injective(self, other: Scalar)
        requires
            self.value() == other.value(),
        ensures
            self == other,
    {
        lemma_be_value_injective(self.bytes@, other.bytes@);
        assert(self.bytes =~= other.bytes);
    }

    pub fn from_be_bytes(bytes: [u8; 32]) -> (result: Scalar)
        ensures
            result.bytes == bytes,
    {
        Scalar { bytes }
    }

    /// The scalar whose 32 big-endian bytes stand at `offset`.
    pub fn read(bytes: &[u8], offset: usize) -> (result: Scalar)
        requires
            offset + 32 <= bytes@.len(),
        ensures
            result == Self::read_spec(bytes@, offset as int),
    {
        Scalar { bytes: read_array32(bytes, offset) }
    }

    pub open spec fn read_spec(bytes: Seq<u8>, offset: int) -> Scalar {
        Scalar { bytes: crate::bytes::array32(bytes.subrange(offset, offset + 32)) }
    }

    pub fn to_be_bytes(&self) -> (bytes: [u8; 32])
        ensures
            bytes == self.bytes,
    {
        self.bytes
    }

    /// The scalar `hi * 2^128 + lo`.
    pub fn from_halves(hi: u128, lo: u128) -> (result: Scalar)
        ensures
            result.value() == hi * 0x1_0000_0000_0000_0000_0000_0000_0000_0000 + lo,
            result == scalar_of(result.value()),
    {
        let mut buf: Vec<u8> = Vec::new();
        append_be(&mut buf, hi, 16);
        append_be(&mut buf, lo, 16);
        proof {
            lemma_be_bytes_len(hi as nat, 16);
            lemma_be_bytes_len(lo as nat, 16);
            lemma_pow256_values();
            lemma_be_value_of_bytes(hi as nat, 16);
            lemma_be_value_of_bytes(lo as nat, 16);
            lemma_be_value_concat(be_bytes(hi as nat, 16), be_bytes(lo as nat, 16));
            assert(buf@.subrange(0, 32) =~= buf@);
        }
        let result = Scalar { bytes: read_array32(buf.as_slice(), 0) };
        proof {
            lemma_scalar_of_value(result);
        }
        result
    }

    pub fn from_u128(x: u128) -> (result: Scalar)
        ensures
            result.value() == x,
            result == scalar_of(x as nat),
    {
        Scalar::from_halves(0, x)
    }

    pub fn from_u64(x: u64) -> (result: Scalar)
        ensures
            result.value() == x,
            result == scalar_of(x as nat),
    {
        Scalar::from_halves(0, x as u128)
    }

    pub fn zero() -> (result: Scalar)
        ensures
            result.value() == 0,
            result == scalar_of(0),
    {
        Scalar::from_halves(0, 0)
    }

    pub fn one() -> (result: Scalar)
        ensures
            result.value() == 1,
            result == scalar_of(1),
    {
        Scalar::from_halves(0, 1)
    }

    /// Whether two scalars stand for the same integer.
    pub fn equals(&self, other: &Scalar) -> (same: bool)
        ensures
            same == (self.value() == other.value()),
            same == (*self == *other),
    {
        let same = array32_eq(&self.bytes, &other.bytes);
        proof {
            if self.value() == other.value() {
                self.lemma_value_injective(*other);
            }
            if same {
                assert(self.bytes =~= other.bytes);
            }
        }
        same
    }

    pub fn is_zero(&self) -> (zero: bool)
        ensures
            zero == (self.value() == 0),
    {
        let z = Scalar::zero();
        self.equals(&z)
    }

    /// Whether the scalar is below the field order, that is, the one
    /// representative of its field element.
    pub fn is_canonical(&self) -> (canonical: bool)
        ensures
            canonical == (self.value() < scalar_modulus()),
    {
        let reduced = fr_reduce(*self);
        proof {
            if self.value() < scalar_modulus() {
                lemma_small_mod(self.value(), scalar_modulus());
            }
        }
        reduced.equals(self)
    }
}

/// The scalar that stands for `v`, a number below `2^256`.
pub open spec fn scalar_of(v: nat) -> Scalar {
    Scalar { bytes: crate::bytes::array32(be_bytes(v, 32)) }
}

/// A scalar is the scalar of its own value.
pub proof fn lemma_scalar_of_value(s: Scalar)
    ensures
        scalar_of(s.value()) == s,
{
    crate::bytes::lemma_be_bytes_of_value(s.bytes@);
    crate::bytes::lemma_array32_of_view(s.bytes);
}

/// The sum of two scalars in the field.
pub open spec fn add_spec(a: Scalar, b: Scalar) -> Scalar {
    scalar_of(fr((a.value() + b.value()) as int))
}

/// The difference of two scalars in the field.
pub open spec fn sub_spec(a: Scalar, b: Scalar) -> Scalar {
    scalar_of(fr(a.value() - b.value()))
}

/// The product of two scalars in the field.
pub open spec fn mul_spec(a: Scalar, b: Scalar) -> Scalar {
    scalar_of(fr((a.value() * b.value()) as int))
}

/// A scalar raised to a scalar in the field.
pub open spec fn pow_spec(base: Scalar, exp: Scalar) -> Scalar {
    scalar_of(fr(pow(base.value() as int, exp.value())))
}

/// A scalar reduced into the field.
pub open spec fn reduce_spec(a: Scalar) -> Scalar {
    scalar_of(fr(a.value() as int))
}

/// The inverse of a scalar in the field, `a^(r-2)`; `None` for zero.
pub open spec fn inv_spec(a: Scalar) -> Option<Scalar> {
    if fr(a.value() as int) == 0 {
        None
    } else {
        Some(scalar_of(fr(pow(a.value() as int, (scalar_modulus() - 2) as nat))))
    }
}

/// The field order as a scalar.
pub fn modulus() -> (m: Scalar)
    ensures
        m.value() == scalar_modulus(),
{
    Scalar::from_halves(
        0x30644e72e131a029b85045b68181585d,
        0x2833e84879b9709143e1f593f0000001,
    )
}

/// `U256::add_mod` of alloy_primitives: the sum of two 256-bit integers
/// modulo a third, computed without overflow.
#[verifier::external_body]
fn u256_add_mod(a: &Scalar, b: &Scalar, m: &Scalar) -> (r: Scalar)
    requires
        m.value() > 0,
    ensures
        r.value() == (a.value() + b.value()) % m.value(),
{
    let x = alloy_primitives::U256::from_be_bytes::<32>(a.bytes);
    let y = alloy_primitives::U256::from_be_bytes::<32>(b.bytes);
    let n = alloy_primitives::U256::from_be_bytes::<32>(m.bytes);
    Scalar { bytes: x.add_mod(y, n).to_be_bytes::<32>() }
}

/// `U256::mul_mod` of alloy_primitives: the product of two 256-bit integers
/// modulo a third, computed without overflow.
#[verifier::external_body]
fn u256_mul_mod(a: &Scalar, b: &Scalar, m: &Scalar) -> (r: Scalar)
    requires
        m.value() > 0,
    ensures
        r.value() == (a.value() * b.value()) % m.value(),
{
    let x = alloy_primitives::U256::from_be_bytes::<32>(a.bytes);
    let y = alloy_primitives::U256::from_be_bytes::<32>(b.bytes);
    let n = alloy_primitives::U256::from_be_bytes::<32>(m.bytes);
    Scalar { bytes: x.mul_mod(y, n).to_be_bytes::<32>() }
}

/// `a mod m` for a nonzero modulus.
pub fn reduce_mod(a: &Scalar, m: &Scalar) -> (r: Scalar)
    requires
        m.value() > 0,
    ensures
        r.value() == a.value() % m.value(),
{
    let zero = Scalar::zero();
    u256_add_mod(a, &zero, m)
}

/// `a` reduced modulo the field order.
pub fn fr_reduce(a: Scalar) -> (r: Scalar)
    ensures
        r.value() == fr(a.value() as int),
        r == reduce_spec(a),
{
    let m = modulus();
    let zero = Scalar::zero();
    let r = u256_add_mod(&a, &zero, &m);
    proof {
        lemma_scalar_of_value(r);
    }
    r
}

/// Modular addition, `(a + b) mod r`.
pub fn fr_add(a: Scalar, b: Scalar) -> (r: Scalar)
    ensures
        r.value() == fr((a.value() + b.value()) as int),
        r == add_spec(a, b),
{
    let m = modulus();
    let r = u256_add_mod(&a, &b, &m);
    proof {
        lemma_scalar_of_value(r);
    }
    r
}

/// Modular multiplication, `(a * b) mod r`.
pub fn fr_mul(a: Scalar, b: Scalar) -> (r: Scalar)
    ensures
        r.value() == fr((a.value() * b.value()) as int),
        r == mul_spec(a, b),
{
    let m = modulus();
    let r = u256_mul_mod(&a, &b, &m);
    proof {
        lemma_scalar_of_value(r);
    }
    r
}

/// `b * (r - 1)` is `-b` in the field.
proof fn lemma_negate_by_multiplying(a: int, b: int)
    ensures
        fr(a + fr(b * (scalar_modulus() - 1)) as int) == fr(a - b),
{
    let m = scalar_modulus() as int;
    let t = b * (m - 1);
    assert(t == m * b + (-b)) by (nonlinear_arith)
        requires
            t == b * (m - 1),
    ;
    lemma_mod_multiples_vanish(b, -b, m);
    assert(t % m == (-b) % m);
    lemma_add_mod_noop(a, t, m);
    lemma_add_mod_noop(a, -b, m);
    lemma_small_mod((t % m) as nat, m as nat);
}

/// Modular subtraction, `(a - b) mod r`; a negative difference wraps round
/// the field order.
pub fn fr_sub(a: Scalar, b: Scalar) -> (r: Scalar)
    ensures
        r.value() == fr(a.value() - b.value()),
        r == sub_spec(a, b),
{
    let m = modulus();
    let minus_one = Scalar::from_halves(
        0x30644e72e131a029b85045b68181585d,
        0x2833e84879b9709143e1f593f0000000,
    );
    let negated = u256_mul_mod(&b, &minus_one, &m);
    proof {
        lemma_negate_by_multiplying(a.value() as int, b.value() as int);
    }
    let r = u256_add_mod(&a, &negated, &m);
    proof {
        lemma_scalar_of_value(r);
    }
    r
}

/// `base^e` in the field.
#[verifier::opaque]
pub open spec fn pow_mod(base: nat, e: nat) -> nat {
    fr(pow(base as int, e))
}

/// One step of left-to-right exponentiation: from `base^e` to
/// `base^(2e + bit)`.
fn pow_step(acc: Scalar, base: Scalar, bit: bool, Ghost(e): Ghost<nat>) -> (r: Scalar)
    requires
        acc.value() == pow_mod(base.value(), e),
    ensures
        r.value() == pow_mod(base.value(), 2 * e + if bit { 1nat } else { 0nat }),
{
    reveal(pow_mod);
    let m = modulus();
    let squared = u256_mul_mod(&acc, &acc, &m);
    proof {
        let b = base.value() as int;
        let p = pow(b, e);
        let n = scalar_modulus() as int;
        lemma_pow_adds(b, e, e);
        lemma_mul_mod_noop_general(p, p, n);
        assert(squared.value() == fr(pow(b, 2 * e)));
    }
    if bit {
        let r = u256_mul_mod(&squared, &base, &m);
        proof {
            let b = base.value() as int;
            let n = scalar_modulus() as int;
            lemma_pow_adds(b, 2 * e, 1);
            lemma_pow1(b);
            lemma_mul_mod_noop_general(pow(b, 2 * e), b, n);
            lemma_small_mod(squared.value(), n as nat);
        }
        r
    } else {
        squared
    }
}

/// The bit of `byte` at weight `w`, a power of two: 1 or 0.
#[verifier::opaque]
spec fn bit_at(byte: u8, w: u8) -> nat {
    (byte / w % 2) as nat
}

/// A byte is the sum of its eight bits, each at its weight.
proof fn lemma_byte_bits(byte: u8)
    ensures
        byte == 128 * bit_at(byte, 128) + 64 * bit_at(byte, 64) + 32 * bit_at(byte, 32) + 16
            * bit_at(byte, 16) + 8 * bit_at(byte, 8) + 4 * bit_at(byte, 4) + 2 * bit_at(byte, 2)
            + bit_at(byte, 1),
{
    reveal(bit_at);
    assert(byte == 128 * (byte / 128 % 2) + 64 * (byte / 64 % 2) + 32 * (byte / 32 % 2) + 16 * (
    byte / 16 % 2) + 8 * (byte / 8 % 2) + 4 * (byte / 4 % 2) + 2 * (byte / 2 % 2) + byte / 1 % 2)
        by (bit_vector);
}

/// Whether the bit of `byte` at weight `w` is set.
fn bit_is_set(byte: u8, w: u8) -> (set: bool)
    requires
        w > 0,
    ensures
        bit_at(byte, w) == if set { 1nat } else { 0nat },
{
    reveal(bit_at);
    byte / w % 2 == 1
}

/// Eight steps of left-to-right exponentiation: from `base^e` to
/// `base^(256 e + byte)`.
fn pow_byte(acc: Scalar, base: Scalar, byte: u8, Ghost(e0): Ghost<nat>) -> (r: Scalar)
    requires
        acc.value() == pow_mod(base.value(), e0),
    ensures
        r.value() == pow_mod(base.value(), 256 * e0 + byte as nat),
{
    let ghost e1: nat = 2 * e0 + bit_at(byte, 128);
    let ghost e2: nat = 2 * e1 + bit_at(byte, 64);
    let ghost e3: nat = 2 * e2 + bit_at(byte, 32);
    let ghost e4: nat = 2 * e3 + bit_at(byte, 16);
    let ghost e5: nat = 2 * e4 + bit_at(byte, 8);
    let ghost e6: nat = 2 * e5 + bit_at(byte, 4);
    let ghost e7: nat = 2 * e6 + bit_at(byte, 2);
    let ghost e8: nat = 2 * e7 + bit_at(byte, 1);
    let a1 = pow_step(acc, base, bit_is_set(byte, 128), Ghost(e0));
    let a2 = pow_step(a1, base, bit_is_set(byte, 64), Ghost(e1));
    let a3 = pow_step(a2, base, bit_is_set(byte, 32), Ghost(e2));
    let a4 = pow_step(a3, base, bit_is_set(byte, 16), Ghost(e3));
    let a5 = pow_step(a4, base, bit_is_set(byte, 8), Ghost(e4));
    let a6 = pow_step(a5, base, bit_is_set(byte, 4), Ghost(e5));
    let a7 = pow_step(a6, base, bit_is_set(byte, 2), Ghost(e6));
    let a8 = pow_step(a7, base, bit_is_set(byte, 1), Ghost(e7));
    proof {
        lemma_byte_bits(byte);
        assert(e8 == 256 * e0 + byte as nat);
    }
    a8
}

/// Modular exponentiation by repeated squaring, `base^exp mod r`.
pub fn fr_pow(base: Scalar, exp: Scalar) -> (r: Scalar)
    ensures
        r.value() == fr(pow(base.value() as int, exp.value())),
        r == pow_spec(base, exp),
{
    let mut acc = fr_reduce(Scalar::one());
    proof {
        reveal(pow_mod);
        lemma_pow0(base.value() as int);
        assert(exp.bytes@.subrange(0, 0) =~= Seq::<u8>::empty());
    }
    let mut i: usize = 0;
    while i < 32
        invariant
            i <= 32,
            acc.value() == pow_mod(base.value(), be_value(exp.bytes@.subrange(0, i as int))),
        decreases 32 - i,
    {
        let byte: u8 = exp.bytes[i];
        let ghost e0: nat = be_value(exp.bytes@.subrange(0, i as int));
        acc = pow_byte(acc, base, byte, Ghost(e0));
        proof {
            let next = exp.bytes@.subrange(0, i + 1);
            assert(next.drop_last() =~= exp.bytes@.subrange(0, i as int));
            assert(next.last() == byte);
        }
        i = i + 1;
    }
    proof {
        reveal(pow_mod);
        assert(exp.bytes@.subrange(0, 32) =~= exp.bytes@);
        lemma_scalar_of_value(acc);
    }
    acc
}

/// Modular inverse by Fermat's little theorem, `a^(r-2) mod r`. Zero has no
/// inverse: the call fails with `InvalidInputSize` where `a` is zero in the
/// field.
pub fn fr_inv(a: Scalar) -> (result: Result<Scalar, Error>)
    ensures
        match result {
            Ok(r) => fr(a.value() as int) != 0 && r.value() == fr(
                pow(a.value() as int, (scalar_modulus() - 2) as nat),
            ) && inv_spec(a) == Some(r),
            Err(e) => fr(a.value() as int) == 0 && e == Error::InvalidInputSize && inv_spec(a)
                is None,
        },
{
    let reduced = fr_reduce(a);
    if reduced.is_zero() {
        return Err(Error::InvalidInputSize);
    }
    let exponent = Scalar::from_halves(
        0x30644e72e131a029b85045b68181585d,
        0x2833e84879b9709143e1f593efffffff,
    );
    Ok(fr_pow(a, exponent))
}

/// The field element that big-endian bytes stand for. Of a string longer
/// than 32 bytes the first 32 are read.
pub fn fr_from_be_bytes_mod(bytes: &[u8]) -> (r: Scalar)
    ensures
        r.value() == fr(
            be_value(
                bytes@.subrange(0, if bytes@.len() <= 32 { bytes@.len() as int } else { 32 }),
            ) as int,
        ),
        r == scalar_of(r.value()),
{
    let used: usize = if bytes.len() <= 32 { bytes.len() } else { 32 };
    let mut buf: Vec<u8> = Vec::new();
    let mut i: usize = used;
    while i < 32
        invariant
            used <= i <= 32,
            buf@.len() == i - used,
            forall|k: int| 0 <= k < buf@.len() ==> buf@[k] == 0u8,
        decreases 32 - i,
    {
        buf.push(0u8);
        i = i + 1;
    }
    let ghost zeros = buf@;
    let tail = copy_range(bytes, 0, used);
    crate::bytes::append_bytes(&mut buf, tail.as_slice());
    proof {
        lemma_be_value_concat(zeros, tail@);
        lemma_zero_bytes_value(zeros);
        assert(buf@.subrange(0, 32) =~= buf@);
    }
    let wide = Scalar { bytes: read_array32(buf.as_slice(), 0) };
    let r = fr_reduce(wide);
    proof {
        lemma_scalar_of_value(r);
    }
    r
}

/// Bytes that are all zero stand for zero.
pub proof fn lemma_zero_bytes_value(s: Seq<u8>)
    requires
        forall|k: int| 0 <= k < s.len() ==> s[k] == 0u8,
    ensures
        be_value(s) == 0,
    decreases s.len(),
{
    if s.len() > 0 {
        lemma_zero_bytes_value(s.drop_last());
    }
}

} // verus!
