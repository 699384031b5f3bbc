use uzkv::bytes::{append_be, append_bytes, append_le, array32_eq, copy_range, read_array32, read_be, read_le};
use uzkv::field::{
    fr_add, fr_from_be_bytes_mod, fr_inv, fr_mul, fr_pow, fr_reduce, fr_sub, modulus, reduce_mod,
    Scalar,
};
use uzkv::pow2::{ilog2, is_power_of_two, next_power_of_two};
use uzkv::Error;

const R_HI: u128 = 0x30644e72e131a029b85045b68181585d;
const R_LO: u128 = 0x2833e84879b9709143e1f593f0000001;

fn r_minus(k: u128) -> Scalar {
    Scalar::from_halves(R_HI, R_LO - k)
}

#[test]
fn modulus_is_the_bn254_scalar_order() {
    let expected: [u8; 32] = [
        0x30, 0x64, 0x4e, 0x72, 0xe1, 0x31, 0xa0, 0x29, 0xb8, 0x50, 0x45, 0xb6, 0x81, 0x81, 0x58,
        0x5d, 0x28, 0x33, 0xe8, 0x48, 0x79, 0xb9, 0x70, 0x91, 0x43, 0xe1, 0xf5, 0x93, 0xf0, 0x00,
        0x00, 0x01,
    ];
    assert_eq!(modulus().to_be_bytes(), expected);
    assert_eq!(modulus(), Scalar::from_be_bytes(expected));
}

#[test]
fn scalars_are_big_endian() {
    let mut bytes = [0u8; 32];
    bytes[31] = 7;
    assert_eq!(Scalar::from_u64(7).to_be_bytes(), bytes);
    bytes[15] = 1;
    assert_eq!(Scalar::from_halves(1, 7).to_be_bytes(), bytes);
    assert_eq!(Scalar::from_u128(u128::MAX).to_be_bytes()[..16], [0u8; 16]);
    assert_eq!(Scalar::from_u128(u128::MAX).to_be_bytes()[16..], [0xffu8; 16]);
    assert!(Scalar::zero().is_zero());
    assert!(!Scalar::one().is_zero());
    assert!(Scalar::one().equals(&Scalar::from_u64(1)));
    assert!(!Scalar::one().equals(&Scalar::zero()));
}

#[test]
fn canonical_means_below_the_order() {
    assert!(Scalar::zero().is_canonical());
    assert!(r_minus(1).is_canonical());
    assert!(!modulus().is_canonical());
    assert!(!Scalar::from_be_bytes([0xff; 32]).is_canonical());
}

#[test]
fn addition_wraps_at_the_order() {
    assert_eq!(fr_add(Scalar::from_u64(2), Scalar::from_u64(3)), Scalar::from_u64(5));
    assert_eq!(fr_add(r_minus(1), Scalar::one()), Scalar::zero());
    assert_eq!(fr_add(r_minus(1), Scalar::from_u64(5)), Scalar::from_u64(4));
    // Operands need not be reduced.
    assert_eq!(fr_add(modulus(), modulus()), Scalar::zero());
    let max = Scalar::from_be_bytes([0xff; 32]);
    assert_eq!(fr_add(max, max), fr_mul(fr_reduce(max), Scalar::from_u64(2)));
}

#[test]
fn subtraction_wraps_on_underflow() {
    assert_eq!(fr_sub(Scalar::from_u64(5), Scalar::from_u64(3)), Scalar::from_u64(2));
    assert_eq!(fr_sub(Scalar::zero(), Scalar::one()), r_minus(1));
    assert_eq!(fr_sub(Scalar::from_u64(3), Scalar::from_u64(5)), r_minus(2));
    assert_eq!(fr_sub(Scalar::from_u64(3), Scalar::from_u64(3)), Scalar::zero());
    assert_eq!(fr_sub(modulus(), Scalar::zero()), Scalar::zero());
}

#[test]
fn multiplication() {
    assert_eq!(fr_mul(Scalar::from_u64(6), Scalar::from_u64(7)), Scalar::from_u64(42));
    assert_eq!(fr_mul(r_minus(1), r_minus(1)), Scalar::one());
    assert_eq!(fr_mul(r_minus(1), Scalar::from_u64(2)), r_minus(2));
    assert_eq!(fr_mul(Scalar::zero(), r_minus(1)), Scalar::zero());
    let big = Scalar::from_halves(1, 0);
    assert_eq!(fr_mul(big, big), fr_pow(Scalar::from_u64(2), Scalar::from_u64(256)));
}

#[test]
fn exponentiation_by_repeated_squaring() {
    assert_eq!(fr_pow(Scalar::from_u64(2), Scalar::from_u64(10)), Scalar::from_u64(1024));
    assert_eq!(fr_pow(Scalar::from_u64(3), Scalar::from_u64(0)), Scalar::one());
    assert_eq!(fr_pow(Scalar::zero(), Scalar::from_u64(0)), Scalar::one());
    assert_eq!(fr_pow(Scalar::zero(), Scalar::from_u64(5)), Scalar::zero());
    assert_eq!(fr_pow(Scalar::from_u64(7), Scalar::one()), Scalar::from_u64(7));
    assert_eq!(fr_pow(Scalar::from_u64(3), Scalar::from_u64(5)), Scalar::from_u64(243));
    assert_eq!(fr_pow(r_minus(1), Scalar::from_u64(2)), Scalar::one());
    assert_eq!(fr_pow(r_minus(1), Scalar::from_u64(3)), r_minus(1));
    // Fermat: a^(r-1) = 1.
    assert_eq!(fr_pow(Scalar::from_u64(12345), r_minus(1)), Scalar::one());
    // The exponent is read in full, high bytes too.
    let e = Scalar::from_halves(1, 0);
    let two_128 = fr_pow(Scalar::from_u64(2), Scalar::from_u64(128));
    assert_eq!(two_128, Scalar::from_halves(1, 0));
    assert_eq!(
        fr_pow(Scalar::from_u64(3), e),
        fr_pow(fr_pow(Scalar::from_u64(3), Scalar::from_halves(0, 1 << 64)), Scalar::from_halves(0, 1 << 64))
    );
}

#[test]
fn inverse_by_fermat() {
    let half = fr_inv(Scalar::from_u64(2)).unwrap();
    assert_eq!(fr_mul(half, Scalar::from_u64(2)), Scalar::one());
    assert_eq!(half, Scalar::from_halves(R_HI >> 1, ((R_LO + 1) >> 1) | ((R_HI & 1) << 127)));
    for x in [1u64, 3, 12345, u64::MAX] {
        let inverse = fr_inv(Scalar::from_u64(x)).unwrap();
        assert_eq!(fr_mul(inverse, Scalar::from_u64(x)), Scalar::one());
    }
    assert_eq!(fr_inv(r_minus(1)).unwrap(), r_minus(1));
}

#[test]
fn zero_has_no_inverse() {
    assert_eq!(fr_inv(Scalar::zero()), Err(Error::InvalidInputSize));
    assert_eq!(fr_inv(modulus()), Err(Error::InvalidInputSize));
}

#[test]
fn bytes_to_field_element() {
    assert_eq!(fr_from_be_bytes_mod(&[]), Scalar::zero());
    assert_eq!(fr_from_be_bytes_mod(&[1, 2]), Scalar::from_u64(0x0102));
    assert_eq!(fr_from_be_bytes_mod(&modulus().to_be_bytes()), Scalar::zero());
    assert_eq!(fr_from_be_bytes_mod(&r_minus(1).to_be_bytes()), r_minus(1));
    let mut long = vec![0u8; 31];
    long.push(9);
    long.extend_from_slice(&[0xaa; 8]);
    // Of a longer string the first 32 bytes are read.
    assert_eq!(fr_from_be_bytes_mod(&long), Scalar::from_u64(9));
}

#[test]
fn reduce_by_another_modulus() {
    assert_eq!(reduce_mod(&Scalar::from_u64(17), &Scalar::from_u64(5)), Scalar::from_u64(2));
    assert_eq!(fr_reduce(modulus()), Scalar::zero());
    assert_eq!(fr_reduce(Scalar::from_u64(17)), Scalar::from_u64(17));
}

#[test]
fn scalars_from_a_buffer() {
    let mut buf = vec![0xeeu8; 3];
    buf.extend_from_slice(&Scalar::from_u64(77).to_be_bytes());
    assert_eq!(Scalar::read(&buf, 3), Scalar::from_u64(77));
}

#[test]
fn integers_as_bytes() {
    let mut buf = vec![9u8];
    append_le(&mut buf, 0x0102_0304, 4);
    assert_eq!(buf, vec![9, 4, 3, 2, 1]);
    append_be(&mut buf, 0x0102_0304, 4);
    assert_eq!(buf, vec![9, 4, 3, 2, 1, 1, 2, 3, 4]);
    // Only the low bytes are written.
    append_le(&mut buf, 0x0102_0304, 2);
    append_be(&mut buf, 0x0102_0304, 2);
    assert_eq!(&buf[9..], &[4, 3, 3, 4]);
    append_le(&mut buf, 5, 0);
    assert_eq!(buf.len(), 13);
    assert_eq!(read_le(&buf, 1, 4), 0x0102_0304);
    assert_eq!(read_be(&buf, 5, 4), 0x0102_0304);
    assert_eq!(read_le(&buf, 0, 0), 0);
    let wide: Vec<u8> = (1u8..=16).collect();
    assert_eq!(read_be(&wide, 0, 16), 0x0102030405060708090a0b0c0d0e0f10);
    assert_eq!(read_le(&wide, 0, 16), 0x100f0e0d0c0b0a090807060504030201);
    let mut out = Vec::new();
    append_le(&mut out, u128::MAX - 1, 16);
    assert_eq!(read_le(&out, 0, 16), u128::MAX - 1);
}

#[test]
fn ranges_and_arrays() {
    let data: Vec<u8> = (0u8..40).collect();
    assert_eq!(copy_range(&data, 3, 4), vec![3, 4, 5, 6]);
    assert!(copy_range(&data, 40, 0).is_empty());
    let word = read_array32(&data, 8);
    assert_eq!(word[0], 8);
    assert_eq!(word[31], 39);
    assert!(array32_eq(&word, &read_array32(&data, 8)));
    assert!(!array32_eq(&word, &read_array32(&data, 7)));
    let mut buf = vec![1u8];
    append_bytes(&mut buf, &[2, 3]);
    assert_eq!(buf, vec![1, 2, 3]);
}

#[test]
fn powers_of_two() {
    assert!(!is_power_of_two(0));
    assert!(is_power_of_two(1));
    assert!(is_power_of_two(2));
    assert!(!is_power_of_two(3));
    assert!(!is_power_of_two(7));
    assert!(is_power_of_two(1 << 20));
    assert!(!is_power_of_two((1 << 20) + 2));
    assert_eq!(next_power_of_two(0), 1);
    assert_eq!(next_power_of_two(1), 1);
    assert_eq!(next_power_of_two(3), 4);
    assert_eq!(next_power_of_two(1024), 1024);
    assert_eq!(next_power_of_two(1025), 2048);
    assert_eq!(ilog2(0), 0);
    assert_eq!(ilog2(1), 0);
    assert_eq!(ilog2(2), 1);
    assert_eq!(ilog2(3), 1);
    assert_eq!(ilog2(65536), 16);
    assert_eq!(ilog2(65535), 15);
}
