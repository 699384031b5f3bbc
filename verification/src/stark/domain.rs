//! The evaluation domain of the first FRI layer: the powers of a root of
//! unity of the scalar field.

use crate::field::{fr_mul, mul_spec, scalar_of, Scalar};
use crate::pow2::{ilog2, log2_floor};
use vstd::prelude::*;

verus! {

/// A root of unity of order `2^28`, the largest power of two that divides
/// the order of the field less one.
pub open spec fn root_of_unity_28() -> Scalar {
    scalar_of(0x2a3c09f0a58a7e8500e0a7eb8ef62abc402d111e41112ed49bd61b6e725b19f0nat)
}

/// `x` squared `t` times over.
pub open spec fn squared_times(x: Scalar, t: nat) -> Scalar
    decreases t,
{
    if t == 0 {
        x
    } else {
        mul_spec(squared_times(x, (t - 1) as nat), squared_times(x, (t - 1) as nat))
    }
}

/// The generator of the domain with `size` points: the root of order `2^28`
/// squared until its order is the power of two at or below `size`. For more
/// than `2^28` points the root itself.
pub open spec fn domain_generator(size: nat) -> Scalar {
    if log2_floor(size) >= 28 {
        root_of_unity_28()
    } else {
        squared_times(root_of_unity_28(), (28 - log2_floor(size)) as nat)
    }
}

/// The `i`-th power of the generator.
pub open spec fn domain_point(generator: Scalar, i: nat) -> Scalar
    decreases i,
{
    if i == 0 {
        scalar_of(1)
    } else {
        mul_spec(domain_point(generator, (i - 1) as nat), generator)
    }
}

/// The domain with `size` points: `1, g, g^2, ...` for its generator `g`.
pub open spec fn evaluation_domain_spec(size: nat) -> Seq<Scalar> {
    Seq::new(size, |i: int| domain_point(domain_generator(size), i as nat))
}

/// The generator of the domain with `size` points.
pub fn generator_of(size: usize) -> (generator: Scalar)
    ensures
        generator == domain_generator(size as nat),
{
    let root = Scalar::from_halves(
        0x2a3c09f0a58a7e8500e0a7eb8ef62abc,
        0x402d111e41112ed49bd61b6e725b19f0,
    );
    let log: u32 = ilog2(size);
    if log >= 28 {
        return root;
    }
    let times: u32 = 28 - log;
    let mut x = root;
    let mut t: u32 = 0;
    while t < times
        invariant
            t <= times,
            root == root_of_unity_28(),
            x == squared_times(root, t as nat),
        decreases times - t,
    {
        x = fr_mul(x, x);
        t = t + 1;
    }
    x
}

/// The domain with `size` points.
pub fn evaluation_domain(size: usize) -> (domain: Vec<Scalar>)
    ensures
        domain@ == evaluation_domain_spec(size as nat),
{
    let generator = generator_of(size);
    let mut domain: Vec<Scalar> = Vec::new();
    let mut point = Scalar::one();
    let mut i: usize = 0;
    while i < size
        invariant
            i <= size,
            generator == domain_generator(size as nat),
            domain@.len() == i,
            point == domain_point(generator, i as nat),
            forall|k: int| 0 <= k < i ==> #[trigger] domain@[k] == domain_point(generator, k as nat),
        decreases size - i,
    {
        domain.push(point);
        point = fr_mul(point, generator);
        i = i + 1;
    }
    assert(domain@ =~= evaluation_domain_spec(size as nat));
    domain
}

} // verus!
