//! Powers of two: the sizes of domains, traces and trees.

use vstd::prelude::*;

verus! {

/// Whether `n` is a power of two.
pub open spec fn is_pow2(n: nat) -> bool
    decreases n,
{
    n == 1 || (n > 1 && n % 2 == 0 && is_pow2(n / 2))
}

/// The first of `p, 2p, 4p, ...` that is at least `n`.
pub open spec fn doubled_up_to(n: nat, p: nat) -> nat
    decreases
        (if p < n {
            n - p
        } else {
            0
        }),
{
    if p == 0 || p >= n {
        p
    } else {
        doubled_up_to(n, 2 * p)
    }
}

/// The smallest power of two that is at least `n`; 1 for `n == 0`.
pub open spec fn next_pow2(n: nat) -> nat {
    doubled_up_to(n, 1)
}

/// The number of times `n` can be halved before it is 1 or less: the
/// base-2 logarithm of `n`, rounded down, and 0 for `n == 0`.
pub open spec fn log2_floor(n: nat) -> nat
    decreases n,
{
    if n <= 1 {
        0
    } else {
        1 + log2_floor(n / 2)
    }
}

pub proof fn lemma_doubled_is_pow2(n: nat, p: nat)
    requires
        is_pow2(p),
    ensures
        is_pow2(doubled_up_to(n, p)),
        doubled_up_to(n, p) >= n,
        doubled_up_to(n, p) >= p,
        p >= n || doubled_up_to(n, p) < 2 * n,
    decreases
        (if p < n {
            n - p
        } else {
            0
        }),
{
    if p >= n {
    } else {
        assert(is_pow2(2 * p)) by {
            assert((2 * p) / 2 == p);
        }
        lemma_doubled_is_pow2(n, 2 * p);
    }
}

/// `2^k`.
pub open spec fn two_to(k: nat) -> nat
    decreases k,
{
    if k == 0 {
        1
    } else {
        2 * two_to((k - 1) as nat)
    }
}

pub proof fn lemma_two_to_values()
    ensures
        two_to(32) == 0x1_0000_0000,
        two_to(64) == 0x1_0000_0000_0000_0000,
{
    reveal_with_fuel(two_to, 33);
    assert(two_to(32) == 0x1_0000_0000);
    lemma_two_to_adds(32, 32);
}

proof fn lemma_two_to_adds(a: nat, b: nat)
    ensures
        two_to(a + b) == two_to(a) * two_to(b),
    decreases a,
{
    if a > 0 {
        lemma_two_to_adds((a - 1) as nat, b);
        let x = two_to((a - 1) as nat);
        let y = two_to(b);
        assert(two_to(a + b) == 2 * two_to((a - 1 + b) as nat));
        assert(2 * (x * y) == (2 * x) * y) by (nonlinear_arith);
    } else {
        assert(two_to(a) * two_to(b) == two_to(b)) by (nonlinear_arith)
            requires
                two_to(a) == 1,
        ;
    }
}

/// A number below `2^k` has a logarithm below `k`.
pub proof fn lemma_log2_floor_below(n: nat, k: nat)
    requires
        k >= 1,
        n < two_to(k),
    ensures
        log2_floor(n) < k,
    decreases k,
{
    if n > 1 {
        assert(k >= 2) by {
            reveal_with_fuel(two_to, 2);
        }
        lemma_log2_floor_below(n / 2, (k - 1) as nat);
    }
}

/// Whether `n` is a power of two.
pub fn is_power_of_two(n: usize) -> (result: bool)
    ensures
        result == is_pow2(n as nat),
{
    if n == 0 {
        return false;
    }
    let mut m: usize = n;
    while m % 2 == 0
        invariant
            m >= 1,
            is_pow2(n as nat) == is_pow2(m as nat),
        decreases m,
    {
        m = m / 2;
    }
    m == 1
}

/// The smallest power of two that is at least `n`.
pub fn next_power_of_two(n: usize) -> (result: usize)
    requires
        n <= 0x4000_0000,
    ensures
        result == next_pow2(n as nat),
        is_pow2(result as nat),
        n <= result,
        result < 2 * n || result == 1,
{
    let mut p: usize = 1;
    proof {
        lemma_doubled_is_pow2(n as nat, 1);
    }
    while p < n
        invariant
            1 <= p,
            n <= 0x4000_0000,
            is_pow2(p as nat),
            p < 2 * n || p == 1,
            doubled_up_to(n as nat, p as nat) == next_pow2(n as nat),
        decreases
            (if p < n {
                n - p
            } else {
                0
            }),
    {
        proof {
            assert(is_pow2(2 * p as nat)) by {
                assert((2 * p) / 2 == p);
            }
        }
        p = 2 * p;
    }
    p
}

/// The base-2 logarithm of `n`, rounded down; 0 for `n == 0`.
pub fn ilog2(n: usize) -> (result: u32)
    ensures
        result == log2_floor(n as nat),
        result < 64,
{
    let mut m: usize = n;
    let mut k: u32 = 0;
    proof {
        lemma_two_to_values();
        lemma_log2_floor_below(n as nat, 64);
    }
    while m > 1
        invariant
            k + log2_floor(m as nat) == log2_floor(n as nat),
            log2_floor(n as nat) < 64,
        decreases m,
    {
        m = m / 2;
        k = k + 1;
    }
    k
}

/// The base-2 logarithm of the smallest power of two that is at least `n`:
/// how often 1 has to be doubled to reach `n`.
pub fn log2_of_next_power_of_two(n: u128) -> (result: u32)
    requires
        n <= 0x1_0000_0000_0000_0000_0000_0000,
    ensures
        result == log2_floor(next_pow2(n as nat)),
        result <= 96,
{
    let mut p: u128 = 1;
    let mut k: u32 = 0;
    proof {
        lemma_two_to_values();
        reveal_with_fuel(two_to, 1);
    }
    while p < n
        invariant
            1 <= p,
            n <= 0x1_0000_0000_0000_0000_0000_0000,
            p < 2 * n || p == 1,
            p == two_to(k as nat),
            k <= 96,
            log2_floor(p as nat) == k,
            doubled_up_to(n as nat, p as nat) == next_pow2(n as nat),
        decreases
            (if p < n {
                n - p
            } else {
                0
            }),
    {
        proof {
            assert((2 * p) / 2 == p);
            assert(two_to((k + 1) as nat) == 2 * two_to(k as nat)) by {
                reveal_with_fuel(two_to, 2);
            }
            if k == 96 {
                lemma_two_to_adds(64, 32);
                lemma_two_to_values();
            }
        }
        p = 2 * p;
        k = k + 1;
    }
    k
}

} // verus!
