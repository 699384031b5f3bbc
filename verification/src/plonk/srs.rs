//! The structured reference string.
//!
//! A reference string holds the powers `G1, tau G1, tau^2 G1, ...` of a
//! secret `tau` and, in G2, the generator and `tau G2`. It is sound only if
//! both groups hold the same `tau`: `e(tau G1, G2) = e(G1, tau G2)`.

use crate::bytes::array32_eq;
use crate::curve::{
    g1_add, g1_identity_spec, g1_mul, g1_valid, g2_valid, pairing_value, pairing_value_spec,
    spec_g1_add, spec_g1_mul, validate_g1_point, validate_g2_point, G1Point, G2Point,
};
use crate::field::Scalar;
use crate::groth16::bytes_equal;
use crate::hash::{keccak256, spec_keccak256};
use crate::plonk::transcript::points_encoding;
use crate::plonk::Error;
use std::collections::BTreeMap;
use vstd::prelude::*;

verus! {

/// The circuit sizes that a reference string is made for.
#[derive(Debug, Clone, Copy, PartialEq, Eq, Structural)]
pub enum SrsDegree {
    /// `2^10` constraints.
    D1024,
    /// `2^12` constraints.
    D4096,
    /// `2^14` constraints.
    D16384,
    /// `2^16` constraints.
    D65536,
    /// `2^18` constraints.
    D262144,
    /// `2^20` constraints.
    D1048576,
}

impl SrsDegree {
    /// The exponent of the size.
    pub open spec fn exponent_spec(self) -> u8 {
        match self {
            SrsDegree::D1024 => 10,
            SrsDegree::D4096 => 12,
            SrsDegree::D16384 => 14,
            SrsDegree::D65536 => 16,
            SrsDegree::D262144 => 18,
            SrsDegree::D1048576 => 20,
        }
    }

    /// The number of constraints.
    pub open spec fn size_spec(self) -> nat {
        match self {
            SrsDegree::D1024 => 1024,
            SrsDegree::D4096 => 4096,
            SrsDegree::D16384 => 16384,
            SrsDegree::D65536 => 65536,
            SrsDegree::D262144 => 262144,
            SrsDegree::D1048576 => 1048576,
        }
    }

    /// The degree with the given exponent, if there is one.
    pub open spec fn of_exponent(exp: u8) -> Option<SrsDegree> {
        if exp == 10 {
            Some(SrsDegree::D1024)
        } else if exp == 12 {
            Some(SrsDegree::D4096)
        } else if exp == 14 {
            Some(SrsDegree::D16384)
        } else if exp == 16 {
            Some(SrsDegree::D65536)
        } else if exp == 18 {
            Some(SrsDegree::D262144)
        } else if exp == 20 {
            Some(SrsDegree::D1048576)
        } else {
            None
        }
    }

    /// The number of constraints, two to the exponent.
    pub fn size(&self) -> (size: usize)
        ensures
            size == self.size_spec(),
    {
        match self {
            SrsDegree::D1024 => 1024,
            SrsDegree::D4096 => 4096,
            SrsDegree::D16384 => 16384,
            SrsDegree::D65536 => 65536,
            SrsDegree::D262144 => 262144,
            SrsDegree::D1048576 => 1048576,
        }
    }

    /// The exponent of the size.
    pub fn exponent(&self) -> (exp: u8)
        ensures
            exp == self.exponent_spec(),
    {
        match self {
            SrsDegree::D1024 => 10,
            SrsDegree::D4096 => 12,
            SrsDegree::D16384 => 14,
            SrsDegree::D65536 => 16,
            SrsDegree::D262144 => 18,
            SrsDegree::D1048576 => 20,
        }
    }

    /// The degree with the given exponent; any other exponent than 10, 12,
    /// 14, 16, 18 or 20 fails with `InvalidSrsSize`.
    pub fn from_exponent(exp: u8) -> (result: Result<SrsDegree, Error>)
        ensures
            match result {
                Ok(degree) => Self::of_exponent(exp) == Some(degree),
                Err(e) => Self::of_exponent(exp).is_none() && e == Error::InvalidSrsSize,
            },
    {
        match exp {
            10 => Ok(SrsDegree::D1024),
            12 => Ok(SrsDegree::D4096),
            14 => Ok(SrsDegree::D16384),
            16 => Ok(SrsDegree::D65536),
            18 => Ok(SrsDegree::D262144),
            20 => Ok(SrsDegree::D1048576),
            _ => Err(Error::InvalidSrsSize),
        }
    }
}

/// The points of a list of G2, each as `x_c0 ‖ x_c1 ‖ y_c0 ‖ y_c1`.
pub open spec fn g2_points_encoding(points: Seq<G2Point>, n: nat) -> Seq<u8>
    decreases n,
{
    if n == 0 {
        Seq::empty()
    } else {
        g2_points_encoding(points, (n - 1) as nat) + points[n - 1].encoding()
    }
}

/// The hash that commits to a reference string: Keccak-256 of all
/// coordinates, G1 first.
pub open spec fn srs_hash_spec(g1_powers: Seq<G1Point>, g2_powers: Seq<G2Point>) -> Seq<u8> {
    spec_keccak256(
        points_encoding(g1_powers, g1_powers.len()) + g2_points_encoding(
            g2_powers,
            g2_powers.len(),
        ),
    )
}

/// The sum of the first `n` powers, each times its scalar.
pub open spec fn msm_spec(bases: Seq<G1Point>, scalars: Seq<Scalar>, n: nat) -> G1Point
    decreases n,
{
    if n == 0 {
        g1_identity_spec()
    } else {
        spec_g1_add(msm_spec(bases, scalars, (n - 1) as nat), spec_g1_mul(bases[n - 1], scalars[n - 1]))
    }
}

/// A structured reference string.
#[derive(Debug, Clone)]
pub struct Srs {
    /// `G1, tau G1, tau^2 G1, ...`.
    pub g1_powers: Vec<G1Point>,
    /// `G2, tau G2`.
    pub g2_powers: Vec<G2Point>,
    /// The circuit size that the string is made for.
    pub degree: SrsDegree,
    /// Keccak-256 of the points.
    pub hash: [u8; 32],
}

/// What `Srs::new` finds wrong with its arguments, if anything: the number
/// of points first, then the points of G1, then those of G2.
pub open spec fn srs_defect(g1_powers: Seq<G1Point>, g2_powers: Seq<G2Point>, degree: SrsDegree) -> Option<
    Error,
> {
    if g1_powers.len() != degree.size_spec() + 1 || g2_powers.len() < 2 {
        Some(Error::InvalidSrsSize)
    } else if exists|i: int| 0 <= i < g1_powers.len() && !g1_valid(#[trigger] g1_powers[i]) {
        Some(Error::InvalidG1Point)
    } else if exists|i: int| 0 <= i < g2_powers.len() && !g2_valid(#[trigger] g2_powers[i]) {
        Some(Error::InvalidG2Point)
    } else {
        None
    }
}

impl Srs {
    /// A string as `new` makes it: one G1 power more than the degree has
    /// constraints, two powers of G2 at least, every point a valid group
    /// element, and the hash of the points.
    pub open spec fn well_formed(self) -> bool {
        &&& srs_defect(self.g1_powers@, self.g2_powers@, self.degree).is_none()
        &&& self.hash@ == srs_hash_spec(self.g1_powers@, self.g2_powers@)
    }

    /// Takes over the points of a setup.
    pub fn new(g1_powers: Vec<G1Point>, g2_powers: Vec<G2Point>, degree: SrsDegree) -> (result: Result<
        Srs,
        Error,
    >)
        ensures
            match result {
                Ok(srs) => {
                    &&& srs.well_formed()
                    &&& srs.g1_powers == g1_powers
                    &&& srs.g2_powers == g2_powers
                    &&& srs.degree == degree
                },
                Err(e) => srs_defect(g1_powers@, g2_powers@, degree) == Some(e),
            },
    {
        let expected_size: usize = degree.size();
        if g1_powers.len() != expected_size + 1 {
            return Err(Error::InvalidSrsSize);
        }
        if g2_powers.len() < 2 {
            return Err(Error::InvalidSrsSize);
        }
        let mut i: usize = 0;
        while i < g1_powers.len()
            invariant
                i <= g1_powers@.len(),
                g1_powers@.len() == degree.size_spec() + 1,
                g2_powers@.len() >= 2,
                forall|k: int| 0 <= k < i ==> g1_valid(#[trigger] g1_powers@[k]),
            decreases g1_powers@.len() - i,
        {
            if !validate_g1_point(&g1_powers[i]) {
                assert(!g1_valid(g1_powers@[i as int]));
                return Err(Error::InvalidG1Point);
            }
            i = i + 1;
        }
        let mut j: usize = 0;
        while j < g2_powers.len()
            invariant
                j <= g2_powers@.len(),
                g1_powers@.len() == degree.size_spec() + 1,
                g2_powers@.len() >= 2,
                forall|k: int| 0 <= k < g1_powers@.len() ==> g1_valid(#[trigger] g1_powers@[k]),
                forall|k: int| 0 <= k < j ==> g2_valid(#[trigger] g2_powers@[k]),
            decreases g2_powers@.len() - j,
        {
            if !validate_g2_point(&g2_powers[j]) {
                assert(!g2_valid(g2_powers@[j as int]));
                return Err(Error::InvalidG2Point);
            }
            j = j + 1;
        }
        let hash = Self::compute_hash(g1_powers.as_slice(), g2_powers.as_slice());
        Ok(Srs { g1_powers, g2_powers, degree, hash })
    }

    /// The hash that commits to the points.
    pub fn compute_hash(g1_powers: &[G1Point], g2_powers: &[G2Point]) -> (hash: [u8; 32])
        ensures
            hash@ == srs_hash_spec(g1_powers@, g2_powers@),
    {
        let mut buf: Vec<u8> = Vec::new();
        let mut i: usize = 0;
        assert(buf@ =~= points_encoding(g1_powers@, 0));
        while i < g1_powers.len()
            invariant
                i <= g1_powers@.len(),
                buf@ == points_encoding(g1_powers@, i as nat),
            decreases g1_powers@.len() - i,
        {
            g1_powers[i].write(&mut buf);
            i = i + 1;
        }
        let ghost head = buf@;
        let mut j: usize = 0;
        assert(buf@ =~= head + g2_points_encoding(g2_powers@, 0));
        while j < g2_powers.len()
            invariant
                j <= g2_powers@.len(),
                buf@ == head + g2_points_encoding(g2_powers@, j as nat),
            decreases g2_powers@.len() - j,
        {
            let ghost before = buf@;
            g2_powers[j].write(&mut buf);
            assert(before + g2_powers@[j as int].encoding() =~= head + g2_points_encoding(
                g2_powers@,
                (j + 1) as nat,
            ));
            j = j + 1;
        }
        keccak256(buf.as_slice())
    }

    /// Whether the string's hash is the expected one.
    pub fn verify_hash(&self, expected_hash: &[u8; 32]) -> (same: bool)
        ensures
            same == (self.hash@ == expected_hash@),
    {
        array32_eq(&self.hash, expected_hash)
    }

    /// The generator of G1, the first power.
    pub fn g1(&self) -> (point: &G1Point)
        requires
            self.g1_powers@.len() >= 1,
        ensures
            *point == self.g1_powers@[0],
    {
        &self.g1_powers[0]
    }

    /// The generator of G2.
    pub fn g2(&self) -> (point: &G2Point)
        requires
            self.g2_powers@.len() >= 1,
        ensures
            *point == self.g2_powers@[0],
    {
        &self.g2_powers[0]
    }

    /// `tau G2`.
    pub fn tau_g2(&self) -> (point: &G2Point)
        requires
            self.g2_powers@.len() >= 2,
        ensures
            *point == self.g2_powers@[1],
    {
        &self.g2_powers[1]
    }

    /// The power `tau^index G1`; fails with `InvalidSrsSize` where the string
    /// has no such power.
    pub fn get_g1_power(&self, index: usize) -> (result: Result<&G1Point, Error>)
        ensures
            match result {
                Ok(point) => index < self.g1_powers@.len() && *point == self.g1_powers@[index as int],
                Err(e) => index >= self.g1_powers@.len() && e == Error::InvalidSrsSize,
            },
    {
        if index < self.g1_powers.len() {
            Ok(&self.g1_powers[index])
        } else {
            Err(Error::InvalidSrsSize)
        }
    }

    /// Whether both groups hold the same secret:
    /// `e(tau G1, G2) = e(G1, tau G2)`, and both pairings have a value. Fails
    /// with `InvalidSrsSize` where a group has fewer than two powers.
    pub fn verify_consistency(&self) -> (result: Result<bool, Error>)
        ensures
            match result {
                Ok(consistent) => {
                    &&& self.g1_powers@.len() >= 2
                    &&& self.g2_powers@.len() >= 2
                    &&& consistent == self.consistent()
                },
                Err(e) => (self.g1_powers@.len() < 2 || self.g2_powers@.len() < 2) && e
                    == Error::InvalidSrsSize,
            },
    {
        if self.g1_powers.len() < 2 {
            return Err(Error::InvalidSrsSize);
        }
        if self.g2_powers.len() < 2 {
            return Err(Error::InvalidSrsSize);
        }
        let left_g1: [G1Point; 1] = [self.g1_powers[1]];
        let left_g2: [G2Point; 1] = [self.g2_powers[0]];
        let right_g1: [G1Point; 1] = [self.g1_powers[0]];
        let right_g2: [G2Point; 1] = [self.g2_powers[1]];
        assert(left_g1@ =~= seq![self.g1_powers@[1]]);
        assert(left_g2@ =~= seq![self.g2_powers@[0]]);
        assert(right_g1@ =~= seq![self.g1_powers@[0]]);
        assert(right_g2@ =~= seq![self.g2_powers@[1]]);
        let lhs = pairing_value(left_g1.as_slice(), left_g2.as_slice());
        let rhs = pairing_value(right_g1.as_slice(), right_g2.as_slice());
        match (lhs, rhs) {
            (Some(l), Some(r)) => Ok(bytes_equal(l.as_slice(), r.as_slice())),
            _ => Ok(false),
        }
    }

    /// `e(tau G1, G2) = e(G1, tau G2)`, both pairings having a value.
    pub open spec fn consistent(self) -> bool {
        let lhs = pairing_value_spec(seq![self.g1_powers@[1]], seq![self.g2_powers@[0]]);
        let rhs = pairing_value_spec(seq![self.g1_powers@[0]], seq![self.g2_powers@[1]]);
        lhs is Some && lhs == rhs
    }

    /// The sum of the first powers of G1, each times its scalar: the
    /// commitment to the polynomial with these coefficients. Fails with
    /// `InvalidSrsSize` where there are more scalars than powers.
    pub fn msm_g1(&self, scalars: &[Scalar]) -> (result: Result<G1Point, Error>)
        ensures
            match result {
                Ok(point) => {
                    &&& scalars@.len() <= self.g1_powers@.len()
                    &&& point == msm_spec(self.g1_powers@, scalars@, scalars@.len())
                },
                Err(e) => scalars@.len() > self.g1_powers@.len() && e == Error::InvalidSrsSize,
            },
    {
        if scalars.len() > self.g1_powers.len() {
            return Err(Error::InvalidSrsSize);
        }
        let mut acc = G1Point::identity();
        let mut i: usize = 0;
        while i < scalars.len()
            invariant
                i <= scalars@.len() <= self.g1_powers@.len(),
                acc == msm_spec(self.g1_powers@, scalars@, i as nat),
            decreases scalars@.len() - i,
        {
            let term = g1_mul(&self.g1_powers[i], &scalars[i]);
            acc = g1_add(&acc, &term);
            i = i + 1;
        }
        Ok(acc)
    }
}

/// Reference strings by degree, one for each at most.
#[derive(Debug)]
pub struct SrsRegistry {
    /// The registered strings by the exponent of their degree.
    srs_map: BTreeMap<u8, Srs>,
}

impl SrsRegistry {
    /// The registered strings, each under the exponent of its degree.
    pub closed spec fn registered(self) -> Map<u8, Srs> {
        self.srs_map@
    }

    /// Whether a string of the degree is registered.
    pub open spec fn has_spec(self, degree: SrsDegree) -> bool {
        self.registered().contains_key(degree.exponent_spec())
    }

    /// Every string stands under the exponent of its own degree, as in every
    /// registry that was filled by `register`.
    pub open spec fn keyed_by_degree(self) -> bool {
        forall|exp: u8| #[trigger]
            self.registered().contains_key(exp) ==> self.registered()[exp].degree.exponent_spec()
                == exp
    }

    /// An empty registry.
    pub fn new() -> (registry: SrsRegistry)
        ensures
            registry.registered() == Map::<u8, Srs>::empty(),
            registry.keyed_by_degree(),
    {
        SrsRegistry { srs_map: BTreeMap::new() }
    }

    /// Registers a string under its degree. A second string of one degree
    /// fails with `InvalidSrsSize`, a string with fewer than two powers in a
    /// group too; a string that is not consistent fails with `InvalidProof`.
    pub fn register(&mut self, srs: Srs) -> (result: Result<(), Error>)
        ensures
            old(self).keyed_by_degree() ==> final(self).keyed_by_degree(),
            match result {
                Ok(_) => {
                    &&& !old(self).has_spec(srs.degree)
                    &&& srs.g1_powers@.len() >= 2
                    &&& srs.g2_powers@.len() >= 2
                    &&& srs.consistent()
                    &&& final(self).registered() == old(self).registered().insert(
                        srs.degree.exponent_spec(),
                        srs,
                    )
                },
                Err(e) => {
                    &&& final(self).registered() == old(self).registered()
                    &&& e == if old(self).has_spec(srs.degree) || srs.g1_powers@.len() < 2
                        || srs.g2_powers@.len() < 2 {
                        Error::InvalidSrsSize
                    } else {
                        Error::InvalidProof
                    }
                    &&& (old(self).has_spec(srs.degree) || srs.g1_powers@.len() < 2
                        || srs.g2_powers@.len() < 2 || !srs.consistent())
                },
            },
    {
        broadcast use vstd::std_specs::btree::group_btree_axioms;

        let degree_exp: u8 = srs.degree.exponent();
        if self.srs_map.contains_key(&degree_exp) {
            return Err(Error::InvalidSrsSize);
        }
        match srs.verify_consistency() {
            Err(e) => {
                return Err(e);
            },
            Ok(consistent) => {
                if !consistent {
                    return Err(Error::InvalidProof);
                }
            },
        }
        self.srs_map.insert(degree_exp, srs);
        Ok(())
    }

    /// The string of a degree; fails with `InvalidSrsSize` where none is
    /// registered.
    pub fn get(&self, degree: SrsDegree) -> (result: Result<&Srs, Error>)
        ensures
            match result {
                Ok(srs) => {
                    &&& self.has_spec(degree)
                    &&& *srs == self.registered()[degree.exponent_spec()]
                    &&& self.keyed_by_degree() ==> srs.degree == degree
                },
                Err(e) => !self.has_spec(degree) && e == Error::InvalidSrsSize,
            },
    {
        broadcast use vstd::std_specs::btree::group_btree_axioms;

        let degree_exp: u8 = degree.exponent();
        match self.srs_map.get(&degree_exp) {
            Some(srs) => Ok(srs),
            None => Err(Error::InvalidSrsSize),
        }
    }

    /// Whether a string of the degree is registered.
    pub fn has(&self, degree: SrsDegree) -> (found: bool)
        ensures
            found == self.has_spec(degree),
    {
        broadcast use vstd::std_specs::btree::group_btree_axioms;

        let degree_exp: u8 = degree.exponent();
        self.srs_map.contains_key(&degree_exp)
    }

    /// The degrees that have a string, smallest first.
    pub fn registered_degrees(&self) -> (degrees: Vec<SrsDegree>)
        ensures
            forall|d: SrsDegree| degrees@.contains(d) <==> self.has_spec(d),
            forall|i: int, j: int|
                0 <= i < j < degrees@.len() ==> degrees@[i].exponent_spec()
                    < degrees@[j].exponent_spec(),
    {
        let all: [SrsDegree; 6] = [
            SrsDegree::D1024,
            SrsDegree::D4096,
            SrsDegree::D16384,
            SrsDegree::D65536,
            SrsDegree::D262144,
            SrsDegree::D1048576,
        ];
        let mut degrees: Vec<SrsDegree> = Vec::new();
        let mut k: usize = 0;
        while k < 6
            invariant
                k <= 6,
                all@.len() == 6,
                all@[0] == SrsDegree::D1024,
                all@[1] == SrsDegree::D4096,
                all@[2] == SrsDegree::D16384,
                all@[3] == SrsDegree::D65536,
                all@[4] == SrsDegree::D262144,
                all@[5] == SrsDegree::D1048576,
                forall|d: SrsDegree|
                    degrees@.contains(d) <==> (self.has_spec(d) && exists|m: int|
                        0 <= m < k && all@[m] == d),
                forall|i: int| 0 <= i < degrees@.len() ==> exists|m: int|
                    0 <= m < k && all@[m] == #[trigger] degrees@[i],
                forall|i: int, j: int|
                    0 <= i < j < degrees@.len() ==> degrees@[i].exponent_spec()
                        < degrees@[j].exponent_spec(),
            decreases 6 - k,
        {
            let d = all[k];
            if self.has(d) {
                let ghost before = degrees@;
                degrees.push(d);
                assert forall|e: SrsDegree| degrees@.contains(e) <==> (self.has_spec(e)
                    && exists|m: int| 0 <= m < k + 1 && all@[m] == e) by {
                    if degrees@.contains(e) {
                        let i = choose|i: int| 0 <= i < degrees@.len() && degrees@[i] == e;
                        if i < before.len() {
                            assert(before.contains(e));
                        }
                    }
                    if self.has_spec(e) && exists|m: int| 0 <= m < k + 1 && all@[m] == e {
                        if e == d {
                            assert(degrees@[before.len() as int] == e);
                        } else {
                            assert(before.contains(e));
                            let i = choose|i: int| 0 <= i < before.len() && before[i] == e;
                            assert(degrees@[i] == e);
                        }
                    }
                }
            } else {
                assert forall|e: SrsDegree| degrees@.contains(e) <==> (self.has_spec(e)
                    && exists|m: int| 0 <= m < k + 1 && all@[m] == e) by {
                }
            }
            k = k + 1;
        }
        assert forall|d: SrsDegree| degrees@.contains(d) <==> self.has_spec(d) by {
            if self.has_spec(d) {
                match d {
                    SrsDegree::D1024 => assert(all@[0] == d),
                    SrsDegree::D4096 => assert(all@[1] == d),
                    SrsDegree::D16384 => assert(all@[2] == d),
                    SrsDegree::D65536 => assert(all@[3] == d),
                    SrsDegree::D262144 => assert(all@[4] == d),
                    SrsDegree::D1048576 => assert(all@[5] == d),
                }
            }
        }
        degrees
    }
}

impl Default for SrsRegistry {
    fn default() -> (registry: Self)
        ensures
            registry.registered() == Map::<u8, Srs>::empty(),
            registry.keyed_by_degree(),
    {
        SrsRegistry::new()
    }
}

} // verus!
