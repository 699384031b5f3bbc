//! Verification of zero-knowledge proofs behind one dispatch boundary.
//!
//! Three proof systems are verified: Groth16 over BN254 ([`groth16`]), PLONK
//! with KZG commitments ([`plonk`]) and a FRI-based STARK ([`stark`]). They
//! share the arithmetic of the scalar field ([`field`]), the curve
//! ([`curve`]) and two hash functions ([`hash`]), and they are reached
//! through one interface ([`verifier_traits`]) and one dispatcher
//! ([`uzkv`]), which holds every proof against the key it names before any
//! verifier is asked ([`security`]).
//!
//! Every function states what it returns over the bytes and values it is
//! given. What the curve library and the hash functions compute is named,
//! not defined: a verdict says which pairings, sums and digests it was read
//! from. The decisions of a contract that runs the verifier are functions of
//! what the contract read from its storage ([`contract`], [`attestor`]).

pub mod attestor;
pub mod bytes;
pub mod contract;
pub mod cost_model;
pub mod curve;
pub mod error;
pub mod field;
pub mod groth16;
pub mod hash;
pub mod plonk;
pub mod pow2;
pub mod security;
pub mod stark;
pub mod types;
pub mod uzkv;
pub mod verifier_traits;

pub use error::Error;
