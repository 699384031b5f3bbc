//! The labels that separate the steps of the PLONK transcript.

use vstd::prelude::*;

verus! {

/// A step of the protocol. Each step absorbs or squeezes under its own
/// label, so that no message of one step can stand for a message of another.
#[derive(Debug, Clone, Copy, PartialEq, Eq, Structural)]
pub enum Label {
    /// The protocol, absorbed first. `plonk_bn254_v1`
    Protocol,
    /// The verification key. `plonk_vk`
    VerificationKey,
    /// A public input. `plonk_public_input`
    PublicInput,
    /// A wire commitment. `plonk_wire_comm`
    WireCommitment,
    /// The challenge beta. `plonk_beta`
    Beta,
    /// The challenge gamma. `plonk_gamma`
    Gamma,
    /// The permutation commitment. `plonk_perm_comm`
    PermutationCommitment,
    /// The challenge alpha. `plonk_alpha`
    Alpha,
    /// A quotient commitment. `plonk_quotient_comm`
    QuotientCommitment,
    /// The challenge zeta. `plonk_zeta`
    Zeta,
    /// A wire evaluation. `plonk_wire_eval`
    WireEval,
    /// A permutation evaluation. `plonk_perm_eval`
    PermutationEval,
    /// A selector evaluation. `plonk_selector_eval`
    SelectorEval,
    /// The challenge v. `plonk_v`
    V,
    /// An opening proof. `plonk_opening_proof`
    OpeningProof,
    /// The challenge u. `plonk_u`
    U,
}

impl Label {
    /// The bytes of the label.
    pub open spec fn text(self) -> Seq<u8> {
        match self {
            Label::Protocol => seq![0x70u8, 0x6cu8, 0x6fu8, 0x6eu8, 0x6bu8, 0x5fu8, 0x62u8, 0x6eu8, 0x32u8, 0x35u8, 0x34u8, 0x5fu8, 0x76u8, 0x31u8],
            Label::VerificationKey => seq![0x70u8, 0x6cu8, 0x6fu8, 0x6eu8, 0x6bu8, 0x5fu8, 0x76u8, 0x6bu8],
            Label::PublicInput => seq![0x70u8, 0x6cu8, 0x6fu8, 0x6eu8, 0x6bu8, 0x5fu8, 0x70u8, 0x75u8, 0x62u8, 0x6cu8, 0x69u8, 0x63u8, 0x5fu8, 0x69u8, 0x6eu8, 0x70u8, 0x75u8, 0x74u8],
            Label::WireCommitment => seq![0x70u8, 0x6cu8, 0x6fu8, 0x6eu8, 0x6bu8, 0x5fu8, 0x77u8, 0x69u8, 0x72u8, 0x65u8, 0x5fu8, 0x63u8, 0x6fu8, 0x6du8, 0x6du8],
            Label::Beta => seq![0x70u8, 0x6cu8, 0x6fu8, 0x6eu8, 0x6bu8, 0x5fu8, 0x62u8, 0x65u8, 0x74u8, 0x61u8],
            Label::Gamma => seq![0x70u8, 0x6cu8, 0x6fu8, 0x6eu8, 0x6bu8, 0x5fu8, 0x67u8, 0x61u8, 0x6du8, 0x6du8, 0x61u8],
            Label::PermutationCommitment => seq![0x70u8, 0x6cu8, 0x6fu8, 0x6eu8, 0x6bu8, 0x5fu8, 0x70u8, 0x65u8, 0x72u8, 0x6du8, 0x5fu8, 0x63u8, 0x6fu8, 0x6du8, 0x6du8],
            Label::Alpha => seq![0x70u8, 0x6cu8, 0x6fu8, 0x6eu8, 0x6bu8, 0x5fu8, 0x61u8, 0x6cu8, 0x70u8, 0x68u8, 0x61u8],
            Label::QuotientCommitment => seq![0x70u8, 0x6cu8, 0x6fu8, 0x6eu8, 0x6bu8, 0x5fu8, 0x71u8, 0x75u8, 0x6fu8, 0x74u8, 0x69u8, 0x65u8, 0x6eu8, 0x74u8, 0x5fu8, 0x63u8, 0x6fu8, 0x6du8, 0x6du8],
            Label::Zeta => seq![0x70u8, 0x6cu8, 0x6fu8, 0x6eu8, 0x6bu8, 0x5fu8, 0x7au8, 0x65u8, 0x74u8, 0x61u8],
            Label::WireEval => seq![0x70u8, 0x6cu8, 0x6fu8, 0x6eu8, 0x6bu8, 0x5fu8, 0x77u8, 0x69u8, 0x72u8, 0x65u8, 0x5fu8, 0x65u8, 0x76u8, 0x61u8, 0x6cu8],
            Label::PermutationEval => seq![0x70u8, 0x6cu8, 0x6fu8, 0x6eu8, 0x6bu8, 0x5fu8, 0x70u8, 0x65u8, 0x72u8, 0x6du8, 0x5fu8, 0x65u8, 0x76u8, 0x61u8, 0x6cu8],
            Label::SelectorEval => seq![0x70u8, 0x6cu8, 0x6fu8, 0x6eu8, 0x6bu8, 0x5fu8, 0x73u8, 0x65u8, 0x6cu8, 0x65u8, 0x63u8, 0x74u8, 0x6fu8, 0x72u8, 0x5fu8, 0x65u8, 0x76u8, 0x61u8, 0x6cu8],
            Label::V => seq![0x70u8, 0x6cu8, 0x6fu8, 0x6eu8, 0x6bu8, 0x5fu8, 0x76u8],
            Label::OpeningProof => seq![0x70u8, 0x6cu8, 0x6fu8, 0x6eu8, 0x6bu8, 0x5fu8, 0x6fu8, 0x70u8, 0x65u8, 0x6eu8, 0x69u8, 0x6eu8, 0x67u8, 0x5fu8, 0x70u8, 0x72u8, 0x6fu8, 0x6fu8, 0x66u8],
            Label::U => seq![0x70u8, 0x6cu8, 0x6fu8, 0x6eu8, 0x6bu8, 0x5fu8, 0x75u8],
        }
    }

    /// The bytes of the label.
    pub fn bytes(self) -> (out: Vec<u8>)
        ensures
            out@ == self.text(),
    {
        let mut out: Vec<u8> = Vec::new();
        match self {
            Label::Protocol => {
                out.push(0x70u8);
                out.push(0x6cu8);
                out.push(0x6fu8);
                out.push(0x6eu8);
                out.push(0x6bu8);
                out.push(0x5fu8);
                out.push(0x62u8);
                out.push(0x6eu8);
                out.push(0x32u8);
                out.push(0x35u8);
                out.push(0x34u8);
                out.push(0x5fu8);
                out.push(0x76u8);
                out.push(0x31u8);
            },
            Label::VerificationKey => {
                out.push(0x70u8);
                out.push(0x6cu8);
                out.push(0x6fu8);
                out.push(0x6eu8);
                out.push(0x6bu8);
                out.push(0x5fu8);
                out.push(0x76u8);
                out.push(0x6bu8);
            },
            Label::PublicInput => {
                out.push(0x70u8);
                out.push(0x6cu8);
                out.push(0x6fu8);
                out.push(0x6eu8);
                out.push(0x6bu8);
                out.push(0x5fu8);
                out.push(0x70u8);
                out.push(0x75u8);
                out.push(0x62u8);
                out.push(0x6cu8);
                out.push(0x69u8);
                out.push(0x63u8);
                out.push(0x5fu8);
                out.push(0x69u8);
                out.push(0x6eu8);
                out.push(0x70u8);
                out.push(0x75u8);
                out.push(0x74u8);
            },
            Label::WireCommitment => {
                out.push(0x70u8);
                out.push(0x6cu8);
                out.push(0x6fu8);
                out.push(0x6eu8);
                out.push(0x6bu8);
                out.push(0x5fu8);
                out.push(0x77u8);
                out.push(0x69u8);
                out.push(0x72u8);
                out.push(0x65u8);
                out.push(0x5fu8);
                out.push(0x63u8);
                out.push(0x6fu8);
                out.push(0x6du8);
                out.push(0x6du8);
            },
            Label::Beta => {
                out.push(0x70u8);
                out.push(0x6cu8);
                out.push(0x6fu8);
                out.push(0x6eu8);
                out.push(0x6bu8);
                out.push(0x5fu8);
                out.push(0x62u8);
                out.push(0x65u8);
                out.push(0x74u8);
                out.push(0x61u8);
            },
            Label::Gamma => {
                out.push(0x70u8);
                out.push(0x6cu8);
                out.push(0x6fu8);
                out.push(0x6eu8);
                out.push(0x6bu8);
                out.push(0x5fu8);
                out.push(0x67u8);
                out.push(0x61u8);
                out.push(0x6du8);
                out.push(0x6du8);
                out.push(0x61u8);
            },
            Label::PermutationCommitment => {
                out.push(0x70u8);
                out.push(0x6cu8);
                out.push(0x6fu8);
                out.push(0x6eu8);
                out.push(0x6bu8);
                out.push(0x5fu8);
                out.push(0x70u8);
                out.push(0x65u8);
                out.push(0x72u8);
                out.push(0x6du8);
                out.push(0x5fu8);
                out.push(0x63u8);
                out.push(0x6fu8);
                out.push(0x6du8);
                out.push(0x6du8);
            },
            Label::Alpha => {
                out.push(0x70u8);
                out.push(0x6cu8);
                out.push(0x6fu8);
                out.push(0x6eu8);
                out.push(0x6bu8);
                out.push(0x5fu8);
                out.push(0x61u8);
                out.push(0x6cu8);
                out.push(0x70u8);
                out.push(0x68u8);
                out.push(0x61u8);
            },
            Label::QuotientCommitment => {
                out.push(0x70u8);
                out.push(0x6cu8);
                out.push(0x6fu8);
                out.push(0x6eu8);
                out.push(0x6bu8);
                out.push(0x5fu8);
                out.push(0x71u8);
                out.push(0x75u8);
                out.push(0x6fu8);
                out.push(0x74u8);
                out.push(0x69u8);
                out.push(0x65u8);
                out.push(0x6eu8);
                out.push(0x74u8);
                out.push(0x5fu8);
                out.push(0x63u8);
                out.push(0x6fu8);
                out.push(0x6du8);
                out.push(0x6du8);
            },
            Label::Zeta => {
                out.push(0x70u8);
                out.push(0x6cu8);
                out.push(0x6fu8);
                out.push(0x6eu8);
                out.push(0x6bu8);
                out.push(0x5fu8);
                out.push(0x7au8);
                out.push(0x65u8);
                out.push(0x74u8);
                out.push(0x61u8);
            },
            Label::WireEval => {
                out.push(0x70u8);
                out.push(0x6cu8);
                out.push(0x6fu8);
                out.push(0x6eu8);
                out.push(0x6bu8);
                out.push(0x5fu8);
                out.push(0x77u8);
                out.push(0x69u8);
                out.push(0x72u8);
                out.push(0x65u8);
                out.push(0x5fu8);
                out.push(0x65u8);
                out.push(0x76u8);
                out.push(0x61u8);
                out.push(0x6cu8);
            },
            Label::PermutationEval => {
                out.push(0x70u8);
                out.push(0x6cu8);
                out.push(0x6fu8);
                out.push(0x6eu8);
                out.push(0x6bu8);
                out.push(0x5fu8);
                out.push(0x70u8);
                out.push(0x65u8);
                out.push(0x72u8);
                out.push(0x6du8);
                out.push(0x5fu8);
                out.push(0x65u8);
                out.push(0x76u8);
                out.push(0x61u8);
                out.push(0x6cu8);
            },
            Label::SelectorEval => {
                out.push(0x70u8);
                out.push(0x6cu8);
                out.push(0x6fu8);
                out.push(0x6eu8);
                out.push(0x6bu8);
                out.push(0x5fu8);
                out.push(0x73u8);
                out.push(0x65u8);
                out.push(0x6cu8);
                out.push(0x65u8);
                out.push(0x63u8);
                out.push(0x74u8);
                out.push(0x6fu8);
                out.push(0x72u8);
                out.push(0x5fu8);
                out.push(0x65u8);
                out.push(0x76u8);
                out.push(0x61u8);
                out.push(0x6cu8);
            },
            Label::V => {
                out.push(0x70u8);
                out.push(0x6cu8);
                out.push(0x6fu8);
                out.push(0x6eu8);
                out.push(0x6bu8);
                out.push(0x5fu8);
                out.push(0x76u8);
            },
            Label::OpeningProof => {
                out.push(0x70u8);
                out.push(0x6cu8);
                out.push(0x6fu8);
                out.push(0x6eu8);
                out.push(0x6bu8);
                out.push(0x5fu8);
                out.push(0x6fu8);
                out.push(0x70u8);
                out.push(0x65u8);
                out.push(0x6eu8);
                out.push(0x69u8);
                out.push(0x6eu8);
                out.push(0x67u8);
                out.push(0x5fu8);
                out.push(0x70u8);
                out.push(0x72u8);
                out.push(0x6fu8);
                out.push(0x6fu8);
                out.push(0x66u8);
            },
            Label::U => {
                out.push(0x70u8);
                out.push(0x6cu8);
                out.push(0x6fu8);
                out.push(0x6eu8);
                out.push(0x6bu8);
                out.push(0x5fu8);
                out.push(0x75u8);
            },
        }
        assert(out@ =~= self.text());
        out
    }
}

} // verus!
