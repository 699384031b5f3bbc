//! The Fiat-Shamir transcript.
//!
//! The transcript is the byte string of everything absorbed so far, hashed
//! with Keccak-256. A challenge is the digest of that string and the
//! challenge's label, read as a big-endian number and reduced into the
//! scalar field; the digest is then absorbed in turn, so that every later
//! challenge depends on every earlier one. Identical messages in identical
//! order give identical challenges, and nothing else does by design.

use crate::bytes::{append_bytes, append_le, be_value, le_bytes};
use crate::curve::G1Point;
use crate::field::{fr, fr_reduce, lemma_scalar_of_value, scalar_of, Scalar};
use crate::hash::{keccak256, spec_keccak256};
use vstd::prelude::*;

verus! {

/// The transcript after a labelled message.
pub open spec fn absorbed_message(state: Seq<u8>, label: Seq<u8>, data: Seq<u8>) -> Seq<u8> {
    state + label + data
}

/// The transcript after a labelled message of open length: the length
/// comes before the data, in eight little-endian bytes.
pub open spec fn absorbed_framed(state: Seq<u8>, label: Seq<u8>, data: Seq<u8>) -> Seq<u8> {
    state + label + le_bytes(data.len(), 8) + data
}

/// The digest that a challenge is made of.
pub open spec fn squeezed_digest(state: Seq<u8>, label: Seq<u8>) -> Seq<u8> {
    spec_keccak256(state + label)
}

/// The challenge that a transcript gives under a label.
pub open spec fn challenge_spec(state: Seq<u8>, label: Seq<u8>) -> Scalar {
    scalar_of(fr(be_value(squeezed_digest(state, label)) as int))
}

/// The transcript after a challenge was taken under a label.
pub open spec fn after_challenge(state: Seq<u8>, label: Seq<u8>) -> Seq<u8> {
    state + squeezed_digest(state, label)
}

/// The points of a list, each as `x ‖ y`.
pub open spec fn points_encoding(points: Seq<G1Point>, n: nat) -> Seq<u8>
    decreases n,
{
    if n == 0 {
        Seq::empty()
    } else {
        points_encoding(points, (n - 1) as nat) + points[n - 1].encoding()
    }
}

/// The label of the `i`-th of several challenges: the label and `i` in eight
/// little-endian bytes.
pub open spec fn indexed_label(label: Seq<u8>, i: nat) -> Seq<u8> {
    label + le_bytes(i, 8)
}

/// The transcript after `n` challenges were taken under indexed labels.
pub open spec fn after_challenges(state: Seq<u8>, label: Seq<u8>, n: nat) -> Seq<u8>
    decreases n,
{
    if n == 0 {
        state
    } else {
        after_challenge(
            after_challenges(state, label, (n - 1) as nat),
            indexed_label(label, (n - 1) as nat),
        )
    }
}

/// A Fiat-Shamir transcript.
pub struct Transcript {
    /// Everything absorbed so far.
    state: Vec<u8>,
    /// The label that the transcript started with.
    domain_label: Vec<u8>,
}

impl Transcript {
    /// Everything absorbed so far, the domain label first.
    pub closed spec fn absorbed(&self) -> Seq<u8> {
        self.state@
    }

    /// The label that the transcript started with.
    pub closed spec fn domain(&self) -> Seq<u8> {
        self.domain_label@
    }

    /// A transcript that has absorbed its domain label.
    pub fn new(label: &[u8]) -> (transcript: Transcript)
        ensures
            transcript.absorbed() == label@,
            transcript.domain() == label@,
    {
        let mut state: Vec<u8> = Vec::new();
        append_bytes(&mut state, label);
        let mut domain_label: Vec<u8> = Vec::new();
        append_bytes(&mut domain_label, label);
        assert(state@ =~= label@);
        assert(domain_label@ =~= label@);
        Transcript { state, domain_label }
    }

    /// Absorbs a scalar: the label, then the 32 bytes of the scalar.
    pub fn absorb_field(&mut self, label: &[u8], element: &Scalar)
        ensures
            final(self).absorbed() == absorbed_message(old(self).absorbed(), label@, element.bytes@),
            final(self).domain() == old(self).domain(),
    {
        append_bytes(&mut self.state, label);
        append_bytes(&mut self.state, element.bytes.as_slice());
    }

    /// Absorbs a point: the label, then `x ‖ y`.
    pub fn absorb_point(&mut self, label: &[u8], point: &G1Point)
        ensures
            final(self).absorbed() == absorbed_message(
                old(self).absorbed(),
                label@,
                point.encoding(),
            ),
            final(self).domain() == old(self).domain(),
    {
        append_bytes(&mut self.state, label);
        point.write(&mut self.state);
        assert(self.state@ =~= absorbed_message(old(self).state@, label@, point.encoding()));
    }

    /// Absorbs a list of points: the label, the count in eight little-endian
    /// bytes, then each point.
    pub fn absorb_points(&mut self, label: &[u8], points: &[G1Point])
        ensures
            final(self).absorbed() == old(self).absorbed() + label@ + le_bytes(points@.len(), 8)
                + points_encoding(points@, points@.len()),
            final(self).domain() == old(self).domain(),
    {
        append_bytes(&mut self.state, label);
        append_le(&mut self.state, points.len() as u128, 8);
        let ghost head = self.state@;
        let mut i: usize = 0;
        assert(head + points_encoding(points@, 0) =~= head);
        while i < points.len()
            invariant
                i <= points@.len(),
                self.state@ == head + points_encoding(points@, i as nat),
                self.domain_label@ == old(self).domain_label@,
            decreases points@.len() - i,
        {
            let ghost before = self.state@;
            points[i].write(&mut self.state);
            assert(before + points@[i as int].encoding() =~= head + points_encoding(
                points@,
                (i + 1) as nat,
            ));
            i = i + 1;
        }
    }

    /// Absorbs bytes: the label, the length in eight little-endian bytes,
    /// then the bytes.
    pub fn absorb_bytes(&mut self, label: &[u8], data: &[u8])
        ensures
            final(self).absorbed() == absorbed_framed(old(self).absorbed(), label@, data@),
            final(self).domain() == old(self).domain(),
    {
        append_bytes(&mut self.state, label);
        append_le(&mut self.state, data.len() as u128, 8);
        append_bytes(&mut self.state, data);
    }

    /// Takes a challenge: the digest of the transcript and the label,
    /// reduced into the field. The digest is absorbed.
    pub fn squeeze_challenge(&mut self, label: &[u8]) -> (challenge: Scalar)
        ensures
            challenge == challenge_spec(old(self).absorbed(), label@),
            final(self).absorbed() == after_challenge(old(self).absorbed(), label@),
            final(self).domain() == old(self).domain(),
    {
        let mut input: Vec<u8> = Vec::new();
        append_bytes(&mut input, self.state.as_slice());
        append_bytes(&mut input, label);
        assert(input@ =~= self.state@ + label@);
        let digest = keccak256(input.as_slice());
        let challenge = fr_reduce(Scalar::from_be_bytes(digest));
        append_bytes(&mut self.state, digest.as_slice());
        proof {
            lemma_scalar_of_value(challenge);
        }
        challenge
    }

    /// Takes `count` challenges, the `i`-th under the label followed by `i`
    /// in eight little-endian bytes.
    pub fn squeeze_challenges(&mut self, label: &[u8], count: usize) -> (challenges: Vec<Scalar>)
        ensures
            challenges@.len() == count,
            forall|i: int|
                0 <= i < count ==> #[trigger] challenges@[i] == challenge_spec(
                    after_challenges(old(self).absorbed(), label@, i as nat),
                    indexed_label(label@, i as nat),
                ),
            final(self).absorbed() == after_challenges(old(self).absorbed(), label@, count as nat),
            final(self).domain() == old(self).domain(),
    {
        let mut challenges: Vec<Scalar> = Vec::new();
        let mut i: usize = 0;
        while i < count
            invariant
                i <= count,
                challenges@.len() == i,
                self.domain_label@ == old(self).domain_label@,
                self.state@ == after_challenges(old(self).state@, label@, i as nat),
                forall|k: int|
                    0 <= k < i ==> #[trigger] challenges@[k] == challenge_spec(
                        after_challenges(old(self).state@, label@, k as nat),
                        indexed_label(label@, k as nat),
                    ),
            decreases count - i,
        {
            let mut challenge_label: Vec<u8> = Vec::new();
            append_bytes(&mut challenge_label, label);
            append_le(&mut challenge_label, i as u128, 8);
            assert(challenge_label@ =~= indexed_label(label@, i as nat));
            let challenge = self.squeeze_challenge(challenge_label.as_slice());
            challenges.push(challenge);
            i = i + 1;
        }
        challenges
    }

    /// Forgets everything but the domain label.
    pub fn reset(&mut self)
        ensures
            final(self).absorbed() == old(self).domain(),
            final(self).domain() == old(self).domain(),
    {
        let mut state: Vec<u8> = Vec::new();
        append_bytes(&mut state, self.domain_label.as_slice());
        assert(state@ =~= self.domain_label@);
        self.state = state;
    }
}

/// Transcripts that have absorbed the same bytes give the same challenge
/// under the same label, and have absorbed the same bytes afterwards.
pub proof fn lemma_transcript_deterministic(a: Transcript, b: Transcript, label: Seq<u8>)
    requires
        a.absorbed() == b.absorbed(),
    ensures
        challenge_spec(a.absorbed(), label) == challenge_spec(b.absorbed(), label),
        after_challenge(a.absorbed(), label) == after_challenge(b.absorbed(), label),
{
}

} // verus!
