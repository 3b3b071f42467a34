//! A commitment together with its label and degree bound.

use crate::scheme::{is_encoding, PCCommitment};
use vstd::prelude::*;

verus! {

/// A commitment along with its label and its degree bound, if it has one.
pub struct LabeledCommitment<C: PCCommitment> {
    label: String,
    commitment: C,
    degree_bound: Option<usize>,
}

/// What a labeled commitment holds.
#[verifier::ext_equal]
pub ghost struct LabeledCommitmentView<C> {
    pub label: Seq<char>,
    pub commitment: C,
    pub degree_bound: Option<usize>,
}

impl<C: PCCommitment> LabeledCommitment<C> {
    /// What this value holds. Contracts write it `self@`.
    pub closed spec fn view(&self) -> LabeledCommitmentView<C> {
        LabeledCommitmentView {
            label: self.label@,
            commitment: self.commitment,
            degree_bound: self.degree_bound,
        }
    }
}

impl<C: PCCommitment> Clone for LabeledCommitment<C> {
    /// The copy carries the same label and degree bound, and a clone of the
    /// commitment.
    fn clone(&self) -> (copy: Self)
        ensures
            copy@.label == self@.label,
            copy@.degree_bound == self@.degree_bound,
            cloned(self@.commitment, copy@.commitment),
    {
        LabeledCommitment {
            label: self.label.clone(),
            commitment: self.commitment.clone(),
            degree_bound: self.degree_bound,
        }
    }
}

impl<C: PCCommitment> LabeledCommitment<C> {
    /// Labels `commitment`. Nothing is checked.
    pub fn new(label: String, commitment: C, degree_bound: Option<usize>) -> (labeled: Self)
        ensures
            labeled@ == (LabeledCommitmentView { label: label@, commitment, degree_bound }),
    {
        LabeledCommitment { label, commitment, degree_bound }
    }

    /// Returns the label.
    pub fn label(&self) -> (label: &str)
        ensures
            label@ == self@.label,
    {
        self.label.as_str()
    }

    /// Returns the commitment.
    pub fn commitment(&self) -> (commitment: &C)
        ensures
            *commitment == self@.commitment,
    {
        &self.commitment
    }

    /// Returns the degree bound, if there is one.
    pub fn degree_bound(&self) -> (bound: Option<usize>)
        ensures
            bound == self@.degree_bound,
    {
        self.degree_bound
    }

    /// Outputs the bytes that the commitment is written as. The label and the
    /// degree bound are not part of them.
    pub fn to_bytes(&self) -> (bytes: Vec<u8>)
        ensures
            is_encoding(self@.commitment, bytes@),
    {
        self.commitment.to_bytes()
    }

    /// Appends to `sink` the bytes that the commitment is written as, and
    /// nothing else: what `sink` held stays in front of them.
    pub fn write(&self, sink: &mut Vec<u8>)
        ensures
            exists|bytes: Seq<u8>|
                #[trigger] is_encoding(self@.commitment, bytes) && final(sink)@ == old(sink)@
                    + bytes,
    {
        let mut bytes = self.to_bytes();
        sink.append(&mut bytes);
    }
}

/// Whatever a labeled commitment is written as, its commitment alone is
/// written as the same bytes: the label and the degree bound leave no trace.
pub proof fn lemma_written_as_commitment<C: PCCommitment>(
    labeled: LabeledCommitment<C>,
    label: Seq<char>,
    commitment: C,
    degree_bound: Option<usize>,
    bytes: Vec<u8>,
)
    requires
        labeled@ == (LabeledCommitmentView { label, commitment, degree_bound }),
        call_ensures(LabeledCommitment::<C>::to_bytes, (&labeled,), bytes),
    ensures
        is_encoding(commitment, bytes@),
{
}

} // verus!
