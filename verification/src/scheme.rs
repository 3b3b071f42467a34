//! The interfaces that every polynomial commitment scheme provides.
//!
//! The traits are ordinary Rust traits, so that a scheme can implement them
//! without proving anything. Where a method owes its callers something, its
//! contract says so over what the other methods return.

use rand_core::RngCore;
use std::fmt::Debug;
use vstd::prelude::*;

verus! {

/// The public parameters of a polynomial commitment scheme.
pub trait PCUniversalParams: Clone + Debug {
    /// Outputs the largest degree that these parameters support.
    fn max_degree(&self) -> usize;
}

/// A committer key, derived from universal parameters and possibly trimmed to
/// a smaller degree.
pub trait PCCommitterKey: Clone + Debug {
    /// Outputs the largest degree supported by the universal parameters that
    /// this key was derived from.
    fn max_degree(&self) -> usize;

    /// Outputs the largest degree that this key supports, which never exceeds
    /// what `max_degree` returns.
    fn supported_degree(&self) -> (degree: usize)
        ensures
            forall|limit: usize| call_ensures(Self::max_degree, (self,), limit) ==> degree <= limit,
    ;
}

/// A verifier key, derived from universal parameters and possibly trimmed to
/// a smaller degree.
pub trait PCVerifierKey: Clone + Debug {
    /// Outputs the largest degree supported by the universal parameters that
    /// this key was derived from.
    fn max_degree(&self) -> usize;

    /// Outputs the largest degree that this key supports, which never exceeds
    /// what `max_degree` returns.
    fn supported_degree(&self) -> (degree: usize)
        ensures
            forall|limit: usize| call_ensures(Self::max_degree, (self,), limit) ==> degree <= limit,
    ;
}

/// A commitment to a polynomial.
pub trait PCCommitment: Clone {
    /// Outputs a non-hiding commitment to the zero polynomial.
    fn empty() -> Self;

    /// Does this commitment have a degree bound? One that `empty` returned has
    /// none.
    fn has_degree_bound(&self) -> (bounded: bool)
        ensures
            call_ensures(Self::empty, (), *self) ==> !bounded,
    ;

    /// Size in bytes.
    fn size_in_bytes(&self) -> usize;

    /// Outputs the bytes that this commitment is written as.
    fn to_bytes(&self) -> Vec<u8>;
}

/// The randomness that hides a commitment.
pub trait PCRandomness: Clone {
    /// Outputs empty randomness, which does not hide the commitment.
    fn empty() -> Self;

    /// Samples randomness for a commitment that will be opened at
    /// `num_queries` points.
    fn rand<R: RngCore>(num_queries: usize, rng: &mut R) -> Self;
}

/// A proof that a committed polynomial takes a claimed value at a point.
pub trait PCProof: Clone {
    /// Size in bytes.
    fn size_in_bytes(&self) -> usize;

    /// Outputs the bytes that this proof is written as.
    fn to_bytes(&self) -> Vec<u8>;
}

/// Holds of every byte string that `commitment` may be written as.
pub open spec fn is_encoding<C: PCCommitment>(commitment: C, bytes: Seq<u8>) -> bool {
    exists|written: Vec<u8>|
        written@ == bytes && #[trigger] call_ensures(C::to_bytes, (&commitment,), written)
}

/// The empty commitment of a scheme never reports a degree bound: whatever
/// `empty` returns, `has_degree_bound` answers `false` on it.
pub proof fn lemma_empty_has_no_degree_bound<C: PCCommitment>(commitment: C, bounded: bool)
    requires
        call_ensures(C::empty, (), commitment),
        call_ensures(C::has_degree_bound, (&commitment,), bounded),
    ensures
        !bounded,
{
}

} // verus!
