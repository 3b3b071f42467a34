//! The vocabulary shared by polynomial commitment schemes: the interfaces that
//! a concrete scheme implements, and the wrappers that carry a polynomial or a
//! commitment together with its label and bounds through a protocol.
//!
//! The wrappers check nothing. A degree bound that does not fit its polynomial,
//! a label used twice in a batch or a hiding bound that is too small is for
//! the scheme to refuse. What the wrappers do promise is stated in their
//! contracts: every read returns what the value was made with, and a labeled
//! commitment is written as its commitment alone.
//!
//! Commitments and proofs are written as byte vectors here. Handing the bytes
//! to a writer is left to the caller.

pub mod labeled_commitment;
pub mod labeled_polynomial;
pub mod scheme;

pub use ark_poly::univariate::DensePolynomial as Polynomial;
pub use labeled_commitment::{LabeledCommitment, LabeledCommitmentView};
pub use labeled_polynomial::{LabeledPolynomial, LabeledPolynomialView};
pub use scheme::{
    PCCommitment, PCCommitterKey, PCProof, PCRandomness, PCUniversalParams, PCVerifierKey,
};
