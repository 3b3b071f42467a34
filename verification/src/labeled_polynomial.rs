//! A polynomial together with its label, its degree bound and its hiding bound.

use ark_ff::Field;
use ark_poly::UVPolynomial;
use std::borrow::Cow;
use vstd::prelude::*;

verus! {

/// A polynomial along with its label, its degree bound, if it has one, and the
/// number of queries that a commitment to it must stay hidden against, if the
/// commitment is to hide it at all.
///
/// The polynomial is either owned by this value or borrowed for `'a`. Every
/// read goes through the view, which does not tell the two apart.
#[derive(Debug)]
#[verifier::reject_recursive_types(P)]
pub struct LabeledPolynomial<'a, P: Clone> {
    label: String,
    polynomial: Cow<'a, P>,
    degree_bound: Option<usize>,
    hiding_bound: Option<usize>,
}

/// What a labeled polynomial holds, whether it owns the polynomial or not.
#[verifier::ext_equal]
pub ghost struct LabeledPolynomialView<P> {
    pub label: Seq<char>,
    pub polynomial: P,
    pub degree_bound: Option<usize>,
    pub hiding_bound: Option<usize>,
}

impl<'a, P: Clone> LabeledPolynomial<'a, P> {
    /// What this value holds. Contracts write it `self@`.
    pub closed spec fn view(&self) -> LabeledPolynomialView<P> {
        LabeledPolynomialView {
            label: self.label@,
            polynomial: match self.polynomial {
                Cow::Owned(polynomial) => polynomial,
                Cow::Borrowed(polynomial) => *polynomial,
            },
            degree_bound: self.degree_bound,
            hiding_bound: self.hiding_bound,
        }
    }
}

/// Calls `ark_poly::Polynomial::evaluate` on `polynomial` with `point`, which
/// for a polynomial in coefficient form returns the sum of its terms at
/// `point`. Nothing is claimed of the value, since the field and its arithmetic
/// are not modelled here: this is believed to return, and no more.
#[verifier::external_body]
fn evaluate_at<F: Field, P: UVPolynomial<F>>(polynomial: &P, point: &F) -> (value: F) {
    polynomial.evaluate(point)
}

/// Holds of every `value` that evaluating `polynomial` at `point` returns.
///
/// Only an evaluation establishes it, so a contract that states it says where
/// a value came from: from this polynomial, at this point.
pub closed spec fn is_evaluation<F: Field, P: UVPolynomial<F>>(
    polynomial: P,
    point: F,
    value: F,
) -> bool {
    call_ensures(evaluate_at::<F, P>, (&polynomial, &point), value)
}

impl<'a, P: Clone> std::ops::Deref for LabeledPolynomial<'a, P> {
    type Target = P;

    /// A labeled polynomial reads as its polynomial.
    fn deref(&self) -> (polynomial: &P)
        ensures
            *polynomial == self@.polynomial,
    {
        self.polynomial()
    }
}

impl<'a, P: Clone> Clone for LabeledPolynomial<'a, P> {
    /// The copy carries the same label and bounds. A borrowed polynomial stays
    /// borrowed; an owned one is cloned.
    fn clone(&self) -> (copy: Self)
        ensures
            copy@.label == self@.label,
            copy@.degree_bound == self@.degree_bound,
            copy@.hiding_bound == self@.hiding_bound,
            copy.owns_polynomial() == self.owns_polynomial(),
            self.owns_polynomial() ==> cloned(self@.polynomial, copy@.polynomial),
            !self.owns_polynomial() ==> copy@.polynomial == self@.polynomial,
    {
        let polynomial = match &self.polynomial {
            Cow::Owned(polynomial) => Cow::Owned(polynomial.clone()),
            Cow::Borrowed(polynomial) => Cow::Borrowed(*polynomial),
        };
        LabeledPolynomial {
            label: self.label.clone(),
            polynomial,
            degree_bound: self.degree_bound,
            hiding_bound: self.hiding_bound,
        }
    }
}

impl<'a, P: Clone> LabeledPolynomial<'a, P> {
    /// Whether this value owns its polynomial, rather than borrowing it.
    pub closed spec fn owns_polynomial(&self) -> bool {
        self.polynomial is Owned
    }

    /// Labels `polynomial` and takes ownership of it. Nothing is checked: the
    /// bounds need not fit the polynomial.
    pub fn new_owned(
        label: String,
        polynomial: P,
        degree_bound: Option<usize>,
        hiding_bound: Option<usize>,
    ) -> (labeled: Self)
        ensures
            labeled.owns_polynomial(),
            labeled@ == (LabeledPolynomialView {
                label: label@,
                polynomial,
                degree_bound,
                hiding_bound,
            }),
    {
        LabeledPolynomial { label, polynomial: Cow::Owned(polynomial), degree_bound, hiding_bound }
    }

    /// Labels a polynomial that stays with its owner. Nothing is checked: the
    /// bounds need not fit the polynomial.
    pub fn new(
        label: String,
        polynomial: &'a P,
        degree_bound: Option<usize>,
        hiding_bound: Option<usize>,
    ) -> (labeled: Self)
        ensures
            !labeled.owns_polynomial(),
            labeled@ == (LabeledPolynomialView {
                label: label@,
                polynomial: *polynomial,
                degree_bound,
                hiding_bound,
            }),
    {
        LabeledPolynomial {
            label,
            polynomial: Cow::Borrowed(polynomial),
            degree_bound,
            hiding_bound,
        }
    }

    /// Returns the label.
    pub fn label(&self) -> (label: &str)
        ensures
            label@ == self@.label,
    {
        self.label.as_str()
    }

    /// Returns the polynomial.
    pub fn polynomial(&self) -> (polynomial: &P)
        ensures
            *polynomial == self@.polynomial,
    {
        match &self.polynomial {
            Cow::Owned(polynomial) => polynomial,
            Cow::Borrowed(polynomial) => polynomial,
        }
    }

    /// Evaluates the polynomial at `point`.
    pub fn evaluate<F: Field>(&self, point: F) -> (value: F) where P: UVPolynomial<F>
        ensures
            is_evaluation(self@.polynomial, point, value),
    {
        evaluate_at(self.polynomial(), &point)
    }

    /// Returns the degree bound, if there is one.
    pub fn degree_bound(&self) -> (bound: Option<usize>)
        ensures
            bound == self@.degree_bound,
    {
        self.degree_bound
    }

    /// Returns whether a commitment to the polynomial is to hide it, which is
    /// the case exactly when there is a hiding bound.
    pub fn is_hiding(&self) -> (hiding: bool)
        ensures
            hiding == self@.hiding_bound.is_some(),
    {
        self.hiding_bound.is_some()
    }

    /// Returns the hiding bound, if there is one.
    pub fn hiding_bound(&self) -> (bound: Option<usize>)
        ensures
            bound == self@.hiding_bound,
    {
        self.hiding_bound
    }
}

/// The label is read back as it was given: whatever `label` returns on a
/// labeled polynomial is the string that it was made with.
pub proof fn lemma_label_is_kept<'a, P: Clone>(
    labeled: LabeledPolynomial<'a, P>,
    label: Seq<char>,
    text: &str,
)
    requires
        labeled@.label == label,
        call_ensures(LabeledPolynomial::<'a, P>::label, (&labeled,), text),
    ensures
        text@ == label,
{
}

/// Labeling a polynomial does not change what it evaluates to: whatever
/// `evaluate` returns on a labeled polynomial is an evaluation of the polynomial
/// that it was made from, at the same point.
pub proof fn lemma_labeling_keeps_evaluation<'a, F: Field, P: UVPolynomial<F>>(
    labeled: LabeledPolynomial<'a, P>,
    polynomial: P,
    point: F,
    value: F,
)
    requires
        labeled@.polynomial == polynomial,
        call_ensures(LabeledPolynomial::<'a, P>::evaluate::<F>, (&labeled, point), value),
    ensures
        is_evaluation(polynomial, point, value),
{
}

/// A labeled polynomial is hiding exactly when it has a hiding bound: what
/// `is_hiding` returns is `true` if and only if what `hiding_bound` returns is
/// not `None`.
pub proof fn lemma_hiding_iff_hiding_bound<'a, P: Clone>(
    labeled: LabeledPolynomial<'a, P>,
    hiding: bool,
    bound: Option<usize>,
)
    requires
        call_ensures(LabeledPolynomial::<'a, P>::is_hiding, (&labeled,), hiding),
        call_ensures(LabeledPolynomial::<'a, P>::hiding_bound, (&labeled,), bound),
    ensures
        hiding <==> bound.is_some(),
{
}

/// An owned and a borrowed labeling of the same polynomial, with the same
/// label and the same bounds, cannot be told apart by what they hold: they have
/// the same view, and every read is stated over the view alone.
pub proof fn lemma_storage_is_not_observable<'a, 'b, P: Clone>(
    owned: LabeledPolynomial<'a, P>,
    borrowed: LabeledPolynomial<'b, P>,
)
    requires
        owned.owns_polynomial(),
        !borrowed.owns_polynomial(),
        owned@.label == borrowed@.label,
        owned@.polynomial == borrowed@.polynomial,
        owned@.degree_bound == borrowed@.degree_bound,
        owned@.hiding_bound == borrowed@.hiding_bound,
    ensures
        owned@ == borrowed@,
{
}

} // verus!
