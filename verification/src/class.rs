//! Classification of a complex number by its components, and the decisions
//! taken on it.
//!
//! Each component of a complex number is NaN, infinite or finite. A number is
//! NaN when either component is NaN; it is infinite when it is not NaN and
//! either component is infinite; it is finite when both components are finite.
//! The approximate comparisons reject NaN and non-finite operands before any
//! tolerance is looked at, and accept exactly equal operands outright.
use vstd::prelude::*;

verus! {

/// The class of one floating-point component.
#[derive(Clone, Copy, Debug, PartialEq, Eq, Structural)]
pub enum FloatKind {
    /// Not a number.
    Nan,
    /// Positive or negative infinity.
    Infinite,
    /// Any other value, zero and subnormals included.
    Finite,
}

/// The classes of the real and the imaginary component of a complex number.
#[derive(Clone, Copy, Debug, PartialEq, Eq, Structural)]
pub struct Classification {
    /// Class of the real part.
    pub re: FloatKind,
    /// Class of the imaginary part.
    pub im: FloatKind,
}

impl Classification {
    /// The number is NaN: at least one component is NaN.
    pub open spec fn nan_class(self) -> bool {
        self.re is Nan || self.im is Nan
    }

    /// The number is infinite: it is not NaN, and a component is infinite.
    pub open spec fn infinite_class(self) -> bool {
        !self.nan_class() && (self.re is Infinite || self.im is Infinite)
    }

    /// The number is finite: both components are finite.
    pub open spec fn finite_class(self) -> bool {
        self.re is Finite && self.im is Finite
    }

    /// Builds the classification from the classes of the two components.
    pub fn new(re: FloatKind, im: FloatKind) -> (c: Classification)
        ensures
            c.re == re,
            c.im == im,
    {
        Classification { re, im }
    }

    /// Whether the number is NaN.
    pub fn is_nan(&self) -> (r: bool)
        ensures
            r == self.nan_class(),
            r == (self.re == FloatKind::Nan || self.im == FloatKind::Nan),
    {
        self.re == FloatKind::Nan || self.im == FloatKind::Nan
    }

    /// Whether the number is infinite (and not NaN).
    pub fn is_infinite(&self) -> (r: bool)
        ensures
            r == self.infinite_class(),
            r == (self.re != FloatKind::Nan && self.im != FloatKind::Nan && (self.re
                == FloatKind::Infinite || self.im == FloatKind::Infinite)),
    {
        !self.is_nan() && (self.re == FloatKind::Infinite || self.im == FloatKind::Infinite)
    }

    /// Whether the number is finite.
    pub fn is_finite(&self) -> (r: bool)
        ensures
            r == self.finite_class(),
            r == (self.re == FloatKind::Finite && self.im == FloatKind::Finite),
    {
        self.re == FloatKind::Finite && self.im == FloatKind::Finite
    }
}

/// The outcome of an approximate equality test, from the classes of the two
/// operands, whether they are exactly equal componentwise, and whether each
/// component difference lies within its tolerance.
pub open spec fn approx_eq_spec(
    lhs: Classification,
    rhs: Classification,
    exactly_equal: bool,
    within_tolerance: bool,
) -> bool {
    if lhs.nan_class() || rhs.nan_class() {
        false
    } else if exactly_equal {
        true
    } else if !lhs.finite_class() || !rhs.finite_class() {
        false
    } else {
        within_tolerance
    }
}

/// The outcome of an approximate comparison against zero, from the class of
/// the number and whether both components lie within the absolute tolerance.
pub open spec fn approx_zero_spec(c: Classification, within_tolerance: bool) -> bool {
    if c.nan_class() {
        false
    } else if !c.finite_class() {
        false
    } else {
        within_tolerance
    }
}

/// Decides an approximate equality test: NaN operands are never equal, exactly
/// equal operands always are, non-finite operands that are not exactly equal
/// are not, and finite operands are equal when both component differences lie
/// within tolerance.
pub fn approx_eq_outcome(
    lhs: Classification,
    rhs: Classification,
    exactly_equal: bool,
    within_tolerance: bool,
) -> (r: bool)
    ensures
        r == approx_eq_spec(lhs, rhs, exactly_equal, within_tolerance),
        r == (!lhs.nan_class() && !rhs.nan_class() && (exactly_equal || (lhs.finite_class()
            && rhs.finite_class() && within_tolerance))),
        r == (lhs.re != FloatKind::Nan && lhs.im != FloatKind::Nan && rhs.re != FloatKind::Nan
            && rhs.im != FloatKind::Nan && (exactly_equal || (lhs.re == FloatKind::Finite
            && lhs.im == FloatKind::Finite && rhs.re == FloatKind::Finite && rhs.im
            == FloatKind::Finite && within_tolerance))),
{
    if lhs.is_nan() || rhs.is_nan() {
        return false;
    }
    if exactly_equal {
        return true;
    }
    if !lhs.is_finite() || !rhs.is_finite() {
        return false;
    }
    within_tolerance
}

/// Decides an approximate comparison against zero: NaN and non-finite numbers
/// are never near zero; a finite number is when both components lie within
/// the tolerance.
pub fn approx_zero_outcome(c: Classification, within_tolerance: bool) -> (r: bool)
    ensures
        r == approx_zero_spec(c, within_tolerance),
        r == (c.finite_class() && within_tolerance),
        r == (c.re == FloatKind::Finite && c.im == FloatKind::Finite && within_tolerance),
{
    if c.is_nan() {
        return false;
    }
    if !c.is_finite() {
        return false;
    }
    within_tolerance
}

/// A number is NaN exactly when one of its components, either one, is NaN,
/// whatever the other component is.
pub proof fn lemma_nan_exactly_when_a_component_is_nan(c: Classification)
    ensures
        c.re == FloatKind::Nan ==> c.nan_class(),
        c.im == FloatKind::Nan ==> c.nan_class(),
        c.re != FloatKind::Nan && c.im != FloatKind::Nan ==> !c.nan_class(),
{
}

/// A number is infinite exactly when neither component is NaN and one of them
/// is infinite: a NaN component, on either side, rules infinity out.
pub proof fn lemma_infinite_exactly_when_infinite_without_nan(c: Classification)
    ensures
        c.re == FloatKind::Nan ==> !c.infinite_class(),
        c.im == FloatKind::Nan ==> !c.infinite_class(),
        c.re == FloatKind::Finite && c.im == FloatKind::Finite ==> !c.infinite_class(),
        c.re == FloatKind::Infinite && c.im != FloatKind::Nan ==> c.infinite_class(),
        c.im == FloatKind::Infinite && c.re != FloatKind::Nan ==> c.infinite_class(),
{
}

/// A number is finite exactly when both components are finite: a NaN or an
/// infinite component, on either side, rules finiteness out.
pub proof fn lemma_finite_exactly_when_both_finite(c: Classification)
    ensures
        c.re == FloatKind::Finite && c.im == FloatKind::Finite ==> c.finite_class(),
        c.re != FloatKind::Finite ==> !c.finite_class(),
        c.im != FloatKind::Finite ==> !c.finite_class(),
{
}

/// Every complex number is exactly one of NaN, infinite and finite.
pub proof fn lemma_class_trichotomy(c: Classification)
    ensures
        c.nan_class() || c.infinite_class() || c.finite_class(),
        !(c.nan_class() && c.infinite_class()),
        !(c.nan_class() && c.finite_class()),
        !(c.infinite_class() && c.finite_class()),
{
}

/// A NaN operand, on either side, is never approximately equal to anything,
/// itself included.
pub proof fn lemma_approx_eq_nan_never_equal(
    lhs: Classification,
    rhs: Classification,
    exactly_equal: bool,
    within_tolerance: bool,
)
    requires
        lhs.nan_class() || rhs.nan_class(),
    ensures
        !approx_eq_spec(lhs, rhs, exactly_equal, within_tolerance),
{
}

/// Operands that are exactly equal and not NaN are approximately equal,
/// infinities included, whatever the tolerances.
pub proof fn lemma_approx_eq_exact_implies_equal(
    lhs: Classification,
    rhs: Classification,
    within_tolerance: bool,
)
    requires
        !lhs.nan_class(),
        !rhs.nan_class(),
    ensures
        approx_eq_spec(lhs, rhs, true, within_tolerance),
{
}

/// Operands that are not exactly equal, one of them infinite, are never
/// approximately equal.
pub proof fn lemma_approx_eq_infinite_needs_exact(
    lhs: Classification,
    rhs: Classification,
    within_tolerance: bool,
)
    requires
        lhs.infinite_class() || rhs.infinite_class(),
    ensures
        !approx_eq_spec(lhs, rhs, false, within_tolerance),
{
}

/// The decision of approximate equality does not depend on the order of the
/// operands: swapping them, with the same exact-equality and tolerance
/// findings, gives the same outcome.
pub proof fn lemma_approx_eq_symmetric(
    lhs: Classification,
    rhs: Classification,
    exactly_equal: bool,
    within_tolerance: bool,
)
    ensures
        approx_eq_spec(lhs, rhs, exactly_equal, within_tolerance) == approx_eq_spec(
            rhs,
            lhs,
            exactly_equal,
            within_tolerance,
        ),
{
}

/// Only a finite number can be approximately zero, and a finite number is
/// exactly when its components lie within the tolerance.
pub proof fn lemma_approx_zero_only_finite(c: Classification, within_tolerance: bool)
    ensures
        approx_zero_spec(c, within_tolerance) <==> (c.finite_class() && within_tolerance),
        c.nan_class() ==> !approx_zero_spec(c, within_tolerance),
        c.infinite_class() ==> !approx_zero_spec(c, within_tolerance),
{
}

} // verus!
