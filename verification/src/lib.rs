//! `cxns64`: a small, dependency-free complex-number library.
//!
//! The number type itself, `Complex64`, and its arithmetic work on `f64`
//! values and live outside this verified crate. What stands here is
//! - the fused multiply-add interface that the number type implements and
//!   that users may implement for their own types, and
//! - the decisions that the number type takes once each of its two
//!   components has been classified as NaN, infinite or finite: whether the
//!   number is NaN, infinite or finite, and the outcome of the approximate
//!   comparisons.
use vstd::prelude::*;

pub mod class;

pub use class::{approx_eq_outcome, approx_zero_outcome, Classification, FloatKind};

verus! {

/// Fused multiply-add: `self * rhs + acc`, computed as one operation.
///
/// Implementations are expected to compute the product and the sum without an
/// intermediate rounding step where the underlying arithmetic has one.
pub trait MulAdd<Rhs = Self, Acc = Self> {
    /// The type of the combined result.
    type Output;

    /// Returns `self * rhs + acc`.
    fn fma(self, rhs: Rhs, acc: Acc) -> Self::Output;
}

} // verus!
