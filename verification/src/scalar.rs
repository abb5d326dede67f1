//! Scalars: the numbers that knots, curve parameters and weights are made of.
//!
//! The library never looks inside a scalar. Every operation is a method of
//! [`Real`], and each method comes with a specification function of the same
//! name that stands for the value the operation yields. Contracts throughout
//! the crate are written over those specification functions, so they hold for
//! any arithmetic, rounding or not, as long as an operation is a function of
//! its operands.
//!
//! [`Fixed`](crate::fixed::Fixed) is the scalar that comes with the library.
//! Other scalars, floating point among them, are implemented where they are
//! needed. Compiled without the verifier, a specification function is an
//! ordinary method that nothing calls: an implementation written in plain
//! Rust gives it a body that panics.
use vstd::prelude::*;

verus! {

/// A scalar type.
///
/// An implementation promises that every operation is deterministic: the
/// executable method returns exactly the value that its specification
/// function names. Nothing else is asked of the arithmetic; the laws that
/// an order and exact arithmetic would add are separate predicates
/// ([`ordered`], [`exact_quotients`], [`exact_unit`]) that individual
/// theorems take as hypotheses.
pub trait Real: Copy {
    /// The additive identity.
    spec fn zero_spec() -> Self;

    /// The multiplicative identity.
    spec fn one_spec() -> Self;

    /// The scalar that stands for the count `n`.
    spec fn from_usize_spec(n: usize) -> Self;

    /// `self + rhs`.
    spec fn plus_spec(self, rhs: Self) -> Self;

    /// `self - rhs`.
    spec fn minus_spec(self, rhs: Self) -> Self;

    /// `self * rhs`.
    spec fn times_spec(self, rhs: Self) -> Self;

    /// `self / rhs`.
    spec fn over_spec(self, rhs: Self) -> Self;

    /// Whether `self` is strictly less than `rhs`.
    spec fn lt_spec(self, rhs: Self) -> bool;

    /// Whether `self` counts as zero when it is about to be divided by.
    spec fn is_zero_spec(self) -> bool;

    /// The additive identity.
    fn zero() -> (r: Self)
        ensures
            r == Self::zero_spec(),
    ;

    /// The multiplicative identity.
    fn one() -> (r: Self)
        ensures
            r == Self::one_spec(),
    ;

    /// The scalar that stands for the count `n`.
    fn from_usize(n: usize) -> (r: Self)
        ensures
            r == Self::from_usize_spec(n),
    ;

    /// `self + rhs`.
    fn plus(self, rhs: Self) -> (r: Self)
        ensures
            r == self.plus_spec(rhs),
    ;

    /// `self - rhs`.
    fn minus(self, rhs: Self) -> (r: Self)
        ensures
            r == self.minus_spec(rhs),
    ;

    /// `self * rhs`.
    fn times(self, rhs: Self) -> (r: Self)
        ensures
            r == self.times_spec(rhs),
    ;

    /// `self / rhs`. Every divisor is answered, zero too.
    fn over(self, rhs: Self) -> (r: Self)
        ensures
            r == self.over_spec(rhs),
    ;

    /// Whether `self` is strictly less than `rhs`.
    fn lt(self, rhs: Self) -> (b: bool)
        ensures
            b == self.lt_spec(rhs),
    ;

    /// Whether `self` counts as zero when it is about to be divided by.
    fn is_zero(self) -> (b: bool)
        ensures
            b == self.is_zero_spec(),
    ;
}

/// The affine combination `a * (1 - factor) + b * factor` of two scalars.
pub open spec fn lerp_spec<R: Real>(a: R, b: R, factor: R) -> R {
    a.times_spec(R::one_spec().minus_spec(factor)).plus_spec(b.times_spec(factor))
}

/// Blend two scalars: `a * (1 - factor) + b * factor`.
pub fn lerp<R: Real>(a: R, b: R, factor: R) -> (r: R)
    ensures
        r == lerp_spec(a, b, factor),
{
    a.times(R::one().minus(factor)).plus(b.times(factor))
}

/// `t` moved into the interval `[low, high]`: `low` where `t < low`,
/// otherwise `high` where `high < t`, otherwise `t` itself.
pub open spec fn clamp_spec<R: Real>(t: R, low: R, high: R) -> R {
    if t.lt_spec(low) {
        low
    } else if high.lt_spec(t) {
        high
    } else {
        t
    }
}

/// Move `t` into `[low, high]`.
pub fn clamp<R: Real>(t: R, low: R, high: R) -> (r: R)
    ensures
        r == clamp_spec(t, low, high),
{
    if t.lt(low) {
        low
    } else if high.lt(t) {
        high
    } else {
        t
    }
}

/// The laws of exact arithmetic on which the theorems about the ends of a
/// curve rest:
///
/// - `x - x` is zero;
/// - zero divided by anything but zero is zero;
/// - anything but zero divided by itself is one.
///
/// Arithmetic without rounding obeys them. Floating point obeys them on
/// finite numbers, and not on infinities or NaN.
pub open spec fn exact_quotients<R: Real>() -> bool {
    &&& forall|x: R| #[trigger] x.minus_spec(x) == R::zero_spec()
    &&& forall|x: R| !x.is_zero_spec() ==> #[trigger] R::zero_spec().over_spec(x) == R::zero_spec()
    &&& forall|x: R| !x.is_zero_spec() ==> #[trigger] x.over_spec(x) == R::one_spec()
}

/// The laws of exact arithmetic on which the theorem about weights of one
/// rests:
///
/// - one is not zero;
/// - any affine combination of one and one is one.
pub open spec fn exact_unit<R: Real>() -> bool {
    &&& !R::one_spec().is_zero_spec()
    &&& forall|factor: R| #[trigger]
        lerp_spec(R::one_spec(), R::one_spec(), factor) == R::one_spec()
}

/// The laws of an order: nothing is less than itself, and with `<=` for
/// "not greater",
///
/// - `a <= b` and `b <= c` give `a <= c`;
/// - `a < b` and `b <= c` give `a < c`.
///
/// Numbers obey them. So does floating point as long as NaN stays away.
pub open spec fn ordered<R: Real>() -> bool {
    &&& forall|a: R| !#[trigger] a.lt_spec(a)
    &&& forall|a: R, b: R, c: R|
        !#[trigger] b.lt_spec(a) && !#[trigger] c.lt_spec(b) ==> !c.lt_spec(a)
    &&& forall|a: R, b: R, c: R| #[trigger]
        a.lt_spec(b) && !#[trigger] c.lt_spec(b) ==> a.lt_spec(c)
}

} // verus!
