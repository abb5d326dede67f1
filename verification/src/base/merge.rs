//! What a control element has to offer.
use crate::scalar::Real;
use vstd::prelude::*;

verus! {

/// Elements that can be blended: the affine combination of two of them.
///
/// `a.merge(b, factor)` is `a * (1 - factor) + b * factor`. As with
/// [`Real`](crate::scalar::Real), an implementation promises that the method
/// returns the value its specification function names.
pub trait Merge<R>: Copy {
    /// The blend of `self` and `to` at `factor`.
    spec fn merge_spec(self, to: Self, factor: R) -> Self;

    /// Blend `self` and `to` at `factor`.
    fn merge(self, to: Self, factor: R) -> (r: Self)
        ensures
            r == self.merge_spec(to, factor),
    ;
}

/// Elements that can carry a weight: multiplication and division by a scalar.
pub trait Scale<R>: Copy {
    /// `self * factor`.
    spec fn scale_spec(self, factor: R) -> Self;

    /// `self / divisor`.
    spec fn unscale_spec(self, divisor: R) -> Self;

    /// Multiply by `factor`.
    fn scale(self, factor: R) -> (r: Self)
        ensures
            r == self.scale_spec(factor),
    ;

    /// Divide by `divisor`. Every divisor is answered, zero too.
    fn unscale(self, divisor: R) -> (r: Self)
        ensures
            r == self.unscale_spec(divisor),
    ;
}

/// The law of exact blending: at the factor zero a blend is its first
/// element, and at the factor one its second.
pub open spec fn exact_merge<R: Real, T: Merge<R>>() -> bool {
    &&& forall|a: T, b: T| #[trigger] a.merge_spec(b, R::zero_spec()) == a
    &&& forall|a: T, b: T| #[trigger] a.merge_spec(b, R::one_spec()) == b
}

/// The law of exact scaling: multiplying and dividing by one change
/// nothing.
pub open spec fn exact_scale<R: Real, T: Scale<R>>() -> bool {
    &&& forall|a: T| #[trigger] a.scale_spec(R::one_spec()) == a
    &&& forall|a: T| #[trigger] a.unscale_spec(R::one_spec()) == a
}

} // verus!
