//! Parametric B-spline curves over any element type that can be blended.
//!
//! A curve is made of control elements, a knot sequence and a workspace, and
//! is put together by a [`BSplineBuilder`](bspline::builder::BSplineBuilder)
//! under one of three boundary modes: open, clamped or legacy. It maps a
//! scalar parameter to an element by De Boor's algorithm; with weights it is
//! a rational curve.
//!
//! Elements and scalars are whatever implements [`Merge`] and [`Real`]. The
//! library states what a curve computes in terms of the operations of those
//! traits, and proves that it computes just that: see
//! [`gen_spec`](Generator::gen_spec) and [`bspline::laws`].
//!
//! ```text
//! scalar      scalars and the laws theorems may ask of them
//! fixed       the scalar that comes with the library: fixed point
//! base        elements, generators and curves, workspaces
//! weights     homogeneous coordinates for rational curves
//! bspline     the curve, its knots, its builders, its errors, its laws
//! builder     markers for the steps of a builder
//! ```
pub mod base;
pub mod bspline;
pub mod builder;
pub mod fixed;
pub mod scalar;
pub mod weights;

pub use crate::base::generator::{Curve, Generator, Interpolation};
pub use crate::base::merge::{Merge, Scale};
pub use crate::base::space::{ConstSpace, DynSpace, Space};
pub use crate::bspline::builder::{BSplineBuilder, BSplineDirector};
pub use crate::bspline::error::{BSplineError, NotSorted};
pub use crate::bspline::BSpline;
pub use crate::fixed::Fixed;
pub use crate::scalar::Real;
pub use crate::weights::Homogeneous;

use vstd::prelude::*;

verus! {

/// Two interpolations chained together to one: the output of the first is
/// the input of the second.
#[derive(Debug)]
pub struct Chain<A, B> {
    first: A,
    second: B,
}

impl<A: Clone, B: Clone> Clone for Chain<A, B> {
    fn clone(&self) -> (chain: Self)
        ensures
            cloned(self.first_spec(), chain.first_spec()),
            cloned(self.second_spec(), chain.second_spec()),
    {
        Chain { first: self.first.clone(), second: self.second.clone() }
    }
}

impl<A, B> Chain<A, B> {
    /// The interpolation that is asked first.
    pub closed spec fn first_spec(&self) -> A {
        self.first
    }

    /// The interpolation that is asked second.
    pub closed spec fn second_spec(&self) -> B {
        self.second
    }

    /// Chain `first` and `second`.
    pub fn new(first: A, second: B) -> (chain: Self)
        ensures
            chain.first_spec() == first,
            chain.second_spec() == second,
    {
        Chain { first, second }
    }
}

impl<A, B, T> Generator<T> for Chain<A, B> where A: Interpolation<T>, B: Interpolation<A::Output> {
    type Output = B::Output;

    open spec fn gen_spec(&self, scalar: T) -> B::Output {
        self.second_spec().gen_spec(self.first_spec().gen_spec(scalar))
    }

    fn gen(&self, scalar: T) -> (output: B::Output) {
        self.second.gen(self.first.gen(scalar))
    }
}

impl<A, B, T> Interpolation<T> for Chain<A, B> where
    A: Interpolation<T>,
    B: Interpolation<A::Output>,
 {

}

impl<A, B, R: Real> Curve<R> for Chain<A, B> where A: Curve<R>, B: Interpolation<A::Output> {
    open spec fn domain_spec(&self) -> (R, R) {
        self.first_spec().domain_spec()
    }

    fn domain(&self) -> (bounds: [R; 2]) {
        self.first.domain()
    }
}

/// The errors of interpolations in general.
#[derive(Debug)]
#[allow(inconsistent_fields)]
pub enum EnterpolationError {
    /// The elements given at the creation of an interpolation are too few.
    ToFewElements {
        /// The name of the interpolation that was to be created.
        name: String,
        /// The number of elements found.
        found: usize,
        /// The number of elements that are needed at least.
        expected: usize,
    },
    /// The number of knots given at the creation of an interpolation is not
    /// the number it needs.
    InvalidNumberKnots {
        /// The name of the interpolation that was to be created.
        name: String,
        /// The number of knots found.
        found: usize,
        /// A description of how many knots are needed.
        expected: String,
    },
}

} // verus!
