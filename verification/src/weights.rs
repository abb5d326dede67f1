//! Weighted elements: rational curves through homogeneous coordinates.
//!
//! An element `e` with weight `w` is lifted to the pair `(e * w, w)`. Curves
//! blend such pairs part by part, as they blend any other element, and the
//! result is projected back by one division at the end.
//!
//! A weight of zero is not an error. It marks a *point at infinity*: the
//! element is kept as it is and stands for a direction, which pulls the curve
//! towards itself without being a place the curve could reach. Projecting a
//! result whose weight is zero divides by zero; what that yields is up to the
//! element type, and [`Homogeneous::is_infinite`] tells it beforehand.
use crate::base::generator::{Curve, Generator, Interpolation};
use crate::base::merge::{Merge, Scale};
use crate::scalar::{lerp, lerp_spec, Real};
use vstd::prelude::*;

verus! {

/// An element in homogeneous coordinates.
#[derive(Debug, PartialEq)]
pub struct Homogeneous<E, R> {
    /// The element, multiplied by its weight; for a point at infinity, the
    /// direction.
    pub element: E,
    /// The weight; zero for a point at infinity.
    pub rational: R,
}

impl<E: Copy, R: Copy> Clone for Homogeneous<E, R> {
    fn clone(&self) -> (copy: Self)
        ensures
            copy == *self,
    {
        Homogeneous { element: self.element, rational: self.rational }
    }
}

impl<E: Copy, R: Copy> Copy for Homogeneous<E, R> {

}

/// `element` with weight `weight`: the pair `(element * weight, weight)`.
pub open spec fn weighted<E: Scale<R>, R: Real>(element: E, weight: R) -> Homogeneous<E, R> {
    Homogeneous { element: element.scale_spec(weight), rational: weight }
}

/// `element` with weight `weight`, or the point at infinity in the direction
/// of `element` where the weight is zero.
pub open spec fn weighted_or_infinity<E: Scale<R>, R: Real>(element: E, weight: R) -> Homogeneous<
    E,
    R,
> {
    if weight.is_zero_spec() {
        Homogeneous { element, rational: R::zero_spec() }
    } else {
        weighted(element, weight)
    }
}

impl<E: Scale<R>, R: Real> Homogeneous<E, R> {
    /// The element itself, with a weight of one.
    pub fn new(element: E) -> (h: Self)
        ensures
            h == (Homogeneous { element, rational: R::one_spec() }),
    {
        Homogeneous { element, rational: R::one() }
    }

    /// `element` with the weight `rational`, which is not looked at: a
    /// weight of zero gives the pair `(element * 0, 0)`.
    pub fn weighted_unchecked(element: E, rational: R) -> (h: Self)
        ensures
            h == weighted(element, rational),
    {
        Homogeneous { element: element.scale(rational), rational }
    }

    /// The point at infinity in the direction `direction`.
    pub fn infinity(direction: E) -> (h: Self)
        ensures
            h == (Homogeneous { element: direction, rational: R::zero_spec() }),
    {
        Homogeneous { element: direction, rational: R::zero() }
    }

    /// `element` with the weight `rational`; a weight of zero makes it the
    /// point at infinity in the direction of `element`.
    pub fn weighted_or_infinity(element: E, rational: R) -> (h: Self)
        ensures
            h == weighted_or_infinity(element, rational),
    {
        if rational.is_zero() {
            Self::infinity(element)
        } else {
            Self::weighted_unchecked(element, rational)
        }
    }

    /// The element that the pair stands for: its element part divided by
    /// its weight.
    pub open spec fn project_spec(self) -> E {
        self.element.unscale_spec(self.rational)
    }

    /// Project back to an ordinary element.
    pub fn project(self) -> (element: E)
        ensures
            element == self.project_spec(),
    {
        self.element.unscale(self.rational)
    }

    /// Whether this is a point at infinity: whether its weight is zero.
    pub fn is_infinite(&self) -> (b: bool)
        ensures
            b == self.rational.is_zero_spec(),
    {
        self.rational.is_zero()
    }
}

impl<E: Default, R: Default> Default for Homogeneous<E, R> {
    fn default() -> (h: Self)
        ensures
            call_ensures(E::default, (), h.element),
            call_ensures(R::default, (), h.rational),
    {
        Homogeneous { element: E::default(), rational: R::default() }
    }
}

impl<E: Merge<R>, R: Real> Merge<R> for Homogeneous<E, R> {
    open spec fn merge_spec(self, to: Self, factor: R) -> Self {
        Homogeneous {
            element: self.element.merge_spec(to.element, factor),
            rational: lerp_spec(self.rational, to.rational, factor),
        }
    }

    fn merge(self, to: Self, factor: R) -> (r: Self) {
        Homogeneous {
            element: self.element.merge(to.element, factor),
            rational: lerp(self.rational, to.rational, factor),
        }
    }
}

/// What can be given as a weighted element.
pub trait IntoWeight {
    /// The element.
    type Element;

    /// The weight.
    type Weight;

    /// The homogeneous pair that `self` stands for.
    spec fn into_weight_spec(self) -> Homogeneous<Self::Element, Self::Weight>;

    /// Lift into homogeneous coordinates.
    fn into_weight(self) -> (h: Homogeneous<Self::Element, Self::Weight>)
        ensures
            h == self.into_weight_spec(),
    ;
}

/// A pair `(element, weight)`. A weight of zero makes the element a
/// direction at infinity.
impl<E: Scale<R>, R: Real> IntoWeight for (E, R) {
    type Element = E;

    type Weight = R;

    open spec fn into_weight_spec(self) -> Homogeneous<E, R> {
        weighted_or_infinity(self.0, self.1)
    }

    fn into_weight(self) -> (h: Homogeneous<E, R>) {
        Homogeneous::weighted_or_infinity(self.0, self.1)
    }
}

/// A homogeneous pair is taken as it is.
impl<E, R> IntoWeight for Homogeneous<E, R> {
    type Element = E;

    type Weight = R;

    open spec fn into_weight_spec(self) -> Homogeneous<E, R> {
        self
    }

    fn into_weight(self) -> (h: Homogeneous<E, R>) {
        self
    }
}

/// The elements of `items`, each lifted into homogeneous coordinates.
pub open spec fn lifted<G: IntoWeight>(items: Seq<G>) -> Seq<Homogeneous<G::Element, G::Weight>> {
    items.map_values(|item: G| item.into_weight_spec())
}

/// Lift every element of `items` into homogeneous coordinates.
pub fn lift<G: IntoWeight + Copy>(items: &Vec<G>) -> (pairs: Vec<
    Homogeneous<G::Element, G::Weight>,
>)
    ensures
        pairs@ == lifted(items@),
{
    let mut pairs: Vec<Homogeneous<G::Element, G::Weight>> = Vec::with_capacity(items.len());
    let mut i: usize = 0;
    while i < items.len()
        invariant
            i <= items.len(),
            pairs@.len() == i,
            forall|j: int| 0 <= j < i ==> #[trigger] pairs@[j] == items@[j].into_weight_spec(),
        decreases items.len() - i,
    {
        pairs.push(items[i].into_weight());
        i += 1;
    }
    assert(pairs@ =~= lifted(items@));
    pairs
}

/// A curve over homogeneous pairs, read as a curve over elements: every
/// point is projected back.
#[derive(Debug)]
pub struct Weighted<G> {
    inner: G,
}

impl<G> Weighted<G> {
    /// The curve over homogeneous pairs.
    pub closed spec fn inner_spec(&self) -> G {
        self.inner
    }

    /// Read `inner` as a curve over elements.
    pub fn new(inner: G) -> (curve: Self)
        ensures
            curve.inner_spec() == inner,
    {
        Weighted { inner }
    }

    /// The curve over homogeneous pairs, whose points still carry their
    /// weights.
    pub fn inner(&self) -> (inner: &G)
        ensures
            *inner == self.inner_spec(),
    {
        &self.inner
    }
}

impl<I, E: Scale<R>, R: Real, G: Generator<I, Output = Homogeneous<E, R>>> Generator<
    I,
> for Weighted<G> {
    type Output = E;

    open spec fn gen_spec(&self, input: I) -> E {
        self.inner_spec().gen_spec(input).project_spec()
    }

    fn gen(&self, input: I) -> (output: E) {
        self.inner.gen(input).project()
    }
}

impl<I, E: Scale<R>, R: Real, G: Interpolation<I, Output = Homogeneous<E, R>>> Interpolation<
    I,
> for Weighted<G> {

}

impl<E: Scale<R>, R: Real, G: Curve<R, Output = Homogeneous<E, R>>> Curve<R> for Weighted<G> {
    open spec fn domain_spec(&self) -> (R, R) {
        self.inner_spec().domain_spec()
    }

    fn domain(&self) -> (bounds: [R; 2]) {
        self.inner.domain()
    }
}

} // verus!
