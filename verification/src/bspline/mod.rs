//! B-spline curves.
//!
//! A curve of degree `d` over `n` control elements reads `n + d - 1` logical
//! knots. (The classical convention counts two more, one before and one
//! after; De Boor's algorithm never reads them, so they are not kept. The
//! legacy boundary mode accepts them and leaves them out.) The curve is
//! defined between the logical knots `d - 1` and `n - 1`.
pub mod builder;
pub mod error;
pub mod knots;
pub mod laws;

use crate::base::generator::{Curve, Generator, Interpolation};
use crate::base::merge::Merge;
use crate::base::space::Space;
use crate::bspline::error::{deficient_degree, deficient_degree_of, BSplineError};
use crate::bspline::knots::{descends, is_first_descent, is_sorted, Knots};
use crate::scalar::{clamp, clamp_spec, Real};
use vstd::prelude::*;

verus! {

/// The first index in `from..to` whose knot is greater than `t`, or `to`
/// where there is none.
pub open spec fn first_above<R: Real>(knots: Seq<R>, t: R, from: int, to: int) -> int
    decreases to - from,
{
    if from >= to {
        to
    } else if t.lt_spec(knots[from]) {
        from
    } else {
        first_above(knots, t, from + 1, to)
    }
}

/// The span of `t`: the index `s` of the last control element that bears on
/// the curve at `t`. It is the first index from `degree` on whose knot is
/// greater than `t`, and at most `knots.len() - degree`.
pub open spec fn span_spec<R: Real>(knots: Seq<R>, degree: int, t: R) -> int {
    first_above(knots, t, degree, knots.len() - degree)
}

/// The blending factor of pass `r` at workspace slot `i`:
/// `(t - low) / (high - low)` for the two knots that bound the slot's
/// support, and zero where those two knots coincide.
pub open spec fn alpha_spec<R: Real>(
    knots: Seq<R>,
    degree: int,
    span: int,
    t: R,
    r: int,
    i: int,
) -> R {
    let low = knots[span - degree + i - 1];
    let high = knots[span + i - r];
    let width = high.minus_spec(low);
    if width.is_zero_spec() {
        R::zero_spec()
    } else {
        t.minus_spec(low).over_spec(width)
    }
}

/// De Boor's recurrence: what workspace slot `i` holds after pass `r`.
///
/// Before the first pass, slot `i` holds control element `span - degree + i`.
/// Pass `r` blends slot `i - 1` into slot `i`, for every `i` from `r` to
/// `degree`.
pub open spec fn blend_spec<R: Real, T: Merge<R>>(
    elements: Seq<T>,
    knots: Seq<R>,
    degree: int,
    span: int,
    t: R,
    r: int,
    i: int,
) -> T
    decreases r,
{
    if r <= 0 {
        elements[span - degree + i]
    } else {
        blend_spec(elements, knots, degree, span, t, r - 1, i - 1).merge_spec(
            blend_spec(elements, knots, degree, span, t, r - 1, i),
            alpha_spec(knots, degree, span, t, r, i),
        )
    }
}

/// The point of the curve at `t`, for a `t` inside the domain.
pub open spec fn de_boor_spec<R: Real, T: Merge<R>>(
    elements: Seq<T>,
    knots: Seq<R>,
    degree: int,
    t: R,
) -> T {
    blend_spec(elements, knots, degree, span_spec(knots, degree, t), t, degree, degree)
}

/// The degree of a curve with `elements` control elements and `knots`
/// logical knots.
pub open spec fn degree_spec(elements: int, knots: int) -> int {
    knots - elements + 1
}

/// Whether `elements` control elements, the logical knots `knots` and a
/// workspace of length `space` make a curve:
///
/// - there are at least two elements;
/// - the degree is at least one;
/// - there are at least `degree + 1` elements;
/// - the knots are in non-decreasing order;
/// - the workspace has at least `degree + 1` slots.
pub open spec fn constructible<R: Real>(elements: usize, knots: Seq<R>, space: usize) -> bool {
    &&& elements >= 2
    &&& knots.len() >= elements
    &&& elements >= degree_spec(elements as int, knots.len() as int) + 1
    &&& is_sorted(knots)
    &&& space >= degree_spec(elements as int, knots.len() as int) + 1
}

/// Whether `error` is why `elements` control elements, the logical knots
/// `knots` and a workspace of length `space` make no curve. It names the
/// first condition of [`constructible`] that fails.
pub open spec fn is_construction_error<R: Real>(
    elements: usize,
    knots: Seq<R>,
    space: usize,
    error: BSplineError,
) -> bool {
    if elements < 2 {
        error == (BSplineError::TooFewElements { found: elements })
    } else if knots.len() < elements {
        error == (BSplineError::InvalidDegree {
            degree: deficient_degree(knots.len() as usize, elements),
        })
    } else if elements < degree_spec(elements as int, knots.len() as int) + 1 {
        error == (BSplineError::TooFewElements { found: elements })
    } else if !is_sorted(knots) {
        error matches BSplineError::NotSorted { index } && is_first_descent(knots, index as int)
    } else {
        &&& space < degree_spec(elements as int, knots.len() as int) + 1
        &&& error == (BSplineError::TooSmallWorkspace {
            found: space,
            necessary: (degree_spec(elements as int, knots.len() as int) + 1) as usize,
        })
    }
}

/// A B-spline curve: control elements, logical knots and a workspace
/// provider.
#[derive(Debug)]
pub struct BSpline<R: Real, T: Merge<R>, S: Space<T>> {
    elements: Vec<T>,
    knots: Knots<R>,
    space: S,
    degree: usize,
}

impl<R: Real, T: Merge<R>, S: Space<T>> BSpline<R, T, S> {
    /// The control elements.
    pub closed spec fn elements_spec(&self) -> Seq<T> {
        self.elements@
    }

    /// The logical knots.
    pub closed spec fn knots_spec(&self) -> Seq<R> {
        self.knots@
    }

    /// The workspace provider.
    pub closed spec fn space_spec(&self) -> S {
        self.space
    }

    /// The degree.
    pub closed spec fn degree_spec(&self) -> int {
        self.degree as int
    }

    /// What holds of every curve that was built.
    pub open spec fn wf(&self) -> bool {
        &&& self.elements_spec().len() <= usize::MAX
        &&& self.knots_spec().len() <= usize::MAX
        &&& constructible(
            self.elements_spec().len() as usize,
            self.knots_spec(),
            self.space_spec().len_spec(),
        )
        &&& self.degree_spec() == degree_spec(
            self.elements_spec().len() as int,
            self.knots_spec().len() as int,
        )
    }

    #[verifier::type_invariant]
    spec fn inv(self) -> bool {
        self.wf()
    }

    /// The least parameter of the curve: logical knot `degree - 1`.
    pub open spec fn domain_start(&self) -> R {
        self.knots_spec()[self.degree_spec() - 1]
    }

    /// The greatest parameter of the curve: logical knot
    /// `knots.len() - degree`.
    pub open spec fn domain_end(&self) -> R {
        self.knots_spec()[self.knots_spec().len() - self.degree_spec()]
    }

    /// Build a curve, or say what keeps `elements`, `knots` and `space` from
    /// being one: see [`constructible`] and [`is_construction_error`].
    pub fn new(elements: Vec<T>, knots: Knots<R>, space: S) -> (r: Result<Self, BSplineError>)
        ensures
            match r {
                Ok(curve) => {
                    &&& constructible(elements.len(), knots@, space.len_spec())
                    &&& curve.wf()
                    &&& curve.elements_spec() == elements@
                    &&& curve.knots_spec() == knots@
                    &&& curve.space_spec() == space
                },
                Err(error) => is_construction_error(
                    elements.len(),
                    knots@,
                    space.len_spec(),
                    error,
                ),
            },
    {
        let n = elements.len();
        let m = knots.len();
        if n < 2 {
            return Err(BSplineError::TooFewElements { found: n });
        }
        if m < n {
            return Err(BSplineError::InvalidDegree { degree: deficient_degree_of(m, n) });
        }
        let degree = m - n + 1;
        if n <= degree {
            return Err(BSplineError::TooFewElements { found: n });
        }
        match knots.first_descent() {
            Some(index) => {
                proof {
                    assert(descends(knots@, index as int));
                }
                return Err(BSplineError::NotSorted { index });
            },
            None => {},
        }
        let capacity = space.len();
        if capacity <= degree {
            return Err(BSplineError::TooSmallWorkspace { found: capacity, necessary: degree + 1 });
        }
        Ok(BSpline { elements, knots, space, degree })
    }

    /// The degree of the curve.
    pub fn degree(&self) -> (degree: usize)
        ensures
            degree == self.degree_spec(),
            self.wf(),
    {
        proof {
            use_type_invariant(self);
        }
        self.degree
    }

    /// The control elements.
    pub fn elements(&self) -> (elements: &Vec<T>)
        ensures
            elements@ == self.elements_spec(),
    {
        &self.elements
    }

    /// The knots, whose view is the logical knot sequence.
    pub fn knots(&self) -> (knots: &Knots<R>)
        ensures
            knots@ == self.knots_spec(),
    {
        &self.knots
    }

    /// The workspace provider.
    pub fn space(&self) -> (space: &S)
        ensures
            *space == self.space_spec(),
    {
        &self.space
    }

    /// The span of `t`: see [`span_spec`]. It is found by going through the
    /// knots of the domain one by one, which asks nothing of the order of
    /// scalars.
    fn span(&self, t: R) -> (span: usize)
        ensures
            span == span_spec(self.knots_spec(), self.degree_spec(), t),
            self.degree_spec() <= span <= self.knots_spec().len() - self.degree_spec(),
    {
        proof {
            use_type_invariant(self);
        }
        let end = self.knots.len() - self.degree;
        let mut span = self.degree;
        let mut above = false;
        while span < end && !above
            invariant
                self.degree <= span <= end,
                end == self.knots@.len() - self.degree,
                first_above(self.knots@, t, span as int, end as int) == first_above(
                    self.knots@,
                    t,
                    self.degree as int,
                    end as int,
                ),
                above ==> span < end && t.lt_spec(self.knots@[span as int]),
            decreases end - span + (if above { 0int } else { 1int }),
        {
            if t.lt(self.knots.gen(span)) {
                above = true;
            } else {
                span += 1;
            }
        }
        span
    }

    /// One pass of De Boor's recurrence over the workspace.
    fn pass(&self, workspace: &mut Vec<T>, span: usize, t: R, r: usize)
        requires
            1 <= r <= self.degree_spec(),
            self.degree_spec() <= span <= self.knots_spec().len() - self.degree_spec(),
            old(workspace)@.len() > self.degree_spec(),
            forall|j: int|
                r - 1 <= j <= self.degree_spec() ==> #[trigger] old(workspace)@[j] == blend_spec(
                    self.elements_spec(),
                    self.knots_spec(),
                    self.degree_spec(),
                    span as int,
                    t,
                    r - 1,
                    j,
                ),
        ensures
            final(workspace)@.len() == old(workspace)@.len(),
            forall|j: int|
                r <= j <= self.degree_spec() ==> #[trigger] final(workspace)@[j] == blend_spec(
                    self.elements_spec(),
                    self.knots_spec(),
                    self.degree_spec(),
                    span as int,
                    t,
                    r as int,
                    j,
                ),
    {
        proof {
            use_type_invariant(self);
        }
        let degree = self.degree;
        let mut i = degree;
        while i >= r
            invariant
                r - 1 <= i <= degree,
                1 <= r <= degree,
                degree == self.degree,
                self.wf(),
                degree <= span <= self.knots@.len() - degree,
                workspace@.len() == old(workspace)@.len(),
                workspace@.len() > degree,
                forall|j: int|
                    i < j <= degree ==> #[trigger] workspace@[j] == blend_spec(
                        self.elements@,
                        self.knots@,
                        degree as int,
                        span as int,
                        t,
                        r as int,
                        j,
                    ),
                forall|j: int|
                    r - 1 <= j <= i ==> #[trigger] workspace@[j] == blend_spec(
                        self.elements@,
                        self.knots@,
                        degree as int,
                        span as int,
                        t,
                        r - 1,
                        j,
                    ),
            decreases i,
        {
            let low = self.knots.gen(span - degree + i - 1);
            let high = self.knots.gen(span + i - r);
            let width = high.minus(low);
            let alpha = if width.is_zero() {
                R::zero()
            } else {
                t.minus(low).over(width)
            };
            let blended = workspace[i - 1].merge(workspace[i], alpha);
            workspace.set(i, blended);
            i -= 1;
        }
    }
}

impl<R: Real, T: Merge<R>, S: Space<T>> Generator<R> for BSpline<R, T, S> {
    type Output = T;

    /// The curve at `input`, which is first moved into the domain.
    open spec fn gen_spec(&self, input: R) -> T {
        de_boor_spec(
            self.elements_spec(),
            self.knots_spec(),
            self.degree_spec(),
            clamp_spec(input, self.domain_start(), self.domain_end()),
        )
    }

    fn gen(&self, input: R) -> (output: T) {
        proof {
            use_type_invariant(self);
        }
        let degree = self.degree;
        let t = clamp(
            input,
            self.knots.gen(degree - 1),
            self.knots.gen(self.knots.len() - degree),
        );
        let span = self.span(t);
        let mut workspace = self.space.workspace();
        let mut i: usize = 0;
        while i <= degree
            invariant
                i <= degree + 1,
                degree == self.degree,
                self.wf(),
                degree <= span <= self.knots@.len() - degree,
                workspace@.len() > degree,
                forall|j: int|
                    0 <= j < i ==> #[trigger] workspace@[j] == self.elements@[span - degree + j],
            decreases degree + 1 - i,
        {
            workspace.set(i, self.elements[span - degree + i]);
            i += 1;
        }
        let mut r: usize = 1;
        while r <= degree
            invariant
                1 <= r <= degree + 1,
                degree == self.degree,
                self.wf(),
                degree <= span <= self.knots@.len() - degree,
                workspace@.len() > degree,
                forall|j: int|
                    r - 1 <= j <= degree ==> #[trigger] workspace@[j] == blend_spec(
                        self.elements@,
                        self.knots@,
                        degree as int,
                        span as int,
                        t,
                        r - 1,
                        j,
                    ),
            decreases degree + 1 - r,
        {
            self.pass(&mut workspace, span, t, r);
            r += 1;
        }
        workspace[degree]
    }
}

impl<R: Real, T: Merge<R>, S: Space<T>> Interpolation<R> for BSpline<R, T, S> {

}

impl<R: Real, T: Merge<R>, S: Space<T>> Curve<R> for BSpline<R, T, S> {
    open spec fn domain_spec(&self) -> (R, R) {
        (self.domain_start(), self.domain_end())
    }

    fn domain(&self) -> (bounds: [R; 2]) {
        proof {
            use_type_invariant(self);
        }
        [self.knots.gen(self.degree - 1), self.knots.gen(self.knots.len() - self.degree)]
    }
}

} // verus!
