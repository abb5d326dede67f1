//! Builders for B-spline curves.
//!
//! A curve is put together in steps: the boundary mode, the elements, the
//! knots, the workspace. The type of a builder records which steps have been
//! taken, so a step that comes too early, or a curve built from too little,
//! does not compile.
//!
//! There are two builders that take the same steps and build the same
//! curves. [`BSplineDirector`] reports a step that fails at once, as the
//! result of that step. [`BSplineBuilder`] keeps the first failure, passes
//! over the steps that follow it, and reports it when the curve is built.
use crate::base::merge::Merge;
use crate::base::space::{ConstSpace, DynSpace, Space};
use crate::bspline::error::{deficient_degree, deficient_degree_of, BSplineError, NotSorted};
use crate::bspline::knots::{
    buffered,
    deleted,
    descends,
    equidistant_knots,
    equidistant_step,
    is_first_descent,
    is_sorted,
    BorderBuffer,
    BorderDeletion,
    Equidistant,
    KnotSequence,
    Knots,
    Sorted,
};
use crate::bspline::{constructible, is_construction_error, BSpline};
use crate::builder::{Type, Unknown, WithWeight, WithoutWeight};
use crate::scalar::Real;
use crate::weights::{lift, lifted, Homogeneous, IntoWeight, Weighted};
use core::marker::PhantomData;
use vstd::prelude::*;

verus! {

/// Marker: the knots are a core sequence whose end knots count as often as
/// the degree asks for.
#[derive(Debug, Clone, Copy)]
pub struct Clamped;

/// Marker: the knots are taken as they are given.
#[derive(Debug, Clone, Copy)]
pub struct Open;

/// Marker: the knots are given in the classical convention, with one knot
/// more at either end than the curve reads.
#[derive(Debug, Clone, Copy)]
pub struct Legacy;

/// Equidistant knots of which the number is known and the values are not.
///
/// The number of knots and the degree determine one another, by an equation
/// that depends on the boundary mode. Both are kept.
#[derive(Debug)]
pub struct UnknownDomain<R> {
    _phantom: PhantomData<R>,
    len: usize,
    deg: usize,
}

impl<R> Clone for UnknownDomain<R> {
    fn clone(&self) -> (copy: Self)
        ensures
            copy == *self,
    {
        UnknownDomain { _phantom: PhantomData, len: self.len, deg: self.deg }
    }
}

impl<R> Copy for UnknownDomain<R> {

}

impl<R> UnknownDomain<R> {
    /// The number of knots.
    pub closed spec fn len_spec(&self) -> usize {
        self.len
    }

    /// The degree.
    pub closed spec fn deg_spec(&self) -> usize {
        self.deg
    }

    /// `len` knots for a curve of degree `deg`.
    pub fn new(len: usize, deg: usize) -> (domain: Self)
        ensures
            domain.len_spec() == len,
            domain.deg_spec() == deg,
    {
        UnknownDomain { _phantom: PhantomData, len, deg }
    }

    /// The number of knots.
    pub fn len(&self) -> (len: usize)
        ensures
            len == self.len_spec(),
    {
        self.len
    }

    /// The degree.
    pub fn deg(&self) -> (deg: usize)
        ensures
            deg == self.deg_spec(),
    {
        self.deg
    }
}

/// `value`, kept within `usize`: zero below it, the greatest `usize` above
/// it.
pub open spec fn within_usize(value: int) -> usize {
    if value < 0 {
        0
    } else if value > usize::MAX {
        usize::MAX
    } else {
        value as usize
    }
}

/// The length that [`BSplineDirector::dynamic`] gives the workspace:
/// `knots - elements + 2`, which is the degree plus one, kept within
/// `usize`.
pub open spec fn dynamic_capacity(elements: nat, knots: nat) -> usize {
    within_usize(knots - elements + 2)
}

/// `a - b + c`, kept within `usize`.
fn bounded_difference(a: usize, b: usize, c: usize) -> (r: usize)
    requires
        c <= 2,
    ensures
        r == within_usize(a - b + c),
{
    if a >= b {
        let d = a - b;
        if d > usize::MAX - c {
            usize::MAX
        } else {
            d + c
        }
    } else if b - a > c {
        0
    } else {
        c - (b - a)
    }
}

/// Builder for B-spline curves that reports a failing step at once.
///
/// Before building, one has to give:
/// - the elements, with `elements` or `elements_with_weights`;
/// - the knots, either one by one with `knots` or evenly spaced with
///   `equidistant`;
/// - a workspace, with `constant`, `dynamic` or `workspace`.
#[derive(Debug)]
pub struct BSplineDirector<K, E, S, W, M> {
    elements: E,
    knots: K,
    space: S,
    _phantoms: (PhantomData<W>, PhantomData<M>),
}

impl<K, E, S, W, M> BSplineDirector<K, E, S, W, M> {
    /// The elements, as far as they have been given.
    pub closed spec fn elements_spec(&self) -> E {
        self.elements
    }

    /// The knots, as far as they have been given.
    pub closed spec fn knots_spec(&self) -> K {
        self.knots
    }

    /// The workspace provider, as far as it has been given.
    pub closed spec fn space_spec(&self) -> S {
        self.space
    }
}

impl<K: Clone, E: Clone, S: Clone, W, M> Clone for BSplineDirector<K, E, S, W, M> {
    fn clone(&self) -> (copy: Self)
        ensures
            cloned(self.elements_spec(), copy.elements_spec()),
            cloned(self.knots_spec(), copy.knots_spec()),
            cloned(self.space_spec(), copy.space_spec()),
    {
        BSplineDirector {
            elements: self.elements.clone(),
            knots: self.knots.clone(),
            space: self.space.clone(),
            _phantoms: (PhantomData, PhantomData),
        }
    }
}

impl Default for BSplineDirector<Unknown, Unknown, Unknown, Unknown, Open> {
    fn default() -> (director: Self) {
        BSplineDirector::new()
    }
}

impl BSplineDirector<Unknown, Unknown, Unknown, Unknown, Open> {
    /// Create a new builder, in open mode.
    pub fn new() -> (director: Self) {
        BSplineDirector {
            elements: Unknown,
            knots: Unknown,
            space: Unknown,
            _phantoms: (PhantomData, PhantomData),
        }
    }
}

impl<M> BSplineDirector<Unknown, Unknown, Unknown, Unknown, M> {
    /// Change the mode to an open curve: the knots are taken as given.
    pub fn open(self) -> (director: BSplineDirector<Unknown, Unknown, Unknown, Unknown, Open>) {
        BSplineDirector {
            elements: self.elements,
            knots: self.knots,
            space: self.space,
            _phantoms: (PhantomData, PhantomData),
        }
    }

    /// Change the mode to a clamped curve: the end knots are repeated so
    /// that the curve begins at its first element and ends at its last.
    pub fn clamped(self) -> (director: BSplineDirector<
        Unknown,
        Unknown,
        Unknown,
        Unknown,
        Clamped,
    >) {
        BSplineDirector {
            elements: self.elements,
            knots: self.knots,
            space: self.space,
            _phantoms: (PhantomData, PhantomData),
        }
    }

    /// Change the mode to legacy: the knots are given in the classical
    /// convention, with one more knot at either end.
    pub fn legacy(self) -> (director: BSplineDirector<Unknown, Unknown, Unknown, Unknown, Legacy>) {
        BSplineDirector {
            elements: self.elements,
            knots: self.knots,
            space: self.space,
            _phantoms: (PhantomData, PhantomData),
        }
    }

    /// Set the elements of the curve.
    pub fn elements<T>(self, elements: Vec<T>) -> (director: BSplineDirector<
        Unknown,
        Vec<T>,
        Unknown,
        WithoutWeight,
        M,
    >)
        ensures
            director.elements_spec() == elements,
    {
        BSplineDirector {
            elements,
            knots: self.knots,
            space: self.space,
            _phantoms: (PhantomData, PhantomData),
        }
    }

    /// Set the elements and their weights.
    ///
    /// An element whose weight is zero is a direction at infinity: see
    /// [`weights`](crate::weights). It is no error.
    pub fn elements_with_weights<G: IntoWeight + Copy>(self, gen: Vec<G>) -> (director:
        BSplineDirector<Unknown, Vec<Homogeneous<G::Element, G::Weight>>, Unknown, WithWeight, M>)
        ensures
            director.elements_spec()@ == lifted(gen@),
    {
        BSplineDirector {
            elements: lift(&gen),
            knots: self.knots,
            space: self.space,
            _phantoms: (PhantomData, PhantomData),
        }
    }
}

impl<T, W> BSplineDirector<Unknown, Vec<T>, Unknown, W, Open> {
    /// Set the knots of the curve.
    ///
    /// The degree of the curve is `knots.len() - elements.len() + 1`.
    ///
    /// # Errors
    ///
    /// `NotSorted` where a knot is greater than the knot after it.
    pub fn knots<R: Real>(self, knots: Vec<R>) -> (r: Result<
        BSplineDirector<Knots<R>, Vec<T>, Unknown, W, Open>,
        NotSorted,
    >)
        ensures
            match r {
                Ok(director) => {
                    &&& is_sorted(knots@)
                    &&& director.knots_spec()@ == knots@
                    &&& director.elements_spec() == self.elements_spec()
                },
                Err(error) => is_first_descent(knots@, error.index as int),
            },
    {
        match Sorted::new(knots) {
            Ok(sorted) => Ok(
                BSplineDirector {
                    elements: self.elements,
                    knots: Knots::Plain(KnotSequence::Explicit(sorted)),
                    space: self.space,
                    _phantoms: (PhantomData, PhantomData),
                },
            ),
            Err(error) => Err(error),
        }
    }
}

/// Whether `error` is what keeps `knots` from being the stored knots of a
/// clamped curve over `elements` elements.
///
/// The checks, in this order: no more knots than elements; non-decreasing
/// order; at least one knot, and a logical sequence that `usize` can count.
pub open spec fn is_clamped_knots_error<R: Real>(
    elements: nat,
    knots: Seq<R>,
    error: BSplineError,
) -> bool {
    if elements < knots.len() {
        error == (BSplineError::InvalidDegree {
            degree: deficient_degree(elements as usize, knots.len() as usize),
        })
    } else if !is_sorted(knots) {
        error matches BSplineError::NotSorted { index } && is_first_descent(knots, index as int)
    } else {
        &&& knots.len() == 0 || 2 * elements - knots.len() > usize::MAX
        &&& error == (BSplineError::InvalidNumberKnots { found: knots.len() as usize })
    }
}

impl<T, W> BSplineDirector<Unknown, Vec<T>, Unknown, W, Clamped> {
    /// Set the stored knots of the curve.
    ///
    /// With `n` elements and `l` knots, the first and the last knot count
    /// `n - l` more times each, and the degree of the curve is `n - l + 1`.
    ///
    /// # Errors
    ///
    /// See [`is_clamped_knots_error`].
    pub fn knots<R: Real>(self, knots: Vec<R>) -> (r: Result<
        BSplineDirector<Knots<R>, Vec<T>, Unknown, W, Clamped>,
        BSplineError,
    >)
        ensures
            match r {
                Ok(director) => {
                    &&& knots@.len() <= self.elements_spec()@.len()
                    &&& is_sorted(knots@)
                    &&& director.knots_spec()@ == buffered(
                        knots@,
                        (self.elements_spec()@.len() - knots@.len()) as nat,
                    )
                    &&& director.elements_spec() == self.elements_spec()
                },
                Err(error) => is_clamped_knots_error(self.elements_spec()@.len(), knots@, error),
            },
    {
        let n = self.elements.len();
        let l = knots.len();
        if n < l {
            return Err(BSplineError::InvalidDegree { degree: deficient_degree_of(n, l) });
        }
        let ghost given = knots@;
        let sorted = match Sorted::new(knots) {
            Ok(sorted) => sorted,
            Err(error) => {
                proof {
                    assert(descends(given, error.index as int));
                }
                return Err(BSplineError::NotSorted { index: error.index });
            },
        };
        match BorderBuffer::new(KnotSequence::Explicit(sorted), n - l) {
            Ok(buffer) => Ok(
                BSplineDirector {
                    elements: self.elements,
                    knots: Knots::Buffered(buffer),
                    space: self.space,
                    _phantoms: (PhantomData, PhantomData),
                },
            ),
            Err(error) => Err(error),
        }
    }
}

/// Whether `error` is what keeps `knots` from being the knots of a legacy
/// curve: they are out of order, or there are fewer than two.
pub open spec fn is_legacy_knots_error<R: Real>(knots: Seq<R>, error: BSplineError) -> bool {
    if !is_sorted(knots) {
        error matches BSplineError::NotSorted { index } && is_first_descent(knots, index as int)
    } else {
        &&& knots.len() < 2
        &&& error == (BSplineError::InvalidNumberKnots { found: knots.len() as usize })
    }
}

impl<T, W> BSplineDirector<Unknown, Vec<T>, Unknown, W, Legacy> {
    /// Set the knots of the curve, in the classical convention.
    ///
    /// The first and the last knot are left out, and with `m` knots given
    /// and `n` elements the degree of the curve is `m - n - 1`.
    ///
    /// # Errors
    ///
    /// See [`is_legacy_knots_error`].
    pub fn knots<R: Real>(self, knots: Vec<R>) -> (r: Result<
        BSplineDirector<Knots<R>, Vec<T>, Unknown, W, Legacy>,
        BSplineError,
    >)
        ensures
            match r {
                Ok(director) => {
                    &&& is_sorted(knots@)
                    &&& knots@.len() >= 2
                    &&& director.knots_spec()@ == deleted(knots@)
                    &&& director.elements_spec() == self.elements_spec()
                },
                Err(error) => is_legacy_knots_error(knots@, error),
            },
    {
        let ghost given = knots@;
        let sorted = match Sorted::new(knots) {
            Ok(sorted) => sorted,
            Err(error) => {
                proof {
                    assert(descends(given, error.index as int));
                }
                return Err(BSplineError::NotSorted { index: error.index });
            },
        };
        match BorderDeletion::new(KnotSequence::Explicit(sorted)) {
            Ok(deletion) => Ok(
                BSplineDirector {
                    elements: self.elements,
                    knots: Knots::Deleted(deletion),
                    space: self.space,
                    _phantoms: (PhantomData, PhantomData),
                },
            ),
            Err(error) => Err(error),
        }
    }
}

impl<E, W, M> BSplineDirector<Unknown, E, Unknown, W, M> {
    /// Build a curve with equidistant knots of the scalar type `R`.
    pub fn equidistant<R>(self) -> (director: BSplineDirector<Type<R>, E, Unknown, W, M>)
        ensures
            director.elements_spec() == self.elements_spec(),
    {
        BSplineDirector {
            elements: self.elements,
            knots: Type::new(),
            space: self.space,
            _phantoms: (PhantomData, PhantomData),
        }
    }
}

impl<K, T, S, W, M> BSplineDirector<K, Vec<T>, S, W, M> {
    /// The number of elements.
    fn count(&self) -> (n: usize)
        ensures
            n == self.elements_spec()@.len(),
    {
        self.elements.len()
    }
}

impl<R, T, W> BSplineDirector<Type<R>, Vec<T>, Unknown, W, Open> {
    /// Set the degree of the curve, which fixes the number of knots at
    /// `elements.len() + degree - 1`.
    pub fn degree(self, degree: usize) -> (director: BSplineDirector<
        UnknownDomain<R>,
        Vec<T>,
        Unknown,
        W,
        Open,
    >)
        requires
            self.elements_spec()@.len() + degree <= usize::MAX,
        ensures
            director.elements_spec() == self.elements_spec(),
            director.knots_spec().len_spec() == within_usize(
                self.elements_spec()@.len() + degree - 1,
            ),
            director.knots_spec().deg_spec() == degree,
    {
        let sum = self.elements.len() + degree;
        let len = if sum >= 1 {
            sum - 1
        } else {
            0
        };
        BSplineDirector {
            knots: UnknownDomain::new(len, degree),
            elements: self.elements,
            space: self.space,
            _phantoms: (PhantomData, PhantomData),
        }
    }

    /// Set the number of knots, which fixes the degree at
    /// `quantity - elements.len() + 1`.
    pub fn quantity(self, quantity: usize) -> (director: BSplineDirector<
        UnknownDomain<R>,
        Vec<T>,
        Unknown,
        W,
        Open,
    >)
        ensures
            director.elements_spec() == self.elements_spec(),
            director.knots_spec().len_spec() == quantity,
            director.knots_spec().deg_spec() == within_usize(
                quantity - self.elements_spec()@.len() + 1,
            ),
    {
        let deg = bounded_difference(quantity, self.elements.len(), 1);
        BSplineDirector {
            knots: UnknownDomain::new(quantity, deg),
            elements: self.elements,
            space: self.space,
            _phantoms: (PhantomData, PhantomData),
        }
    }
}

impl<R, T, W> BSplineDirector<Type<R>, Vec<T>, Unknown, W, Clamped> {
    /// Set the degree of the curve, which fixes the number of stored knots
    /// at `elements.len() - degree + 1`.
    pub fn degree(self, degree: usize) -> (director: BSplineDirector<
        UnknownDomain<R>,
        Vec<T>,
        Unknown,
        W,
        Clamped,
    >)
        ensures
            director.elements_spec() == self.elements_spec(),
            director.knots_spec().len_spec() == within_usize(
                self.elements_spec()@.len() - degree + 1,
            ),
            director.knots_spec().deg_spec() == degree,
    {
        let len = bounded_difference(self.elements.len(), degree, 1);
        BSplineDirector {
            knots: UnknownDomain::new(len, degree),
            elements: self.elements,
            space: self.space,
            _phantoms: (PhantomData, PhantomData),
        }
    }

    /// Set the number of stored knots, which fixes the degree at
    /// `elements.len() - quantity + 1`.
    pub fn quantity(self, quantity: usize) -> (director: BSplineDirector<
        UnknownDomain<R>,
        Vec<T>,
        Unknown,
        W,
        Clamped,
    >)
        ensures
            director.elements_spec() == self.elements_spec(),
            director.knots_spec().len_spec() == quantity,
            director.knots_spec().deg_spec() == within_usize(
                self.elements_spec()@.len() - quantity + 1,
            ),
    {
        let deg = bounded_difference(self.elements.len(), quantity, 1);
        BSplineDirector {
            knots: UnknownDomain::new(quantity, deg),
            elements: self.elements,
            space: self.space,
            _phantoms: (PhantomData, PhantomData),
        }
    }
}

impl<R: Real, T, W> BSplineDirector<UnknownDomain<R>, Vec<T>, Unknown, W, Open> {
    /// Wrap equidistant knots for an open curve.
    fn with_knots(self, knots: Equidistant<R>) -> (director: BSplineDirector<
        Knots<R>,
        Vec<T>,
        Unknown,
        W,
        Open,
    >)
        ensures
            director.elements_spec() == self.elements_spec(),
            director.knots_spec()@ == knots@,
    {
        BSplineDirector {
            knots: Knots::Plain(KnotSequence::Equidistant(knots)),
            elements: self.elements,
            space: self.space,
            _phantoms: (PhantomData, PhantomData),
        }
    }

    /// Set the first and the last knot.
    pub fn domain(self, start: R, end: R) -> (director: BSplineDirector<
        Knots<R>,
        Vec<T>,
        Unknown,
        W,
        Open,
    >)
        ensures
            director.elements_spec() == self.elements_spec(),
            director.knots_spec()@ == equidistant_knots(
                self.knots_spec().len_spec() as nat,
                start,
                equidistant_step(self.knots_spec().len_spec(), start, end),
            ),
    {
        let knots = Equidistant::new(self.knots.len(), start, end);
        self.with_knots(knots)
    }

    /// Set the first knot to zero and the last to one.
    pub fn normalized(self) -> (director: BSplineDirector<Knots<R>, Vec<T>, Unknown, W, Open>)
        ensures
            director.elements_spec() == self.elements_spec(),
            director.knots_spec()@ == equidistant_knots(
                self.knots_spec().len_spec() as nat,
                R::zero_spec(),
                equidistant_step(self.knots_spec().len_spec(), R::zero_spec(), R::one_spec()),
            ),
    {
        let knots = Equidistant::normalized(self.knots.len());
        self.with_knots(knots)
    }

    /// Set the first knot and the distance between neighbouring knots.
    pub fn distance(self, start: R, step: R) -> (director: BSplineDirector<
        Knots<R>,
        Vec<T>,
        Unknown,
        W,
        Open,
    >)
        ensures
            director.elements_spec() == self.elements_spec(),
            director.knots_spec()@ == equidistant_knots(
                self.knots_spec().len_spec() as nat,
                start,
                step,
            ),
    {
        let knots = Equidistant::step(self.knots.len(), start, step);
        self.with_knots(knots)
    }
}

/// Whether `error` is what keeps `len` stored equidistant knots from making
/// a clamped curve of degree `deg`.
///
/// The checks, in this order: a degree of at least one; at least one stored
/// knot, and a logical sequence that `usize` can count.
pub open spec fn is_clamped_domain_error(len: usize, deg: usize, error: BSplineError) -> bool {
    if deg == 0 {
        error == (BSplineError::InvalidDegree { degree: 0 })
    } else {
        &&& len == 0 || len + 2 * (deg - 1) > usize::MAX
        &&& error == (BSplineError::InvalidNumberKnots { found: len })
    }
}

impl<R: Real, T, W> BSplineDirector<UnknownDomain<R>, Vec<T>, Unknown, W, Clamped> {
    /// Wrap equidistant knots for a clamped curve: the end knots count
    /// `degree - 1` more times each.
    fn with_knots(self, knots: Equidistant<R>) -> (r: Result<
        BSplineDirector<Knots<R>, Vec<T>, Unknown, W, Clamped>,
        BSplineError,
    >)
        requires
            knots@.len() == self.knots_spec().len_spec(),
        ensures
            match r {
                Ok(director) => {
                    &&& self.knots_spec().deg_spec() >= 1
                    &&& director.elements_spec() == self.elements_spec()
                    &&& director.knots_spec()@ == buffered(
                        knots@,
                        (self.knots_spec().deg_spec() - 1) as nat,
                    )
                },
                Err(error) => is_clamped_domain_error(
                    self.knots_spec().len_spec(),
                    self.knots_spec().deg_spec(),
                    error,
                ),
            },
    {
        let deg = self.knots.deg();
        if deg == 0 {
            return Err(BSplineError::InvalidDegree { degree: 0 });
        }
        match BorderBuffer::new(KnotSequence::Equidistant(knots), deg - 1) {
            Ok(buffer) => Ok(
                BSplineDirector {
                    knots: Knots::Buffered(buffer),
                    elements: self.elements,
                    space: self.space,
                    _phantoms: (PhantomData, PhantomData),
                },
            ),
            Err(error) => Err(error),
        }
    }

    /// Set the first and the last knot.
    ///
    /// # Errors
    ///
    /// See [`is_clamped_domain_error`].
    pub fn domain(self, start: R, end: R) -> (r: Result<
        BSplineDirector<Knots<R>, Vec<T>, Unknown, W, Clamped>,
        BSplineError,
    >)
        ensures
            match r {
                Ok(director) => {
                    &&& self.knots_spec().deg_spec() >= 1
                    &&& director.elements_spec() == self.elements_spec()
                    &&& director.knots_spec()@ == buffered(
                        equidistant_knots(
                            self.knots_spec().len_spec() as nat,
                            start,
                            equidistant_step(self.knots_spec().len_spec(), start, end),
                        ),
                        (self.knots_spec().deg_spec() - 1) as nat,
                    )
                },
                Err(error) => is_clamped_domain_error(
                    self.knots_spec().len_spec(),
                    self.knots_spec().deg_spec(),
                    error,
                ),
            },
    {
        let knots = Equidistant::new(self.knots.len(), start, end);
        self.with_knots(knots)
    }

    /// Set the first knot to zero and the last to one.
    ///
    /// # Errors
    ///
    /// See [`is_clamped_domain_error`].
    pub fn normalized(self) -> (r: Result<
        BSplineDirector<Knots<R>, Vec<T>, Unknown, W, Clamped>,
        BSplineError,
    >)
        ensures
            match r {
                Ok(director) => {
                    &&& self.knots_spec().deg_spec() >= 1
                    &&& director.elements_spec() == self.elements_spec()
                    &&& director.knots_spec()@ == buffered(
                        equidistant_knots(
                            self.knots_spec().len_spec() as nat,
                            R::zero_spec(),
                            equidistant_step(
                                self.knots_spec().len_spec(),
                                R::zero_spec(),
                                R::one_spec(),
                            ),
                        ),
                        (self.knots_spec().deg_spec() - 1) as nat,
                    )
                },
                Err(error) => is_clamped_domain_error(
                    self.knots_spec().len_spec(),
                    self.knots_spec().deg_spec(),
                    error,
                ),
            },
    {
        let knots = Equidistant::normalized(self.knots.len());
        self.with_knots(knots)
    }

    /// Set the first knot and the distance between neighbouring knots.
    ///
    /// # Errors
    ///
    /// See [`is_clamped_domain_error`].
    pub fn distance(self, start: R, step: R) -> (r: Result<
        BSplineDirector<Knots<R>, Vec<T>, Unknown, W, Clamped>,
        BSplineError,
    >)
        ensures
            match r {
                Ok(director) => {
                    &&& self.knots_spec().deg_spec() >= 1
                    &&& director.elements_spec() == self.elements_spec()
                    &&& director.knots_spec()@ == buffered(
                        equidistant_knots(self.knots_spec().len_spec() as nat, start, step),
                        (self.knots_spec().deg_spec() - 1) as nat,
                    )
                },
                Err(error) => is_clamped_domain_error(
                    self.knots_spec().len_spec(),
                    self.knots_spec().deg_spec(),
                    error,
                ),
            },
    {
        let knots = Equidistant::step(self.knots.len(), start, step);
        self.with_knots(knots)
    }
}

impl<R: Real, T, W, M> BSplineDirector<Knots<R>, Vec<T>, Unknown, W, M> {
    /// Use a workspace that is allocated anew for every evaluation, of the
    /// length the curve needs: `knots.len() - elements.len() + 2`, which is
    /// the degree plus one.
    pub fn dynamic(self) -> (director: BSplineDirector<Knots<R>, Vec<T>, DynSpace<T>, W, M>)
        ensures
            director.elements_spec() == self.elements_spec(),
            director.knots_spec() == self.knots_spec(),
            director.space_spec().capacity() == dynamic_capacity(
                self.elements_spec()@.len(),
                self.knots_spec()@.len(),
            ),
    {
        let capacity = bounded_difference(self.knots.len(), self.elements.len(), 2);
        BSplineDirector {
            space: DynSpace::new(capacity),
            knots: self.knots,
            elements: self.elements,
            _phantoms: (PhantomData, PhantomData),
        }
    }

    /// Use a workspace of the constant length `N`, which has to be at least
    /// the degree plus one for the curve to be built.
    pub fn constant<const N: usize>(self) -> (director: BSplineDirector<
        Knots<R>,
        Vec<T>,
        ConstSpace<T, N>,
        W,
        M,
    >)
        ensures
            director.elements_spec() == self.elements_spec(),
            director.knots_spec() == self.knots_spec(),
    {
        BSplineDirector {
            knots: self.knots,
            space: ConstSpace::new(),
            elements: self.elements,
            _phantoms: (PhantomData, PhantomData),
        }
    }

    /// Use the workspace provider `space`, whose workspaces have to be at
    /// least the degree plus one long for the curve to be built.
    pub fn workspace<S: Space<T>>(self, space: S) -> (director: BSplineDirector<
        Knots<R>,
        Vec<T>,
        S,
        W,
        M,
    >)
        ensures
            director.elements_spec() == self.elements_spec(),
            director.knots_spec() == self.knots_spec(),
            director.space_spec() == space,
    {
        BSplineDirector {
            knots: self.knots,
            space,
            elements: self.elements,
            _phantoms: (PhantomData, PhantomData),
        }
    }
}

impl<R: Real, T: Merge<R>, S: Space<T>, M> BSplineDirector<Knots<R>, Vec<T>, S, WithoutWeight, M> {
    /// Build the curve.
    ///
    /// # Errors
    ///
    /// See [`is_construction_error`].
    pub fn build(self) -> (r: Result<BSpline<R, T, S>, BSplineError>)
        ensures
            match r {
                Ok(curve) => {
                    &&& constructible(
                        self.elements_spec()@.len() as usize,
                        self.knots_spec()@,
                        self.space_spec().len_spec(),
                    )
                    &&& curve.wf()
                    &&& curve.elements_spec() == self.elements_spec()@
                    &&& curve.knots_spec() == self.knots_spec()@
                    &&& curve.space_spec() == self.space_spec()
                },
                Err(error) => is_construction_error(
                    self.elements_spec()@.len() as usize,
                    self.knots_spec()@,
                    self.space_spec().len_spec(),
                    error,
                ),
            },
    {
        BSpline::new(self.elements, self.knots, self.space)
    }
}

/// A weighted B-spline curve: a B-spline curve over homogeneous pairs, read
/// as a curve over elements.
pub type WeightedBSpline<R, E, S> = Weighted<BSpline<R, Homogeneous<E, R>, S>>;

impl<R: Real, E: Merge<R>, S: Space<Homogeneous<E, R>>, M> BSplineDirector<
    Knots<R>,
    Vec<Homogeneous<E, R>>,
    S,
    WithWeight,
    M,
> {
    /// Build the weighted curve.
    ///
    /// # Errors
    ///
    /// See [`is_weighted_construction_error`].
    pub fn build(self) -> (r: Result<WeightedBSpline<R, E, S>, BSplineError>)
        ensures
            match r {
                Ok(curve) => {
                    &&& constructible(
                        self.elements_spec()@.len() as usize,
                        self.knots_spec()@,
                        self.space_spec().len_spec(),
                    )
                    &&& curve.inner_spec().wf()
                    &&& curve.inner_spec().elements_spec() == self.elements_spec()@
                    &&& curve.inner_spec().knots_spec() == self.knots_spec()@
                    &&& curve.inner_spec().space_spec() == self.space_spec()
                },
                Err(error) => is_weighted_construction_error(
                    self.elements_spec()@.len() as usize,
                    self.knots_spec()@,
                    self.space_spec().len_spec(),
                    error,
                ),
            },
    {
        if self.elements.len() == 0 {
            return Err(BSplineError::EmptyGenerator);
        }
        match BSpline::new(self.elements, self.knots, self.space) {
            Ok(curve) => Ok(Weighted::new(curve)),
            Err(error) => Err(error),
        }
    }
}

/// Whether `error` is why `elements` weighted elements, the logical knots
/// `knots` and a workspace of length `space` make no curve:
/// `EmptyGenerator` where there are no elements, and otherwise what
/// [`is_construction_error`] says.
pub open spec fn is_weighted_construction_error<R: Real>(
    elements: usize,
    knots: Seq<R>,
    space: usize,
    error: BSplineError,
) -> bool {
    if elements == 0 {
        error == BSplineError::EmptyGenerator
    } else {
        is_construction_error(elements, knots, space, error)
    }
}

/// Builder for B-spline curves that reports a failing step when the curve is
/// built.
///
/// It takes the steps of [`BSplineDirector`], in the same order and with the
/// same effect. A step that fails leaves the failure in the builder; the
/// steps after it change nothing, and `build` returns that first failure.
#[derive(Debug)]
pub struct BSplineBuilder<K, E, S, W, M> {
    inner: Result<BSplineDirector<K, E, S, W, M>, BSplineError>,
}

impl<K, E, S, W, M> BSplineBuilder<K, E, S, W, M> {
    /// The failure of the first step that failed, if any did.
    pub closed spec fn failure(&self) -> Option<BSplineError> {
        match self.inner {
            Ok(_) => None,
            Err(error) => Some(error),
        }
    }

    /// What has been given so far. It means something only while no step
    /// has failed.
    pub closed spec fn director(&self) -> BSplineDirector<K, E, S, W, M> {
        self.inner->Ok_0
    }
}

impl<K: Clone, E: Clone, S: Clone, W, M> Clone for BSplineBuilder<K, E, S, W, M> {
    fn clone(&self) -> (copy: Self)
        ensures
            copy.failure() == self.failure(),
            self.failure() is None ==> {
                &&& cloned(self.director().elements_spec(), copy.director().elements_spec())
                &&& cloned(self.director().knots_spec(), copy.director().knots_spec())
                &&& cloned(self.director().space_spec(), copy.director().space_spec())
            },
    {
        match &self.inner {
            Ok(director) => BSplineBuilder { inner: Ok(director.clone()) },
            Err(error) => BSplineBuilder { inner: Err(*error) },
        }
    }
}

impl Default for BSplineBuilder<Unknown, Unknown, Unknown, Unknown, Open> {
    fn default() -> (builder: Self) {
        BSplineBuilder::new()
    }
}

impl BSplineBuilder<Unknown, Unknown, Unknown, Unknown, Open> {
    /// Create a new builder, in open mode.
    pub fn new() -> (builder: Self)
        ensures
            builder.failure() is None,
    {
        BSplineBuilder { inner: Ok(BSplineDirector::new()) }
    }
}

impl<M> BSplineBuilder<Unknown, Unknown, Unknown, Unknown, M> {
    /// Change the mode to an open curve: the knots are taken as given.
    pub fn open(self) -> (builder: BSplineBuilder<Unknown, Unknown, Unknown, Unknown, Open>)
        ensures
            builder.failure() == self.failure(),
    {
        match self.inner {
            Ok(director) => BSplineBuilder { inner: Ok(director.open()) },
            Err(error) => BSplineBuilder { inner: Err(error) },
        }
    }

    /// Change the mode to a clamped curve: the end knots are repeated so
    /// that the curve begins at its first element and ends at its last.
    pub fn clamped(self) -> (builder: BSplineBuilder<Unknown, Unknown, Unknown, Unknown, Clamped>)
        ensures
            builder.failure() == self.failure(),
    {
        match self.inner {
            Ok(director) => BSplineBuilder { inner: Ok(director.clamped()) },
            Err(error) => BSplineBuilder { inner: Err(error) },
        }
    }

    /// Change the mode to legacy: the knots are given in the classical
    /// convention, with one more knot at either end.
    pub fn legacy(self) -> (builder: BSplineBuilder<Unknown, Unknown, Unknown, Unknown, Legacy>)
        ensures
            builder.failure() == self.failure(),
    {
        match self.inner {
            Ok(director) => BSplineBuilder { inner: Ok(director.legacy()) },
            Err(error) => BSplineBuilder { inner: Err(error) },
        }
    }

    /// Set the elements of the curve.
    pub fn elements<T>(self, elements: Vec<T>) -> (builder: BSplineBuilder<
        Unknown,
        Vec<T>,
        Unknown,
        WithoutWeight,
        M,
    >)
        ensures
            builder.failure() == self.failure(),
            self.failure() is None ==> builder.director().elements_spec() == elements,
    {
        match self.inner {
            Ok(director) => BSplineBuilder { inner: Ok(director.elements(elements)) },
            Err(error) => BSplineBuilder { inner: Err(error) },
        }
    }

    /// Set the elements and their weights.
    ///
    /// An element whose weight is zero is a direction at infinity: see
    /// [`weights`](crate::weights). It is no error.
    pub fn elements_with_weights<G: IntoWeight + Copy>(self, gen: Vec<G>) -> (builder:
        BSplineBuilder<Unknown, Vec<Homogeneous<G::Element, G::Weight>>, Unknown, WithWeight, M>)
        ensures
            builder.failure() == self.failure(),
            self.failure() is None ==> builder.director().elements_spec()@ == lifted(gen@),
    {
        match self.inner {
            Ok(director) => BSplineBuilder { inner: Ok(director.elements_with_weights(gen)) },
            Err(error) => BSplineBuilder { inner: Err(error) },
        }
    }
}

impl<T, W> BSplineBuilder<Unknown, Vec<T>, Unknown, W, Open> {
    /// Set the knots of the curve.
    ///
    /// The degree of the curve is `knots.len() - elements.len() + 1`.
    ///
    /// Knots of which one is greater than the knot after it leave the
    /// failure `NotSorted`.
    pub fn knots<R: Real>(self, knots: Vec<R>) -> (builder: BSplineBuilder<
        Knots<R>,
        Vec<T>,
        Unknown,
        W,
        Open,
    >)
        ensures
            self.failure() is Some ==> builder.failure() == self.failure(),
            self.failure() is None ==> match builder.failure() {
                None => {
                    &&& is_sorted(knots@)
                    &&& builder.director().knots_spec()@ == knots@
                    &&& builder.director().elements_spec() == self.director().elements_spec()
                },
                Some(error) => {
                    &&& error matches BSplineError::NotSorted { index }
                    &&& is_first_descent(knots@, index as int)
                },
            },
    {
        match self.inner {
            Ok(director) => match director.knots(knots) {
                Ok(director) => BSplineBuilder { inner: Ok(director) },
                Err(error) => BSplineBuilder { inner: Err(BSplineError::from(error)) },
            },
            Err(error) => BSplineBuilder { inner: Err(error) },
        }
    }
}

impl<T, W> BSplineBuilder<Unknown, Vec<T>, Unknown, W, Clamped> {
    /// Set the stored knots of the curve.
    ///
    /// With `n` elements and `l` knots, the first and the last knot count
    /// `n - l` more times each, and the degree of the curve is `n - l + 1`.
    ///
    /// For the failures see [`is_clamped_knots_error`].
    pub fn knots<R: Real>(self, knots: Vec<R>) -> (builder: BSplineBuilder<
        Knots<R>,
        Vec<T>,
        Unknown,
        W,
        Clamped,
    >)
        ensures
            self.failure() is Some ==> builder.failure() == self.failure(),
            self.failure() is None ==> match builder.failure() {
                None => {
                    &&& knots@.len() <= self.director().elements_spec()@.len()
                    &&& is_sorted(knots@)
                    &&& builder.director().knots_spec()@ == buffered(
                        knots@,
                        (self.director().elements_spec()@.len() - knots@.len()) as nat,
                    )
                    &&& builder.director().elements_spec() == self.director().elements_spec()
                },
                Some(error) => is_clamped_knots_error(
                    self.director().elements_spec()@.len(),
                    knots@,
                    error,
                ),
            },
    {
        match self.inner {
            Ok(director) => BSplineBuilder { inner: director.knots(knots) },
            Err(error) => BSplineBuilder { inner: Err(error) },
        }
    }
}

impl<T, W> BSplineBuilder<Unknown, Vec<T>, Unknown, W, Legacy> {
    /// Set the knots of the curve, in the classical convention.
    ///
    /// The first and the last knot are left out, and with `m` knots given
    /// and `n` elements the degree of the curve is `m - n - 1`.
    ///
    /// For the failures see [`is_legacy_knots_error`].
    pub fn knots<R: Real>(self, knots: Vec<R>) -> (builder: BSplineBuilder<
        Knots<R>,
        Vec<T>,
        Unknown,
        W,
        Legacy,
    >)
        ensures
            self.failure() is Some ==> builder.failure() == self.failure(),
            self.failure() is None ==> match builder.failure() {
                None => {
                    &&& is_sorted(knots@)
                    &&& knots@.len() >= 2
                    &&& builder.director().knots_spec()@ == deleted(knots@)
                    &&& builder.director().elements_spec() == self.director().elements_spec()
                },
                Some(error) => is_legacy_knots_error(knots@, error),
            },
    {
        match self.inner {
            Ok(director) => BSplineBuilder { inner: director.knots(knots) },
            Err(error) => BSplineBuilder { inner: Err(error) },
        }
    }
}

impl<E, W, M> BSplineBuilder<Unknown, E, Unknown, W, M> {
    /// Build a curve with equidistant knots of the scalar type `R`.
    pub fn equidistant<R>(self) -> (builder: BSplineBuilder<Type<R>, E, Unknown, W, M>)
        ensures
            builder.failure() == self.failure(),
            self.failure() is None ==> builder.director().elements_spec()
                == self.director().elements_spec(),
    {
        match self.inner {
            Ok(director) => BSplineBuilder { inner: Ok(director.equidistant()) },
            Err(error) => BSplineBuilder { inner: Err(error) },
        }
    }
}

impl<R, T, W> BSplineBuilder<Type<R>, Vec<T>, Unknown, W, Open> {
    /// Set the degree of the curve, which fixes the number of knots at
    /// `elements.len() + degree - 1`.
    ///
    /// A degree so large that `usize` cannot count the knots leaves the
    /// failure `TooFewElements`.
    pub fn degree(self, degree: usize) -> (builder: BSplineBuilder<
        UnknownDomain<R>,
        Vec<T>,
        Unknown,
        W,
        Open,
    >)
        ensures
            self.failure() is Some ==> builder.failure() == self.failure(),
            self.failure() is None ==> if self.director().elements_spec()@.len() + degree
                <= usize::MAX {
                &&& builder.failure() is None
                &&& builder.director().elements_spec() == self.director().elements_spec()
                &&& builder.director().knots_spec().len_spec() == within_usize(
                    self.director().elements_spec()@.len() + degree - 1,
                )
                &&& builder.director().knots_spec().deg_spec() == degree
            } else {
                builder.failure() == Some(
                    BSplineError::TooFewElements {
                        found: self.director().elements_spec()@.len() as usize,
                    },
                )
            },
    {
        match self.inner {
            Ok(director) => {
                let found = director.count();
                if degree > usize::MAX - found {
                    BSplineBuilder { inner: Err(BSplineError::TooFewElements { found }) }
                } else {
                    BSplineBuilder { inner: Ok(director.degree(degree)) }
                }
            },
            Err(error) => BSplineBuilder { inner: Err(error) },
        }
    }

    /// Set the number of knots, which fixes the degree at
    /// `quantity - elements.len() + 1`.
    pub fn quantity(self, quantity: usize) -> (builder: BSplineBuilder<
        UnknownDomain<R>,
        Vec<T>,
        Unknown,
        W,
        Open,
    >)
        ensures
            builder.failure() == self.failure(),
            self.failure() is None ==> {
                &&& builder.director().elements_spec() == self.director().elements_spec()
                &&& builder.director().knots_spec().len_spec() == quantity
                &&& builder.director().knots_spec().deg_spec() == within_usize(
                    quantity - self.director().elements_spec()@.len() + 1,
                )
            },
    {
        match self.inner {
            Ok(director) => BSplineBuilder { inner: Ok(director.quantity(quantity)) },
            Err(error) => BSplineBuilder { inner: Err(error) },
        }
    }
}

impl<R, T, W> BSplineBuilder<Type<R>, Vec<T>, Unknown, W, Clamped> {
    /// Set the degree of the curve, which fixes the number of stored knots
    /// at `elements.len() - degree + 1`.
    pub fn degree(self, degree: usize) -> (builder: BSplineBuilder<
        UnknownDomain<R>,
        Vec<T>,
        Unknown,
        W,
        Clamped,
    >)
        ensures
            builder.failure() == self.failure(),
            self.failure() is None ==> {
                &&& builder.director().elements_spec() == self.director().elements_spec()
                &&& builder.director().knots_spec().len_spec() == within_usize(
                    self.director().elements_spec()@.len() - degree + 1,
                )
                &&& builder.director().knots_spec().deg_spec() == degree
            },
    {
        match self.inner {
            Ok(director) => BSplineBuilder { inner: Ok(director.degree(degree)) },
            Err(error) => BSplineBuilder { inner: Err(error) },
        }
    }

    /// Set the number of stored knots, which fixes the degree at
    /// `elements.len() - quantity + 1`.
    pub fn quantity(self, quantity: usize) -> (builder: BSplineBuilder<
        UnknownDomain<R>,
        Vec<T>,
        Unknown,
        W,
        Clamped,
    >)
        ensures
            builder.failure() == self.failure(),
            self.failure() is None ==> {
                &&& builder.director().elements_spec() == self.director().elements_spec()
                &&& builder.director().knots_spec().len_spec() == quantity
                &&& builder.director().knots_spec().deg_spec() == within_usize(
                    self.director().elements_spec()@.len() - quantity + 1,
                )
            },
    {
        match self.inner {
            Ok(director) => BSplineBuilder { inner: Ok(director.quantity(quantity)) },
            Err(error) => BSplineBuilder { inner: Err(error) },
        }
    }
}

impl<R: Real, T, W> BSplineBuilder<UnknownDomain<R>, Vec<T>, Unknown, W, Open> {
    /// Set the first and the last knot.
    pub fn domain(self, start: R, end: R) -> (builder: BSplineBuilder<
        Knots<R>,
        Vec<T>,
        Unknown,
        W,
        Open,
    >)
        ensures
            builder.failure() == self.failure(),
            self.failure() is None ==> {
                &&& builder.director().elements_spec() == self.director().elements_spec()
                &&& builder.director().knots_spec()@ == equidistant_knots(
                    self.director().knots_spec().len_spec() as nat,
                    start,
                    equidistant_step(self.director().knots_spec().len_spec(), start, end),
                )
            },
    {
        match self.inner {
            Ok(director) => BSplineBuilder { inner: Ok(director.domain(start, end)) },
            Err(error) => BSplineBuilder { inner: Err(error) },
        }
    }

    /// Set the first knot to zero and the last to one.
    pub fn normalized(self) -> (builder: BSplineBuilder<Knots<R>, Vec<T>, Unknown, W, Open>)
        ensures
            builder.failure() == self.failure(),
            self.failure() is None ==> {
                &&& builder.director().elements_spec() == self.director().elements_spec()
                &&& builder.director().knots_spec()@ == equidistant_knots(
                    self.director().knots_spec().len_spec() as nat,
                    R::zero_spec(),
                    equidistant_step(
                        self.director().knots_spec().len_spec(),
                        R::zero_spec(),
                        R::one_spec(),
                    ),
                )
            },
    {
        match self.inner {
            Ok(director) => BSplineBuilder { inner: Ok(director.normalized()) },
            Err(error) => BSplineBuilder { inner: Err(error) },
        }
    }

    /// Set the first knot and the distance between neighbouring knots.
    pub fn distance(self, start: R, step: R) -> (builder: BSplineBuilder<
        Knots<R>,
        Vec<T>,
        Unknown,
        W,
        Open,
    >)
        ensures
            builder.failure() == self.failure(),
            self.failure() is None ==> {
                &&& builder.director().elements_spec() == self.director().elements_spec()
                &&& builder.director().knots_spec()@ == equidistant_knots(
                    self.director().knots_spec().len_spec() as nat,
                    start,
                    step,
                )
            },
    {
        match self.inner {
            Ok(director) => BSplineBuilder { inner: Ok(director.distance(start, step)) },
            Err(error) => BSplineBuilder { inner: Err(error) },
        }
    }
}

impl<R: Real, T, W> BSplineBuilder<UnknownDomain<R>, Vec<T>, Unknown, W, Clamped> {
    /// Set the first and the last knot.
    ///
    /// For the failures see [`is_clamped_domain_error`].
    pub fn domain(self, start: R, end: R) -> (builder: BSplineBuilder<
        Knots<R>,
        Vec<T>,
        Unknown,
        W,
        Clamped,
    >)
        ensures
            self.failure() is Some ==> builder.failure() == self.failure(),
            self.failure() is None ==> match builder.failure() {
                None => {
                    &&& self.director().knots_spec().deg_spec() >= 1
                    &&& builder.director().elements_spec() == self.director().elements_spec()
                    &&& builder.director().knots_spec()@ == buffered(
                        equidistant_knots(
                            self.director().knots_spec().len_spec() as nat,
                            start,
                            equidistant_step(self.director().knots_spec().len_spec(), start, end),
                        ),
                        (self.director().knots_spec().deg_spec() - 1) as nat,
                    )
                },
                Some(error) => is_clamped_domain_error(
                    self.director().knots_spec().len_spec(),
                    self.director().knots_spec().deg_spec(),
                    error,
                ),
            },
    {
        match self.inner {
            Ok(director) => BSplineBuilder { inner: director.domain(start, end) },
            Err(error) => BSplineBuilder { inner: Err(error) },
        }
    }

    /// Set the first knot to zero and the last to one.
    ///
    /// For the failures see [`is_clamped_domain_error`].
    pub fn normalized(self) -> (builder: BSplineBuilder<Knots<R>, Vec<T>, Unknown, W, Clamped>)
        ensures
            self.failure() is Some ==> builder.failure() == self.failure(),
            self.failure() is None ==> match builder.failure() {
                None => {
                    &&& self.director().knots_spec().deg_spec() >= 1
                    &&& builder.director().elements_spec() == self.director().elements_spec()
                    &&& builder.director().knots_spec()@ == buffered(
                        equidistant_knots(
                            self.director().knots_spec().len_spec() as nat,
                            R::zero_spec(),
                            equidistant_step(
                                self.director().knots_spec().len_spec(),
                                R::zero_spec(),
                                R::one_spec(),
                            ),
                        ),
                        (self.director().knots_spec().deg_spec() - 1) as nat,
                    )
                },
                Some(error) => is_clamped_domain_error(
                    self.director().knots_spec().len_spec(),
                    self.director().knots_spec().deg_spec(),
                    error,
                ),
            },
    {
        match self.inner {
            Ok(director) => BSplineBuilder { inner: director.normalized() },
            Err(error) => BSplineBuilder { inner: Err(error) },
        }
    }

    /// Set the first knot and the distance between neighbouring knots.
    ///
    /// For the failures see [`is_clamped_domain_error`].
    pub fn distance(self, start: R, step: R) -> (builder: BSplineBuilder<
        Knots<R>,
        Vec<T>,
        Unknown,
        W,
        Clamped,
    >)
        ensures
            self.failure() is Some ==> builder.failure() == self.failure(),
            self.failure() is None ==> match builder.failure() {
                None => {
                    &&& self.director().knots_spec().deg_spec() >= 1
                    &&& builder.director().elements_spec() == self.director().elements_spec()
                    &&& builder.director().knots_spec()@ == buffered(
                        equidistant_knots(
                            self.director().knots_spec().len_spec() as nat,
                            start,
                            step,
                        ),
                        (self.director().knots_spec().deg_spec() - 1) as nat,
                    )
                },
                Some(error) => is_clamped_domain_error(
                    self.director().knots_spec().len_spec(),
                    self.director().knots_spec().deg_spec(),
                    error,
                ),
            },
    {
        match self.inner {
            Ok(director) => BSplineBuilder { inner: director.distance(start, step) },
            Err(error) => BSplineBuilder { inner: Err(error) },
        }
    }
}

impl<R: Real, T, W, M> BSplineBuilder<Knots<R>, Vec<T>, Unknown, W, M> {
    /// Use a workspace that is allocated anew for every evaluation, of the
    /// length the curve needs: `knots.len() - elements.len() + 2`, which is
    /// the degree plus one.
    pub fn dynamic(self) -> (builder: BSplineBuilder<Knots<R>, Vec<T>, DynSpace<T>, W, M>)
        ensures
            builder.failure() == self.failure(),
            self.failure() is None ==> {
                &&& builder.director().elements_spec() == self.director().elements_spec()
                &&& builder.director().knots_spec() == self.director().knots_spec()
                &&& builder.director().space_spec().capacity() == dynamic_capacity(
                    self.director().elements_spec()@.len(),
                    self.director().knots_spec()@.len(),
                )
            },
    {
        match self.inner {
            Ok(director) => BSplineBuilder { inner: Ok(director.dynamic()) },
            Err(error) => BSplineBuilder { inner: Err(error) },
        }
    }

    /// Use a workspace of the constant length `N`, which has to be at least
    /// the degree plus one for the curve to be built.
    pub fn constant<const N: usize>(self) -> (builder: BSplineBuilder<
        Knots<R>,
        Vec<T>,
        ConstSpace<T, N>,
        W,
        M,
    >)
        ensures
            builder.failure() == self.failure(),
            self.failure() is None ==> {
                &&& builder.director().elements_spec() == self.director().elements_spec()
                &&& builder.director().knots_spec() == self.director().knots_spec()
            },
    {
        match self.inner {
            Ok(director) => BSplineBuilder { inner: Ok(director.constant()) },
            Err(error) => BSplineBuilder { inner: Err(error) },
        }
    }

    /// Use the workspace provider `space`, whose workspaces have to be at
    /// least the degree plus one long for the curve to be built.
    pub fn workspace<S: Space<T>>(self, space: S) -> (builder: BSplineBuilder<
        Knots<R>,
        Vec<T>,
        S,
        W,
        M,
    >)
        ensures
            builder.failure() == self.failure(),
            self.failure() is None ==> {
                &&& builder.director().elements_spec() == self.director().elements_spec()
                &&& builder.director().knots_spec() == self.director().knots_spec()
                &&& builder.director().space_spec() == space
            },
    {
        match self.inner {
            Ok(director) => BSplineBuilder { inner: Ok(director.workspace(space)) },
            Err(error) => BSplineBuilder { inner: Err(error) },
        }
    }
}

impl<R: Real, T: Merge<R>, S: Space<T>, M> BSplineBuilder<Knots<R>, Vec<T>, S, WithoutWeight, M> {
    /// Build the curve.
    ///
    /// # Errors
    ///
    /// The failure of the first step that failed; where none did, see
    /// [`is_construction_error`].
    pub fn build(self) -> (r: Result<BSpline<R, T, S>, BSplineError>)
        ensures
            match self.failure() {
                Some(error) => r == Err::<BSpline<R, T, S>, BSplineError>(error),
                None => match r {
                    Ok(curve) => {
                        &&& constructible(
                            self.director().elements_spec()@.len() as usize,
                            self.director().knots_spec()@,
                            self.director().space_spec().len_spec(),
                        )
                        &&& curve.wf()
                        &&& curve.elements_spec() == self.director().elements_spec()@
                        &&& curve.knots_spec() == self.director().knots_spec()@
                        &&& curve.space_spec() == self.director().space_spec()
                    },
                    Err(error) => is_construction_error(
                        self.director().elements_spec()@.len() as usize,
                        self.director().knots_spec()@,
                        self.director().space_spec().len_spec(),
                        error,
                    ),
                },
            },
    {
        match self.inner {
            Err(error) => Err(error),
            Ok(director) => director.build(),
        }
    }
}

impl<R: Real, E: Merge<R>, S: Space<Homogeneous<E, R>>, M> BSplineBuilder<
    Knots<R>,
    Vec<Homogeneous<E, R>>,
    S,
    WithWeight,
    M,
> {
    /// Build the weighted curve.
    ///
    /// # Errors
    ///
    /// The failure of the first step that failed; where none did, see
    /// [`is_weighted_construction_error`].
    pub fn build(self) -> (r: Result<WeightedBSpline<R, E, S>, BSplineError>)
        ensures
            match self.failure() {
                Some(error) => r == Err::<WeightedBSpline<R, E, S>, BSplineError>(error),
                None => match r {
                    Ok(curve) => {
                        &&& constructible(
                            self.director().elements_spec()@.len() as usize,
                            self.director().knots_spec()@,
                            self.director().space_spec().len_spec(),
                        )
                        &&& curve.inner_spec().wf()
                        &&& curve.inner_spec().elements_spec() == self.director().elements_spec()@
                        &&& curve.inner_spec().knots_spec() == self.director().knots_spec()@
                        &&& curve.inner_spec().space_spec() == self.director().space_spec()
                    },
                    Err(error) => is_weighted_construction_error(
                        self.director().elements_spec()@.len() as usize,
                        self.director().knots_spec()@,
                        self.director().space_spec().len_spec(),
                        error,
                    ),
                },
            },
    {
        match self.inner {
            Err(error) => Err(error),
            Ok(director) => director.build(),
        }
    }
}

} // verus!
