//! Knot sequences, and the adaptors that realise the boundary conventions.
//!
//! A curve reads its knots through [`Knots`], whose view is the *logical*
//! knot sequence: the sequence the evaluation sees. What is stored is a
//! [`KnotSequence`], either explicit knots behind the sortedness guard
//! [`Sorted`] or the three numbers of an [`Equidistant`] sequence. The
//! adaptors [`BorderBuffer`] and [`BorderDeletion`] reinterpret what is stored
//! without copying it.
use crate::bspline::error::{BSplineError, NotSorted};
use crate::scalar::Real;
use vstd::prelude::*;

verus! {

/// Whether the knot at `i` is greater than the knot after it.
pub open spec fn descends<R: Real>(knots: Seq<R>, i: int) -> bool {
    knots[i + 1].lt_spec(knots[i])
}

/// Non-decreasing order: no knot is greater than the knot after it.
pub open spec fn is_sorted<R: Real>(knots: Seq<R>) -> bool {
    forall|i: int| 0 <= i && i + 1 < knots.len() ==> !#[trigger] descends(knots, i)
}

/// `index` is the first place at which `knots` leaves non-decreasing order.
pub open spec fn is_first_descent<R: Real>(knots: Seq<R>, index: int) -> bool {
    &&& 0 <= index
    &&& index + 1 < knots.len()
    &&& descends(knots, index)
    &&& forall|i: int| 0 <= i < index ==> !#[trigger] descends(knots, i)
}

/// A copy of `items`.
fn copied<R: Copy>(items: &Vec<R>) -> (copy: Vec<R>)
    ensures
        copy@ == items@,
{
    let mut copy: Vec<R> = Vec::with_capacity(items.len());
    let mut i: usize = 0;
    while i < items.len()
        invariant
            i <= items.len(),
            copy@ == items@.take(i as int),
        decreases items.len() - i,
    {
        copy.push(items[i]);
        proof {
            assert(copy@ == items@.take(i + 1));
        }
        i += 1;
    }
    copy
}

/// Explicit knots that are known to be in non-decreasing order.
#[derive(Debug)]
pub struct Sorted<R: Real> {
    inner: Vec<R>,
}

impl<R: Real> Clone for Sorted<R> {
    fn clone(&self) -> (copy: Self)
        ensures
            copy@ == self@,
    {
        proof {
            use_type_invariant(self);
        }
        Sorted { inner: copied(&self.inner) }
    }
}

impl<R: Real> View for Sorted<R> {
    type V = Seq<R>;

    closed spec fn view(&self) -> Seq<R> {
        self.inner@
    }
}

impl<R: Real> Sorted<R> {
    #[verifier::type_invariant]
    spec fn in_order(self) -> bool {
        is_sorted(self.inner@)
    }

    /// Guard `knots`: succeeds exactly when they are in non-decreasing
    /// order, and otherwise reports the first index whose knot is greater
    /// than its successor.
    pub fn new(knots: Vec<R>) -> (r: Result<Self, NotSorted>)
        ensures
            match r {
                Ok(sorted) => is_sorted(knots@) && sorted@ == knots@,
                Err(error) => is_first_descent(knots@, error.index as int),
            },
    {
        let mut i: usize = 1;
        while i < knots.len()
            invariant
                1 <= i,
                forall|j: int| 0 <= j < i - 1 ==> !#[trigger] descends(knots@, j),
            decreases knots.len() - i,
        {
            if knots[i].lt(knots[i - 1]) {
                return Err(NotSorted { index: i - 1 });
            }
            i += 1;
        }
        Ok(Sorted { inner: knots })
    }

    /// The number of knots.
    pub fn len(&self) -> (n: usize)
        ensures
            n == self@.len(),
            is_sorted(self@),
    {
        proof {
            use_type_invariant(self);
        }
        self.inner.len()
    }

    /// The knot at `index`.
    pub fn gen(&self, index: usize) -> (knot: R)
        requires
            index < self@.len(),
        ensures
            knot == self@[index as int],
    {
        self.inner[index]
    }
}

/// The knot at `index` of the evenly spaced sequence that begins at `start`
/// and advances by `step`.
pub open spec fn equidistant_knot<R: Real>(start: R, step: R, index: usize) -> R {
    start.plus_spec(step.times_spec(R::from_usize_spec(index)))
}

/// The step that carries `len` evenly spaced knots from `start` to `end`:
/// `(end - start) / (len - 1)`. Below two knots the divisor stands for the
/// count zero.
pub open spec fn equidistant_step<R: Real>(len: usize, start: R, end: R) -> R {
    end.minus_spec(start).over_spec(
        R::from_usize_spec(
            if len >= 1 {
                (len - 1) as usize
            } else {
                0
            },
        ),
    )
}

/// `len` evenly spaced knots that begin at `start` and lie `step` apart: the
/// knot at `i` is `start + step * i`.
pub open spec fn equidistant_knots<R: Real>(len: nat, start: R, step: R) -> Seq<R> {
    Seq::new(len, |i: int| equidistant_knot(start, step, i as usize))
}

/// Evenly spaced knots, kept as a count, a first value and a step.
#[derive(Debug)]
pub struct Equidistant<R: Real> {
    len: usize,
    start: R,
    step: R,
}

impl<R: Real> Clone for Equidistant<R> {
    fn clone(&self) -> (copy: Self)
        ensures
            copy == *self,
    {
        Equidistant { len: self.len, start: self.start, step: self.step }
    }
}

impl<R: Real> Copy for Equidistant<R> {

}

impl<R: Real> View for Equidistant<R> {
    type V = Seq<R>;

    closed spec fn view(&self) -> Seq<R> {
        equidistant_knots(self.len as nat, self.start, self.step)
    }
}

impl<R: Real> Equidistant<R> {
    /// The first knot.
    pub closed spec fn start_spec(&self) -> R {
        self.start
    }

    /// The distance between neighbouring knots.
    pub closed spec fn step_spec(&self) -> R {
        self.step
    }

    /// `len` knots from `start` to `end`.
    pub fn new(len: usize, start: R, end: R) -> (knots: Self)
        ensures
            knots@ == equidistant_knots(len as nat, start, equidistant_step(len, start, end)),
            knots.start_spec() == start,
            knots.step_spec() == equidistant_step(len, start, end),
    {
        let spans: usize = if len >= 1 {
            len - 1
        } else {
            0
        };
        Equidistant { len, start, step: end.minus(start).over(R::from_usize(spans)) }
    }

    /// `len` knots that begin at `start` and lie `step` apart.
    pub fn step(len: usize, start: R, step: R) -> (knots: Self)
        ensures
            knots@ == equidistant_knots(len as nat, start, step),
            knots.start_spec() == start,
            knots.step_spec() == step,
    {
        Equidistant { len, start, step }
    }

    /// `len` knots from zero to one.
    pub fn normalized(len: usize) -> (knots: Self)
        ensures
            knots@ == equidistant_knots(
                len as nat,
                R::zero_spec(),
                equidistant_step(len, R::zero_spec(), R::one_spec()),
            ),
            knots.start_spec() == R::zero_spec(),
            knots.step_spec() == equidistant_step(len, R::zero_spec(), R::one_spec()),
    {
        Self::new(len, R::zero(), R::one())
    }

    /// The number of knots.
    pub fn len(&self) -> (n: usize)
        ensures
            n == self@.len(),
    {
        self.len
    }

    /// The knot at `index`. The sequence goes on beyond its length: any
    /// index has a knot.
    pub fn gen(&self, index: usize) -> (knot: R)
        ensures
            knot == equidistant_knot(self.start_spec(), self.step_spec(), index),
            index < self@.len() ==> knot == self@[index as int],
    {
        self.start.plus(self.step.times(R::from_usize(index)))
    }
}

/// A stored knot sequence.
#[derive(Debug)]
pub enum KnotSequence<R: Real> {
    /// Knots given one by one.
    Explicit(Sorted<R>),
    /// Knots given by count, start and step.
    Equidistant(Equidistant<R>),
}

impl<R: Real> Clone for KnotSequence<R> {
    fn clone(&self) -> (copy: Self)
        ensures
            copy@ == self@,
    {
        match self {
            KnotSequence::Explicit(sorted) => KnotSequence::Explicit(sorted.clone()),
            KnotSequence::Equidistant(equidistant) => KnotSequence::Equidistant(*equidistant),
        }
    }
}

impl<R: Real> View for KnotSequence<R> {
    type V = Seq<R>;

    open spec fn view(&self) -> Seq<R> {
        match self {
            KnotSequence::Explicit(sorted) => sorted@,
            KnotSequence::Equidistant(equidistant) => equidistant@,
        }
    }
}

impl<R: Real> KnotSequence<R> {
    /// The number of knots.
    pub fn len(&self) -> (n: usize)
        ensures
            n == self@.len(),
    {
        match self {
            KnotSequence::Explicit(sorted) => sorted.len(),
            KnotSequence::Equidistant(equidistant) => equidistant.len(),
        }
    }

    /// The knot at `index`.
    pub fn gen(&self, index: usize) -> (knot: R)
        requires
            index < self@.len(),
        ensures
            knot == self@[index as int],
    {
        match self {
            KnotSequence::Explicit(sorted) => sorted.gen(index),
            KnotSequence::Equidistant(equidistant) => equidistant.gen(index),
        }
    }
}

/// The index of `core` that a buffered index `i` stands for, when `n` copies
/// of each end knot are put before and after `core`.
pub open spec fn buffered_index(i: int, n: nat, len: nat) -> int {
    if i < n {
        0
    } else if i - n >= len {
        len - 1
    } else {
        i - n
    }
}

/// `core` with its first and its last knot repeated `n` more times each.
pub open spec fn buffered<R>(core: Seq<R>, n: nat) -> Seq<R> {
    Seq::new(core.len() + 2 * n, |i: int| core[buffered_index(i, n, core.len())])
}

/// The clamped boundary: a stored sequence whose end knots count `n` more
/// times each, without being stored again.
#[derive(Debug)]
pub struct BorderBuffer<R: Real> {
    inner: KnotSequence<R>,
    n: usize,
}

impl<R: Real> Clone for BorderBuffer<R> {
    fn clone(&self) -> (copy: Self)
        ensures
            copy@ == self@,
    {
        proof {
            use_type_invariant(self);
        }
        BorderBuffer { inner: self.inner.clone(), n: self.n }
    }
}

impl<R: Real> View for BorderBuffer<R> {
    type V = Seq<R>;

    closed spec fn view(&self) -> Seq<R> {
        buffered(self.inner@, self.n as nat)
    }
}

impl<R: Real> BorderBuffer<R> {
    #[verifier::type_invariant]
    spec fn fits(self) -> bool {
        &&& self.inner@.len() >= 1
        &&& self.inner@.len() + 2 * self.n <= usize::MAX
    }

    /// Repeat the end knots of `inner` `n` more times each.
    ///
    /// An empty sequence has no end knots to repeat, and a sequence longer
    /// than `usize` can count cannot be indexed: both are refused.
    pub fn new(inner: KnotSequence<R>, n: usize) -> (r: Result<Self, BSplineError>)
        ensures
            match r {
                Ok(knots) => {
                    &&& inner@.len() >= 1
                    &&& inner@.len() + 2 * n <= usize::MAX
                    &&& knots@ == buffered(inner@, n as nat)
                },
                Err(error) => {
                    &&& inner@.len() == 0 || inner@.len() + 2 * n > usize::MAX
                    &&& error == (BSplineError::InvalidNumberKnots { found: inner@.len() as usize })
                },
            },
    {
        let len = inner.len();
        if len == 0 || n > (usize::MAX - len) / 2 {
            return Err(BSplineError::InvalidNumberKnots { found: len });
        }
        Ok(BorderBuffer { inner, n })
    }

    /// The number of knots, repeated ones included.
    pub fn len(&self) -> (n: usize)
        ensures
            n == self@.len(),
    {
        proof {
            use_type_invariant(self);
        }
        self.inner.len() + 2 * self.n
    }

    /// The knot at `index`.
    pub fn gen(&self, index: usize) -> (knot: R)
        requires
            index < self@.len(),
        ensures
            knot == self@[index as int],
    {
        proof {
            use_type_invariant(self);
        }
        let len = self.inner.len();
        if index < self.n {
            self.inner.gen(0)
        } else if index - self.n >= len {
            self.inner.gen(len - 1)
        } else {
            self.inner.gen(index - self.n)
        }
    }
}

/// `core` without its first and its last knot.
pub open spec fn deleted<R>(core: Seq<R>) -> Seq<R> {
    core.subrange(1, core.len() - 1)
}

/// The legacy boundary: a stored sequence in the classical convention, whose
/// outermost two knots the evaluation never reads and which are therefore
/// left out of the logical sequence.
#[derive(Debug)]
pub struct BorderDeletion<R: Real> {
    inner: KnotSequence<R>,
}

impl<R: Real> Clone for BorderDeletion<R> {
    fn clone(&self) -> (copy: Self)
        ensures
            copy@ == self@,
    {
        proof {
            use_type_invariant(self);
        }
        BorderDeletion { inner: self.inner.clone() }
    }
}

impl<R: Real> View for BorderDeletion<R> {
    type V = Seq<R>;

    closed spec fn view(&self) -> Seq<R> {
        deleted(self.inner@)
    }
}

impl<R: Real> BorderDeletion<R> {
    #[verifier::type_invariant]
    spec fn has_border(self) -> bool {
        self.inner@.len() >= 2
    }

    /// Leave out the first and the last knot of `inner`, which needs at
    /// least two knots.
    pub fn new(inner: KnotSequence<R>) -> (r: Result<Self, BSplineError>)
        ensures
            match r {
                Ok(knots) => inner@.len() >= 2 && knots@ == deleted(inner@),
                Err(error) => {
                    &&& inner@.len() < 2
                    &&& error == (BSplineError::InvalidNumberKnots { found: inner@.len() as usize })
                },
            },
    {
        let len = inner.len();
        if len < 2 {
            return Err(BSplineError::InvalidNumberKnots { found: len });
        }
        Ok(BorderDeletion { inner })
    }

    /// The number of knots that are left.
    pub fn len(&self) -> (n: usize)
        ensures
            n == self@.len(),
    {
        proof {
            use_type_invariant(self);
        }
        self.inner.len() - 2
    }

    /// The knot at `index`.
    pub fn gen(&self, index: usize) -> (knot: R)
        requires
            index < self@.len(),
        ensures
            knot == self@[index as int],
    {
        proof {
            use_type_invariant(self);
        }
        let len = self.inner.len();
        assert(index + 1 < len);
        self.inner.gen(index + 1)
    }
}

/// The knots of a curve under one of the three boundary conventions.
#[derive(Debug)]
pub enum Knots<R: Real> {
    /// Open: the stored knots as they are.
    Plain(KnotSequence<R>),
    /// Clamped: the stored knots with repeated ends.
    Buffered(BorderBuffer<R>),
    /// Legacy: the stored knots without the outermost two.
    Deleted(BorderDeletion<R>),
}

impl<R: Real> View for Knots<R> {
    type V = Seq<R>;

    open spec fn view(&self) -> Seq<R> {
        match self {
            Knots::Plain(knots) => knots@,
            Knots::Buffered(knots) => knots@,
            Knots::Deleted(knots) => knots@,
        }
    }
}

impl<R: Real> Clone for Knots<R> {
    fn clone(&self) -> (copy: Self)
        ensures
            copy@ == self@,
    {
        match self {
            Knots::Plain(knots) => Knots::Plain(knots.clone()),
            Knots::Buffered(knots) => Knots::Buffered(knots.clone()),
            Knots::Deleted(knots) => Knots::Deleted(knots.clone()),
        }
    }
}

impl<R: Real> Knots<R> {
    /// The number of logical knots.
    pub fn len(&self) -> (n: usize)
        ensures
            n == self@.len(),
    {
        match self {
            Knots::Plain(knots) => knots.len(),
            Knots::Buffered(knots) => knots.len(),
            Knots::Deleted(knots) => knots.len(),
        }
    }

    /// The logical knot at `index`.
    pub fn gen(&self, index: usize) -> (knot: R)
        requires
            index < self@.len(),
        ensures
            knot == self@[index as int],
    {
        match self {
            Knots::Plain(knots) => knots.gen(index),
            Knots::Buffered(knots) => knots.gen(index),
            Knots::Deleted(knots) => knots.gen(index),
        }
    }

    /// The first index whose logical knot is greater than the knot after
    /// it, or `None` where the logical knots are in non-decreasing order.
    pub fn first_descent(&self) -> (r: Option<usize>)
        ensures
            match r {
                None => is_sorted(self@),
                Some(index) => is_first_descent(self@, index as int),
            },
    {
        let len = self.len();
        let mut i: usize = 1;
        while i < len
            invariant
                1 <= i,
                len == self@.len(),
                forall|j: int| 0 <= j < i - 1 ==> !#[trigger] descends(self@, j),
            decreases len - i,
        {
            if self.gen(i).lt(self.gen(i - 1)) {
                return Some(i - 1);
            }
            i += 1;
        }
        None
    }
}

} // verus!
