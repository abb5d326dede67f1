//! The ways in which building a curve can fail.
use vstd::prelude::*;
use vstd::std_specs::convert::FromSpecImpl;

verus! {

/// A knot sequence was not in non-decreasing order.
#[derive(Debug, Clone, Copy, PartialEq, Eq, Structural)]
pub struct NotSorted {
    /// The first index whose knot is greater than the knot after it.
    pub index: usize,
}

/// Every reason for which no curve is built.
#[derive(Debug, Clone, Copy, PartialEq, Eq, Structural)]
pub enum BSplineError {
    /// The knots given are not in non-decreasing order.
    NotSorted {
        /// The first index whose knot is greater than the knot after it.
        index: usize,
    },
    /// The degree that knots and elements amount to is less than one.
    InvalidDegree {
        /// The degree found, cut off at the least `isize`.
        degree: isize,
    },
    /// There are fewer elements than the curve needs.
    TooFewElements {
        /// The number of elements found.
        found: usize,
    },
    /// The number of knots does not fit the boundary mode.
    InvalidNumberKnots {
        /// The number of knots found.
        found: usize,
    },
    /// The workspace is shorter than the degree plus one.
    TooSmallWorkspace {
        /// The length of the workspace found.
        found: usize,
        /// The length that is necessary.
        necessary: usize,
    },
    /// Weighted elements were asked for and none were given.
    EmptyGenerator,
}

impl From<NotSorted> for BSplineError {
    fn from(error: NotSorted) -> (r: Self) {
        BSplineError::NotSorted { index: error.index }
    }
}

impl FromSpecImpl<NotSorted> for BSplineError {
    open spec fn obeys_from_spec() -> bool {
        true
    }

    open spec fn from_spec(error: NotSorted) -> Self {
        BSplineError::NotSorted { index: error.index }
    }
}

/// The degree `smaller - larger + 1` of a configuration that has fewer knots
/// than it needs, as an `isize`; values below the least `isize` become it.
pub open spec fn deficient_degree(smaller: usize, larger: usize) -> isize {
    if larger - smaller - 1 <= isize::MAX {
        (smaller - larger + 1) as isize
    } else {
        isize::MIN
    }
}

/// Computes [`deficient_degree`].
pub fn deficient_degree_of(smaller: usize, larger: usize) -> (degree: isize)
    requires
        smaller < larger,
    ensures
        degree == deficient_degree(smaller, larger),
        degree <= 0,
{
    let gap: usize = larger - smaller - 1;
    if gap <= isize::MAX as usize {
        -(gap as isize)
    } else {
        isize::MIN
    }
}

} // verus!
