use enterpolation::bspline::builder::UnknownDomain;
use enterpolation::bspline::error::deficient_degree_of;
use enterpolation::bspline::knots::{
    BorderBuffer, BorderDeletion, Equidistant, KnotSequence, Knots, Sorted,
};
use enterpolation::scalar::{clamp, lerp};
use enterpolation::weights::{lift, IntoWeight};
use enterpolation::{
    BSplineError, ConstSpace, DynSpace, EnterpolationError, Homogeneous, Merge, NotSorted, Real,
    Scale, Space,
};

#[derive(Debug, Clone, Copy, PartialEq, Default)]
struct F(f64);

// The methods whose names end in `_spec` exist for proofs only and are never
// called.
impl Real for F {
    fn zero_spec() -> Self {
        unreachable!()
    }
    fn one_spec() -> Self {
        unreachable!()
    }
    fn from_usize_spec(_: usize) -> Self {
        unreachable!()
    }
    fn plus_spec(self, _: Self) -> Self {
        unreachable!()
    }
    fn minus_spec(self, _: Self) -> Self {
        unreachable!()
    }
    fn times_spec(self, _: Self) -> Self {
        unreachable!()
    }
    fn over_spec(self, _: Self) -> Self {
        unreachable!()
    }
    fn lt_spec(self, _: Self) -> bool {
        unreachable!()
    }
    fn is_zero_spec(self) -> bool {
        unreachable!()
    }
    fn zero() -> Self {
        F(0.0)
    }
    fn one() -> Self {
        F(1.0)
    }
    fn from_usize(n: usize) -> Self {
        F(n as f64)
    }
    fn plus(self, rhs: Self) -> Self {
        F(self.0 + rhs.0)
    }
    fn minus(self, rhs: Self) -> Self {
        F(self.0 - rhs.0)
    }
    fn times(self, rhs: Self) -> Self {
        F(self.0 * rhs.0)
    }
    fn over(self, rhs: Self) -> Self {
        F(self.0 / rhs.0)
    }
    fn lt(self, rhs: Self) -> bool {
        self.0 < rhs.0
    }
    fn is_zero(self) -> bool {
        self.0 == 0.0
    }
}

impl Merge<F> for F {
    fn merge_spec(self, _: Self, _: F) -> Self {
        unreachable!()
    }
    fn merge(self, to: Self, factor: F) -> Self {
        F(self.0 * (1.0 - factor.0) + to.0 * factor.0)
    }
}

impl Scale<F> for F {
    fn scale_spec(self, _: F) -> Self {
        unreachable!()
    }
    fn unscale_spec(self, _: F) -> Self {
        unreachable!()
    }
    fn scale(self, factor: F) -> Self {
        F(self.0 * factor.0)
    }
    fn unscale(self, divisor: F) -> Self {
        F(self.0 / divisor.0)
    }
}

fn reals(values: &[f64]) -> Vec<F> {
    values.iter().map(|v| F(*v)).collect()
}


fn explicit(values: &[f64]) -> KnotSequence<F> {
    KnotSequence::Explicit(Sorted::new(reals(values)).unwrap())
}

fn logical(knots: &Knots<F>) -> Vec<f64> {
    (0..knots.len()).map(|i| knots.gen(i).0).collect()
}

#[test]
fn sorted_accepts_non_decreasing_knots() {
    let sorted = Sorted::new(reals(&[0.0, 0.0, 1.0, 2.5, 2.5])).unwrap();
    assert_eq!(sorted.len(), 5);
    assert_eq!(sorted.gen(0), F(0.0));
    assert_eq!(sorted.gen(3), F(2.5));
    let empty: [f64; 0] = [];
    assert_eq!(Sorted::new(reals(&empty)).unwrap().len(), 0);
    assert_eq!(Sorted::new(reals(&[4.0])).unwrap().len(), 1);
}

#[test]
fn sorted_reports_the_first_descent() {
    assert_eq!(Sorted::new(reals(&[0.0, 1.0, 0.5, 0.25])).unwrap_err(), NotSorted { index: 1 });
    assert_eq!(Sorted::new(reals(&[1.0, 0.0])).unwrap_err(), NotSorted { index: 0 });
    assert_eq!(
        Sorted::new(reals(&[0.0, 1.0, 2.0, 3.0, 2.0])).unwrap_err(),
        NotSorted { index: 3 }
    );
}

#[test]
fn a_descent_becomes_a_curve_error() {
    assert_eq!(BSplineError::from(NotSorted { index: 7 }), BSplineError::NotSorted { index: 7 });
}

#[test]
fn sorted_copies_are_equal() {
    let sorted = Sorted::new(reals(&[0.0, 1.0, 2.0])).unwrap();
    let copy = sorted.clone();
    assert_eq!(copy.len(), 3);
    for i in 0..3 {
        assert_eq!(copy.gen(i), sorted.gen(i));
    }
}

#[test]
fn equidistant_from_start_to_end() {
    // 5 knots from 1 to 3: the step is (3 - 1) / 4.
    let knots = Equidistant::new(5, F(1.0), F(3.0));
    assert_eq!(knots.len(), 5);
    let values: Vec<f64> = (0..5).map(|i| knots.gen(i).0).collect();
    assert_eq!(values, vec![1.0, 1.5, 2.0, 2.5, 3.0]);
    // The sequence goes on.
    assert_eq!(knots.gen(6), F(4.0));
}

#[test]
fn equidistant_by_step() {
    let knots = Equidistant::step(4, F(-1.0), F(0.25));
    assert_eq!(knots.len(), 4);
    let values: Vec<f64> = (0..4).map(|i| knots.gen(i).0).collect();
    assert_eq!(values, vec![-1.0, -0.75, -0.5, -0.25]);
}

#[test]
fn equidistant_normalized() {
    let knots: Equidistant<F> = Equidistant::normalized(3);
    let values: Vec<f64> = (0..3).map(|i| knots.gen(i).0).collect();
    assert_eq!(values, vec![0.0, 0.5, 1.0]);
    let two: Equidistant<F> = Equidistant::normalized(2);
    assert_eq!(two.gen(0), F(0.0));
    assert_eq!(two.gen(1), F(1.0));
}

#[test]
fn equidistant_of_no_knots_or_one() {
    let none = Equidistant::new(0, F(1.0), F(3.0));
    assert_eq!(none.len(), 0);
    let one = Equidistant::step(1, F(1.0), F(3.0));
    assert_eq!(one.len(), 1);
    assert_eq!(one.gen(0), F(1.0));
}

#[test]
fn border_buffer_repeats_the_ends() {
    let buffer = BorderBuffer::new(explicit(&[0.0, 1.0, 4.0]), 2).unwrap();
    assert_eq!(buffer.len(), 7);
    let values: Vec<f64> = (0..7).map(|i| buffer.gen(i).0).collect();
    assert_eq!(values, vec![0.0, 0.0, 0.0, 1.0, 4.0, 4.0, 4.0]);
    let plain = BorderBuffer::new(explicit(&[0.0, 1.0, 4.0]), 0).unwrap();
    assert_eq!(plain.len(), 3);
    assert_eq!(plain.gen(1), F(1.0));
    let single = BorderBuffer::new(explicit(&[5.0]), 1).unwrap();
    let values: Vec<f64> = (0..single.len()).map(|i| single.gen(i).0).collect();
    assert_eq!(values, vec![5.0, 5.0, 5.0]);
}

#[test]
fn border_buffer_over_equidistant_knots() {
    let inner = KnotSequence::Equidistant(Equidistant::new(3, F(0.0), F(1.0)));
    let buffer = BorderBuffer::new(inner, 1).unwrap();
    let values: Vec<f64> = (0..buffer.len()).map(|i| buffer.gen(i).0).collect();
    assert_eq!(values, vec![0.0, 0.0, 0.5, 1.0, 1.0]);
}

#[test]
fn border_buffer_refuses_what_it_cannot_index() {
    let empty: [f64; 0] = [];
    assert_eq!(
        BorderBuffer::new(explicit(&empty), 3).unwrap_err(),
        BSplineError::InvalidNumberKnots { found: 0 }
    );
    assert_eq!(
        BorderBuffer::new(explicit(&[0.0, 1.0]), usize::MAX / 2).unwrap_err(),
        BSplineError::InvalidNumberKnots { found: 2 }
    );
    assert!(BorderBuffer::new(explicit(&[0.0]), usize::MAX / 2).is_ok());
}

#[test]
fn border_deletion_leaves_out_the_outermost_knots() {
    let deletion = BorderDeletion::new(explicit(&[0.0, 0.0, 0.0, 1.0, 2.0, 2.0, 2.0])).unwrap();
    assert_eq!(deletion.len(), 5);
    let values: Vec<f64> = (0..5).map(|i| deletion.gen(i).0).collect();
    assert_eq!(values, vec![0.0, 0.0, 1.0, 2.0, 2.0]);
    let nothing = BorderDeletion::new(explicit(&[0.0, 1.0])).unwrap();
    assert_eq!(nothing.len(), 0);
}

#[test]
fn border_deletion_needs_two_knots() {
    let empty: [f64; 0] = [];
    assert_eq!(
        BorderDeletion::new(explicit(&empty)).unwrap_err(),
        BSplineError::InvalidNumberKnots { found: 0 }
    );
    assert_eq!(
        BorderDeletion::new(explicit(&[3.0])).unwrap_err(),
        BSplineError::InvalidNumberKnots { found: 1 }
    );
}

#[test]
fn legacy_knots_are_the_clamped_knots_of_their_core() {
    // The stored knots 0, 1, 3 with each end twice more, given in full and
    // read as legacy knots, are the same knots with each end once more.
    let legacy = Knots::Deleted(
        BorderDeletion::new(explicit(&[0.0, 0.0, 0.0, 1.0, 3.0, 3.0, 3.0])).unwrap(),
    );
    let clamped = Knots::Buffered(BorderBuffer::new(explicit(&[0.0, 1.0, 3.0]), 1).unwrap());
    let open = Knots::Plain(explicit(&[0.0, 0.0, 1.0, 3.0, 3.0]));
    assert_eq!(logical(&legacy), logical(&clamped));
    assert_eq!(logical(&open), logical(&clamped));
    assert_eq!(logical(&clamped.clone()), logical(&clamped));
}

#[test]
fn knots_find_their_first_descent() {
    let sorted = Knots::Plain(explicit(&[0.0, 0.0, 1.0]));
    assert_eq!(sorted.first_descent(), None);
    let rising = Knots::Plain(KnotSequence::Equidistant(Equidistant::step(4, F(0.0), F(1.0))));
    assert_eq!(rising.first_descent(), None);
    let falling = Knots::Plain(KnotSequence::Equidistant(Equidistant::step(4, F(0.0), F(-1.0))));
    assert_eq!(falling.first_descent(), Some(0));
    let buffered = Knots::Buffered(
        BorderBuffer::new(KnotSequence::Equidistant(Equidistant::step(3, F(0.0), F(-1.0))), 2)
            .unwrap(),
    );
    assert_eq!(buffered.first_descent(), Some(2));
    let none = Knots::Deleted(BorderDeletion::new(explicit(&[0.0, 1.0])).unwrap());
    assert_eq!(none.first_descent(), None);
}

#[test]
fn deficient_degrees() {
    assert_eq!(deficient_degree_of(2, 3), 0);
    assert_eq!(deficient_degree_of(0, 1), 0);
    assert_eq!(deficient_degree_of(0, 5), -4);
    assert_eq!(deficient_degree_of(0, isize::MAX as usize), isize::MIN + 2);
    assert_eq!(deficient_degree_of(0, isize::MAX as usize + 1), isize::MIN + 1);
    // Below the least `isize` the degree is cut off.
    assert_eq!(deficient_degree_of(0, isize::MAX as usize + 2), isize::MIN);
    assert_eq!(deficient_degree_of(0, usize::MAX), isize::MIN);
}

#[test]
fn unknown_domain_keeps_count_and_degree() {
    let domain: UnknownDomain<F> = UnknownDomain::new(7, 3);
    assert_eq!(domain.len(), 7);
    assert_eq!(domain.deg(), 3);
}

#[test]
fn scalars_blend_and_clamp() {
    assert_eq!(lerp(F(2.0), F(6.0), F(0.25)), F(3.0));
    assert_eq!(lerp(F(2.0), F(6.0), F(0.0)), F(2.0));
    assert_eq!(lerp(F(2.0), F(6.0), F(1.0)), F(6.0));
    assert_eq!(clamp(F(0.5), F(1.0), F(2.0)), F(1.0));
    assert_eq!(clamp(F(1.5), F(1.0), F(2.0)), F(1.5));
    assert_eq!(clamp(F(2.5), F(1.0), F(2.0)), F(2.0));
    assert_eq!(clamp(F(1.0), F(1.0), F(2.0)), F(1.0));
    assert_eq!(clamp(F(2.0), F(1.0), F(2.0)), F(2.0));
}

#[test]
fn constant_workspaces_have_their_length() {
    let space: ConstSpace<F, 4> = ConstSpace::new();
    assert_eq!(space.len(), 4);
    assert!(!space.is_empty());
    assert_eq!(space.workspace().len(), 4);
    let none: ConstSpace<F, 0> = ConstSpace::new();
    assert_eq!(none.len(), 0);
    assert!(none.is_empty());
    assert_eq!(none.workspace().len(), 0);
    let copy = space;
    assert_eq!(copy.len(), space.len());
}

#[test]
fn dynamic_workspaces_have_their_length() {
    let space: DynSpace<F> = DynSpace::new(6);
    assert_eq!(space.len(), 6);
    assert!(!space.is_empty());
    assert_eq!(space.workspace().len(), 6);
    let none: DynSpace<F> = DynSpace::new(0);
    assert!(none.is_empty());
    assert_eq!(none.workspace().len(), 0);
}

#[test]
fn homogeneous_pairs() {
    let one: Homogeneous<F, F> = Homogeneous::new(F(3.0));
    assert_eq!(one, Homogeneous { element: F(3.0), rational: F(1.0) });
    let weighted = Homogeneous::weighted_unchecked(F(3.0), F(2.0));
    assert_eq!(weighted, Homogeneous { element: F(6.0), rational: F(2.0) });
    assert_eq!(weighted.project(), F(3.0));
    assert!(!weighted.is_infinite());
    let nothing = Homogeneous::weighted_unchecked(F(3.0), F(0.0));
    assert_eq!(nothing, Homogeneous { element: F(0.0), rational: F(0.0) });
    let direction: Homogeneous<F, F> = Homogeneous::infinity(F(3.0));
    assert_eq!(direction, Homogeneous { element: F(3.0), rational: F(0.0) });
    assert!(direction.is_infinite());
    assert_eq!(Homogeneous::weighted_or_infinity(F(3.0), F(2.0)), weighted);
    assert_eq!(Homogeneous::weighted_or_infinity(F(3.0), F(0.0)), direction);
}

#[test]
fn homogeneous_pairs_blend_part_by_part() {
    let a = Homogeneous { element: F(2.0), rational: F(1.0) };
    let b = Homogeneous { element: F(6.0), rational: F(3.0) };
    assert_eq!(a.merge(b, F(0.25)), Homogeneous { element: F(3.0), rational: F(1.5) });
    assert_eq!(a.merge(b, F(0.0)), a);
    assert_eq!(a.merge(b, F(1.0)), b);
}

#[test]
fn weights_are_lifted() {
    assert_eq!((F(3.0), F(2.0)).into_weight(), Homogeneous { element: F(6.0), rational: F(2.0) });
    assert_eq!((F(3.0), F(0.0)).into_weight(), Homogeneous { element: F(3.0), rational: F(0.0) });
    let pair = Homogeneous { element: F(5.0), rational: F(7.0) };
    assert_eq!(pair.into_weight(), pair);
    let pairs = lift(&vec![(F(1.0), F(1.0)), (F(2.0), F(2.0)), (F(3.0), F(0.0))]);
    assert_eq!(
        pairs,
        vec![
            Homogeneous { element: F(1.0), rational: F(1.0) },
            Homogeneous { element: F(4.0), rational: F(2.0) },
            Homogeneous { element: F(3.0), rational: F(0.0) },
        ]
    );
}

#[test]
fn general_errors_carry_their_numbers() {
    let error = EnterpolationError::ToFewElements {
        name: String::from("BSpline"),
        found: 1,
        expected: 2,
    };
    assert!(matches!(error, EnterpolationError::ToFewElements { found: 1, expected: 2, .. }));
    let error = EnterpolationError::InvalidNumberKnots {
        name: String::from("BSpline"),
        found: 1,
        expected: String::from("at least 2"),
    };
    assert!(matches!(error, EnterpolationError::InvalidNumberKnots { found: 1, .. }));
}
