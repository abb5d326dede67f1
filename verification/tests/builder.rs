use enterpolation::bspline::builder::{BSplineBuilder, BSplineDirector};
use enterpolation::{
    BSplineError, Curve, Generator, Homogeneous, Merge, NotSorted, Real, Scale, Space,
};

#[derive(Debug, Clone, Copy, PartialEq, Default)]
struct F(f64);

// The methods whose names end in `_spec` exist for proofs only and are never
// called.
impl Real for F {
    fn zero_spec() -> Self {
        unreachable!()
    }
    fn one_spec() -> Self {
        unreachable!()
    }
    fn from_usize_spec(_: usize) -> Self {
        unreachable!()
    }
    fn plus_spec(self, _: Self) -> Self {
        unreachable!()
    }
    fn minus_spec(self, _: Self) -> Self {
        unreachable!()
    }
    fn times_spec(self, _: Self) -> Self {
        unreachable!()
    }
    fn over_spec(self, _: Self) -> Self {
        unreachable!()
    }
    fn lt_spec(self, _: Self) -> bool {
        unreachable!()
    }
    fn is_zero_spec(self) -> bool {
        unreachable!()
    }
    fn zero() -> Self {
        F(0.0)
    }
    fn one() -> Self {
        F(1.0)
    }
    fn from_usize(n: usize) -> Self {
        F(n as f64)
    }
    fn plus(self, rhs: Self) -> Self {
        F(self.0 + rhs.0)
    }
    fn minus(self, rhs: Self) -> Self {
        F(self.0 - rhs.0)
    }
    fn times(self, rhs: Self) -> Self {
        F(self.0 * rhs.0)
    }
    fn over(self, rhs: Self) -> Self {
        F(self.0 / rhs.0)
    }
    fn lt(self, rhs: Self) -> bool {
        self.0 < rhs.0
    }
    fn is_zero(self) -> bool {
        self.0 == 0.0
    }
}

impl Merge<F> for F {
    fn merge_spec(self, _: Self, _: F) -> Self {
        unreachable!()
    }
    fn merge(self, to: Self, factor: F) -> Self {
        F(self.0 * (1.0 - factor.0) + to.0 * factor.0)
    }
}

impl Scale<F> for F {
    fn scale_spec(self, _: F) -> Self {
        unreachable!()
    }
    fn unscale_spec(self, _: F) -> Self {
        unreachable!()
    }
    fn scale(self, factor: F) -> Self {
        F(self.0 * factor.0)
    }
    fn unscale(self, divisor: F) -> Self {
        F(self.0 / divisor.0)
    }
}

fn reals(values: &[f64]) -> Vec<F> {
    values.iter().map(|v| F(*v)).collect()
}

fn floats(values: &[F]) -> Vec<f64> {
    values.iter().map(|v| v.0).collect()
}

fn near(a: f64, b: f64) -> bool {
    let previous = assert_float_eq::previous_n_f64(a, 4);
    let next = assert_float_eq::next_n_f64(a, 4);
    b >= previous && b <= next
}

#[test]
fn degenerate_creations() {
    let empty: [f64; 0] = [];
    assert!(BSplineBuilder::new()
        .elements(reals(&empty))
        .knots(reals(&empty))
        .constant::<1>()
        .build()
        .is_err());
    assert!(BSplineBuilder::new()
        .elements(reals(&[1.0]))
        .knots(reals(&[1.0]))
        .constant::<2>()
        .build()
        .is_err());
}

#[test]
fn mode_equality() {
    let elements = [1.0, 3.0, 7.0];
    let open = BSplineBuilder::new()
        .elements(reals(&elements))
        .knots(reals(&[0.0, 0.0, 1.0, 1.0]))
        .constant::<3>()
        .build()
        .unwrap();
    let clamped = BSplineBuilder::new()
        .clamped()
        .elements(reals(&elements))
        .knots(reals(&[0.0, 1.0]))
        .constant::<3>()
        .build()
        .unwrap();
    let legacy = BSplineBuilder::new()
        .legacy()
        .elements(reals(&elements))
        .knots(reals(&[0.0, 0.0, 0.0, 1.0, 1.0, 1.0]))
        .constant::<3>()
        .build()
        .unwrap();
    for (a, b, c) in open.take(10)
        .into_iter()
        .zip(clamped.take(10))
        .zip(legacy.take(10))
        .map(|((a, b), c)| (a, b, c))
    {
        assert!(near(a.0, b.0));
        assert!(near(b.0, c.0));
    }
}

#[test]
fn elements_with_weights() {
    BSplineBuilder::new()
        .elements_with_weights(vec![(F(1.0), F(1.0)), (F(2.0), F(2.0)), (F(3.0), F(0.0))])
        .equidistant::<F>()
        .degree(2)
        .domain(F(0.0), F(5.0))
        .constant::<3>()
        .build()
        .unwrap();
    let stacked: Vec<(F, F)> =
        reals(&[1.0, 2.0, 3.0]).into_iter().zip(reals(&[1.0, 2.0, 0.0])).collect();
    BSplineBuilder::new()
        .elements_with_weights(stacked)
        .equidistant::<F>()
        .degree(1)
        .normalized()
        .constant::<2>()
        .build()
        .unwrap();
    BSplineBuilder::new()
        .elements_with_weights(vec![
            Homogeneous::new(F(1.0)),
            Homogeneous::weighted_unchecked(F(2.0), F(2.0)),
            Homogeneous::infinity(F(3.0)),
        ])
        .knots(reals(&[1.0, 2.0, 3.0]))
        .constant::<2>()
        .build()
        .unwrap();
    BSplineBuilder::new()
        .elements(reals(&[0.1, 0.2, 0.3]))
        .equidistant::<F>()
        .degree(1)
        .normalized()
        .constant::<2>()
        .build()
        .unwrap();
}

#[test]
fn degenerate_creations_name_their_reason() {
    let empty: [f64; 0] = [];
    assert_eq!(
        BSplineBuilder::new()
            .elements(reals(&empty))
            .knots(reals(&empty))
            .constant::<1>()
            .build()
            .unwrap_err(),
        BSplineError::TooFewElements { found: 0 }
    );
    assert_eq!(
        BSplineBuilder::new()
            .elements(reals(&[1.0]))
            .knots(reals(&[1.0]))
            .constant::<2>()
            .build()
            .unwrap_err(),
        BSplineError::TooFewElements { found: 1 }
    );
}

#[test]
fn zero_elements_fail_with_any_workspace() {
    let empty: [f64; 0] = [];
    assert!(BSplineBuilder::new()
        .elements(reals(&empty))
        .knots(reals(&empty))
        .constant::<0>()
        .build()
        .is_err());
    assert!(BSplineBuilder::new()
        .elements(reals(&empty))
        .knots(reals(&empty))
        .constant::<64>()
        .build()
        .is_err());
    assert!(BSplineBuilder::new()
        .elements(reals(&empty))
        .knots(reals(&empty))
        .dynamic()
        .build()
        .is_err());
    assert!(BSplineBuilder::new()
        .clamped()
        .elements(reals(&empty))
        .knots(reals(&empty))
        .constant::<8>()
        .build()
        .is_err());
    assert!(BSplineBuilder::new()
        .legacy()
        .elements(reals(&empty))
        .knots(reals(&empty))
        .constant::<8>()
        .build()
        .is_err());
}

#[test]
fn open_degree_is_knots_less_elements_plus_one() {
    // 3 elements, 4 knots: degree 2.
    let curve = BSplineBuilder::new()
        .elements(reals(&[1.0, 3.0, 7.0]))
        .knots(reals(&[0.0, 1.0, 2.0, 3.0]))
        .constant::<3>()
        .build()
        .unwrap();
    assert_eq!(curve.degree(), 2);
    // 5 elements, 5 knots: degree 1.
    let curve = BSplineBuilder::new()
        .elements(reals(&[1.0, 3.0, 7.0, 2.0, 0.0]))
        .knots(reals(&[0.0, 1.0, 2.0, 3.0, 4.0]))
        .constant::<2>()
        .build()
        .unwrap();
    assert_eq!(curve.degree(), 1);
    // 4 elements, 6 knots: degree 3.
    let curve = BSplineBuilder::new()
        .elements(reals(&[1.0, 3.0, 7.0, 2.0]))
        .knots(reals(&[0.0, 1.0, 2.0, 3.0, 4.0, 5.0]))
        .constant::<4>()
        .build()
        .unwrap();
    assert_eq!(curve.degree(), 3);
}

#[test]
fn clamped_degree_is_elements_less_knots_plus_one() {
    // 3 elements, 2 stored knots: degree 2.
    let curve = BSplineBuilder::new()
        .clamped()
        .elements(reals(&[1.0, 3.0, 7.0]))
        .knots(reals(&[0.0, 1.0]))
        .constant::<3>()
        .build()
        .unwrap();
    assert_eq!(curve.degree(), 2);
    // 5 elements, 3 stored knots: degree 3.
    let curve = BSplineBuilder::new()
        .clamped()
        .elements(reals(&[1.0, 3.0, 7.0, 2.0, 0.0]))
        .knots(reals(&[0.0, 1.0, 2.0]))
        .constant::<4>()
        .build()
        .unwrap();
    assert_eq!(curve.degree(), 3);
    // 4 elements, 4 stored knots: degree 1.
    let curve = BSplineBuilder::new()
        .clamped()
        .elements(reals(&[1.0, 3.0, 7.0, 2.0]))
        .knots(reals(&[0.0, 1.0, 2.0, 3.0]))
        .constant::<2>()
        .build()
        .unwrap();
    assert_eq!(curve.degree(), 1);
}

#[test]
fn legacy_degree_is_knots_less_elements_less_one() {
    // 3 elements, 6 classical knots: degree 2.
    let curve = BSplineBuilder::new()
        .legacy()
        .elements(reals(&[1.0, 3.0, 7.0]))
        .knots(reals(&[0.0, 0.0, 0.0, 1.0, 1.0, 1.0]))
        .constant::<3>()
        .build()
        .unwrap();
    assert_eq!(curve.degree(), 2);
    // 4 elements, 6 classical knots: degree 1.
    let curve = BSplineBuilder::new()
        .legacy()
        .elements(reals(&[1.0, 3.0, 7.0, 2.0]))
        .knots(reals(&[0.0, 0.0, 1.0, 2.0, 3.0, 3.0]))
        .constant::<2>()
        .build()
        .unwrap();
    assert_eq!(curve.degree(), 1);
}

#[test]
fn unsorted_knots_are_refused_at_the_first_descent() {
    let error = BSplineBuilder::new()
        .elements(reals(&[1.0, 3.0, 7.0]))
        .knots(reals(&[0.0, 2.0, 1.0, 0.5]))
        .constant::<3>()
        .build()
        .unwrap_err();
    assert_eq!(error, BSplineError::NotSorted { index: 1 });
    let error = BSplineDirector::new()
        .elements(reals(&[1.0, 3.0, 7.0]))
        .knots(reals(&[3.0, 2.0, 1.0, 0.5]))
        .unwrap_err();
    assert_eq!(error, NotSorted { index: 0 });
    let error = BSplineDirector::new()
        .clamped()
        .elements(reals(&[1.0, 3.0, 7.0]))
        .knots(reals(&[0.0, 1.0, 0.5]))
        .unwrap_err();
    assert_eq!(error, BSplineError::NotSorted { index: 1 });
    let error = BSplineDirector::new()
        .legacy()
        .elements(reals(&[1.0, 3.0, 7.0]))
        .knots(reals(&[0.0, 0.0, 0.0, 1.0, 1.0, 0.0]))
        .unwrap_err();
    assert_eq!(error, BSplineError::NotSorted { index: 4 });
}

#[test]
fn equidistant_knots_that_descend_are_refused_when_the_curve_is_built() {
    let error = BSplineBuilder::new()
        .elements(reals(&[1.0, 3.0, 7.0]))
        .equidistant::<F>()
        .degree(2)
        .domain(F(5.0), F(0.0))
        .constant::<3>()
        .build()
        .unwrap_err();
    assert_eq!(error, BSplineError::NotSorted { index: 0 });
    let error = BSplineDirector::new()
        .clamped()
        .elements(reals(&[1.0, 3.0, 7.0, 4.0]))
        .equidistant::<F>()
        .degree(2)
        .distance(F(0.0), F(-1.0))
        .unwrap()
        .dynamic()
        .build()
        .unwrap_err();
    // The logical knots are 0, 0, -1, -2, -2.
    assert_eq!(error, BSplineError::NotSorted { index: 1 });
    // A step of zero is in order.
    assert!(BSplineBuilder::new()
        .elements(reals(&[1.0, 3.0, 7.0]))
        .equidistant::<F>()
        .degree(2)
        .distance(F(5.0), F(0.0))
        .constant::<3>()
        .build()
        .is_ok());
}

#[test]
fn equal_knots_are_sorted() {
    assert!(BSplineDirector::new()
        .elements(reals(&[1.0, 3.0, 7.0]))
        .knots(reals(&[1.0, 1.0, 1.0, 1.0]))
        .is_ok());
}

#[test]
fn too_few_knots_are_an_invalid_degree() {
    // Open: 3 elements and 2 knots amount to the degree 0.
    let error = BSplineBuilder::new()
        .elements(reals(&[1.0, 3.0, 7.0]))
        .knots(reals(&[0.0, 1.0]))
        .constant::<3>()
        .build()
        .unwrap_err();
    assert_eq!(error, BSplineError::InvalidDegree { degree: 0 });
    // Open: 4 elements and 1 knot amount to the degree -2.
    let error = BSplineBuilder::new()
        .elements(reals(&[1.0, 3.0, 7.0, 8.0]))
        .knots(reals(&[0.0]))
        .constant::<3>()
        .build()
        .unwrap_err();
    assert_eq!(error, BSplineError::InvalidDegree { degree: -2 });
    // Clamped: 2 elements and 3 stored knots amount to the degree 0.
    let error = BSplineDirector::new()
        .clamped()
        .elements(reals(&[1.0, 3.0]))
        .knots(reals(&[0.0, 1.0, 2.0]))
        .unwrap_err();
    assert_eq!(error, BSplineError::InvalidDegree { degree: 0 });
    // Legacy: 3 elements and 4 classical knots leave 2, the degree 0.
    let error = BSplineBuilder::new()
        .legacy()
        .elements(reals(&[1.0, 3.0, 7.0]))
        .knots(reals(&[0.0, 0.0, 1.0, 1.0]))
        .constant::<3>()
        .build()
        .unwrap_err();
    assert_eq!(error, BSplineError::InvalidDegree { degree: 0 });
}

#[test]
fn too_many_knots_are_too_few_elements() {
    // 3 elements and 6 knots amount to the degree 4, which needs 5 elements.
    let error = BSplineBuilder::new()
        .elements(reals(&[1.0, 3.0, 7.0]))
        .knots(reals(&[0.0, 1.0, 2.0, 3.0, 4.0, 5.0]))
        .constant::<8>()
        .build()
        .unwrap_err();
    assert_eq!(error, BSplineError::TooFewElements { found: 3 });
    // 3 elements and 5 knots amount to the degree 3, which needs 4 elements.
    let error = BSplineBuilder::new()
        .elements(reals(&[1.0, 3.0, 7.0]))
        .knots(reals(&[0.0, 1.0, 2.0, 3.0, 4.0]))
        .constant::<8>()
        .build()
        .unwrap_err();
    assert_eq!(error, BSplineError::TooFewElements { found: 3 });
}

#[test]
fn legacy_needs_two_knots() {
    let error = BSplineDirector::new()
        .legacy()
        .elements(reals(&[1.0, 3.0]))
        .knots(reals(&[0.0]))
        .unwrap_err();
    assert_eq!(error, BSplineError::InvalidNumberKnots { found: 1 });
    let empty: [f64; 0] = [];
    let error = BSplineBuilder::new()
        .legacy()
        .elements(reals(&[1.0, 3.0]))
        .knots(reals(&empty))
        .constant::<2>()
        .build()
        .unwrap_err();
    assert_eq!(error, BSplineError::InvalidNumberKnots { found: 0 });
}

#[test]
fn clamped_needs_a_knot() {
    let empty: [f64; 0] = [];
    let error = BSplineDirector::new()
        .clamped()
        .elements(reals(&[1.0, 3.0]))
        .knots(reals(&empty))
        .unwrap_err();
    assert_eq!(error, BSplineError::InvalidNumberKnots { found: 0 });
}

#[test]
fn workspace_has_to_hold_degree_plus_one() {
    let error = BSplineBuilder::new()
        .elements(reals(&[1.0, 3.0, 7.0]))
        .knots(reals(&[0.0, 0.0, 1.0, 1.0]))
        .constant::<2>()
        .build()
        .unwrap_err();
    assert_eq!(error, BSplineError::TooSmallWorkspace { found: 2, necessary: 3 });
    assert!(BSplineBuilder::new()
        .elements(reals(&[1.0, 3.0, 7.0]))
        .knots(reals(&[0.0, 0.0, 1.0, 1.0]))
        .constant::<3>()
        .build()
        .is_ok());
    assert!(BSplineBuilder::new()
        .elements(reals(&[1.0, 3.0, 7.0]))
        .knots(reals(&[0.0, 0.0, 1.0, 1.0]))
        .constant::<4>()
        .build()
        .is_ok());
}

#[test]
fn dynamic_workspace_always_suffices() {
    let curve = BSplineBuilder::new()
        .elements(reals(&[1.0, 3.0, 7.0, 2.0, 5.0]))
        .knots(reals(&[0.0, 1.0, 2.0, 3.0, 4.0, 5.0, 6.0]))
        .dynamic()
        .build()
        .unwrap();
    assert_eq!(curve.degree(), 3);
    // 7 knots less 5 elements plus 2: the degree plus one.
    assert_eq!(curve.space().len(), 4);
    assert_eq!(curve.elements().len(), 5);
    assert_eq!(curve.knots().len(), 7);
    let clamped = BSplineBuilder::new()
        .clamped()
        .elements(reals(&[1.0, 3.0, 7.0, 2.0, 5.0]))
        .knots(reals(&[0.0, 1.0, 2.0]))
        .dynamic()
        .build()
        .unwrap();
    // 3 stored knots and 2 more at each end are 7 logical knots.
    assert_eq!(clamped.knots().len(), 7);
    assert_eq!(clamped.degree(), 3);
    assert_eq!(clamped.space().len(), 4);
    // Fewer knots than elements: the difference does not wrap around.
    let error = BSplineBuilder::new()
        .elements(reals(&[1.0, 3.0, 7.0, 2.0, 5.0]))
        .knots(reals(&[0.0]))
        .dynamic()
        .build()
        .unwrap_err();
    assert_eq!(error, BSplineError::InvalidDegree { degree: -3 });
}

#[test]
fn weighted_curve_needs_elements() {
    let none: Vec<(F, F)> = Vec::new();
    let error = BSplineBuilder::new()
        .elements_with_weights(none)
        .knots(reals(&[0.0, 1.0]))
        .constant::<2>()
        .build()
        .unwrap_err();
    assert_eq!(error, BSplineError::EmptyGenerator);
    let none: Vec<(F, F)> = Vec::new();
    let error = BSplineDirector::new()
        .elements_with_weights(none)
        .knots(reals(&[0.0, 1.0]))
        .unwrap()
        .dynamic()
        .build()
        .unwrap_err();
    assert_eq!(error, BSplineError::EmptyGenerator);
}

#[test]
fn first_failure_is_kept_until_build() {
    // The knots are out of order and the workspace is too small as well:
    // the builder reports the knots.
    let error = BSplineBuilder::new()
        .elements(reals(&[1.0, 3.0, 7.0]))
        .knots(reals(&[1.0, 0.0, 1.0, 1.0]))
        .constant::<1>()
        .build()
        .unwrap_err();
    assert_eq!(error, BSplineError::NotSorted { index: 0 });
}

#[test]
fn director_and_builder_build_the_same_curve() {
    let eager = BSplineDirector::new()
        .clamped()
        .elements(reals(&[1.0, 3.0, 7.0, 4.0]))
        .knots(reals(&[0.0, 1.0, 3.0]))
        .unwrap()
        .constant::<3>()
        .build()
        .unwrap();
    let deferred = BSplineBuilder::new()
        .clamped()
        .elements(reals(&[1.0, 3.0, 7.0, 4.0]))
        .knots(reals(&[0.0, 1.0, 3.0]))
        .constant::<3>()
        .build()
        .unwrap();
    assert_eq!(eager.degree(), deferred.degree());
    assert_eq!(eager.domain(), deferred.domain());
    assert_eq!(floats(&eager.take(17)), floats(&deferred.take(17)));
}

#[test]
fn open_equidistant_by_degree() {
    // 3 elements, degree 2: 4 knots from 0 to 6, which are 0, 2, 4, 6.
    let curve = BSplineBuilder::new()
        .elements(reals(&[1.0, 3.0, 7.0]))
        .equidistant::<F>()
        .degree(2)
        .domain(F(0.0), F(6.0))
        .constant::<3>()
        .build()
        .unwrap();
    assert_eq!(curve.degree(), 2);
    assert_eq!(curve.domain(), [F(2.0), F(4.0)]);
    // The same knots, given one by one.
    let explicit = BSplineBuilder::new()
        .elements(reals(&[1.0, 3.0, 7.0]))
        .knots(reals(&[0.0, 2.0, 4.0, 6.0]))
        .constant::<3>()
        .build()
        .unwrap();
    assert_eq!(floats(&curve.take(9)), floats(&explicit.take(9)));
}

#[test]
fn open_equidistant_by_quantity() {
    // 3 elements, 4 knots: degree 2.
    let curve = BSplineBuilder::new()
        .elements(reals(&[1.0, 3.0, 7.0]))
        .equidistant::<F>()
        .quantity(4)
        .distance(F(1.0), F(0.5))
        .constant::<3>()
        .build()
        .unwrap();
    assert_eq!(curve.degree(), 2);
    // The knots are 1, 1.5, 2, 2.5.
    assert_eq!(curve.domain(), [F(1.5), F(2.0)]);
    // 3 elements, 2 knots: degree 0.
    let error = BSplineBuilder::new()
        .elements(reals(&[1.0, 3.0, 7.0]))
        .equidistant::<F>()
        .quantity(2)
        .normalized()
        .constant::<3>()
        .build()
        .unwrap_err();
    assert_eq!(error, BSplineError::InvalidDegree { degree: 0 });
}

#[test]
fn open_equidistant_normalized() {
    // 2 elements, degree 1: 2 knots, 0 and 1.
    let curve = BSplineBuilder::new()
        .elements(reals(&[10.0, 20.0]))
        .equidistant::<F>()
        .degree(1)
        .normalized()
        .constant::<2>()
        .build()
        .unwrap();
    assert_eq!(curve.domain(), [F(0.0), F(1.0)]);
    assert_eq!(curve.gen(F(0.25)), F(12.5));
}

#[test]
fn open_equidistant_degree_zero_is_invalid() {
    let error = BSplineBuilder::new()
        .elements(reals(&[10.0, 20.0]))
        .equidistant::<F>()
        .degree(0)
        .normalized()
        .constant::<2>()
        .build()
        .unwrap_err();
    assert_eq!(error, BSplineError::InvalidDegree { degree: 0 });
}

#[test]
fn open_equidistant_degree_beyond_counting() {
    let error = BSplineBuilder::new()
        .elements(reals(&[10.0, 20.0]))
        .equidistant::<F>()
        .degree(usize::MAX)
        .normalized()
        .constant::<2>()
        .build()
        .unwrap_err();
    assert_eq!(error, BSplineError::TooFewElements { found: 2 });
}

#[test]
fn clamped_equidistant_by_degree() {
    // 4 elements, degree 2: 3 stored knots 0, 0.5, 1, each end once more.
    let curve = BSplineBuilder::new()
        .clamped()
        .elements(reals(&[1.0, 3.0, 7.0, 4.0]))
        .equidistant::<F>()
        .degree(2)
        .normalized()
        .constant::<3>()
        .build()
        .unwrap();
    assert_eq!(curve.degree(), 2);
    assert_eq!(curve.domain(), [F(0.0), F(1.0)]);
    let explicit = BSplineBuilder::new()
        .elements(reals(&[1.0, 3.0, 7.0, 4.0]))
        .knots(reals(&[0.0, 0.0, 0.5, 1.0, 1.0]))
        .constant::<3>()
        .build()
        .unwrap();
    assert_eq!(floats(&curve.take(9)), floats(&explicit.take(9)));
}

#[test]
fn clamped_equidistant_by_quantity() {
    // 4 elements, 2 stored knots: degree 3.
    let curve = BSplineBuilder::new()
        .clamped()
        .elements(reals(&[1.0, 3.0, 7.0, 4.0]))
        .equidistant::<F>()
        .quantity(2)
        .domain(F(-1.0), F(1.0))
        .constant::<4>()
        .build()
        .unwrap();
    assert_eq!(curve.degree(), 3);
    assert_eq!(curve.domain(), [F(-1.0), F(1.0)]);
    let curve = BSplineBuilder::new()
        .clamped()
        .elements(reals(&[1.0, 3.0, 7.0, 4.0]))
        .equidistant::<F>()
        .quantity(3)
        .distance(F(2.0), F(3.0))
        .constant::<4>()
        .build()
        .unwrap();
    assert_eq!(curve.degree(), 2);
    assert_eq!(curve.domain(), [F(2.0), F(8.0)]);
}

#[test]
fn clamped_equidistant_refuses_what_cannot_be() {
    // Degree 0.
    let error = BSplineDirector::new()
        .clamped()
        .elements(reals(&[1.0, 3.0, 7.0, 4.0]))
        .equidistant::<F>()
        .degree(0)
        .normalized()
        .unwrap_err();
    assert_eq!(error, BSplineError::InvalidDegree { degree: 0 });
    // Degree 5 with 4 elements leaves no stored knot.
    let error = BSplineDirector::new()
        .clamped()
        .elements(reals(&[1.0, 3.0, 7.0, 4.0]))
        .equidistant::<F>()
        .degree(5)
        .domain(F(0.0), F(1.0))
        .unwrap_err();
    assert_eq!(error, BSplineError::InvalidNumberKnots { found: 0 });
    // More stored knots than elements and one: the degree would be 0.
    let error = BSplineBuilder::new()
        .clamped()
        .elements(reals(&[1.0, 3.0, 7.0, 4.0]))
        .equidistant::<F>()
        .quantity(6)
        .distance(F(0.0), F(1.0))
        .constant::<4>()
        .build()
        .unwrap_err();
    assert_eq!(error, BSplineError::InvalidDegree { degree: 0 });
}

#[test]
fn modes_can_be_changed_before_the_elements() {
    let curve = BSplineBuilder::new()
        .legacy()
        .clamped()
        .open()
        .elements(reals(&[1.0, 3.0, 7.0]))
        .knots(reals(&[0.0, 0.0, 1.0, 1.0]))
        .constant::<3>()
        .build()
        .unwrap();
    assert_eq!(curve.degree(), 2);
    let curve = BSplineDirector::new()
        .clamped()
        .legacy()
        .elements(reals(&[1.0, 3.0, 7.0]))
        .knots(reals(&[0.0, 0.0, 0.0, 1.0, 1.0, 1.0]))
        .unwrap()
        .constant::<3>()
        .build()
        .unwrap();
    assert_eq!(curve.degree(), 2);
}
