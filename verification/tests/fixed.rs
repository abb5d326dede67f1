use enterpolation::bspline::builder::BSplineBuilder;
use enterpolation::fixed::UNIT;
use enterpolation::{Curve, Fixed, Generator, Homogeneous, Merge, Real, Scale};

fn whole(n: i32) -> Fixed {
    Fixed::whole(n)
}

/// `n / d`, which is exact where `d` is a power of two.
fn ratio(n: i32, d: i32) -> Fixed {
    whole(n).over(whole(d))
}

fn wholes(values: &[i32]) -> Vec<Fixed> {
    values.iter().map(|v| whole(*v)).collect()
}

#[test]
fn fixed_point_counts_units() {
    assert_eq!(UNIT, 1 << 32);
    assert_eq!(whole(0), Fixed { raw: 0 });
    assert_eq!(whole(1), Fixed { raw: UNIT });
    assert_eq!(whole(-3), Fixed { raw: -3 * UNIT });
    assert_eq!(Fixed::zero(), whole(0));
    assert_eq!(Fixed::one(), whole(1));
    assert_eq!(Fixed::from_usize(5), whole(5));
    assert_eq!(Fixed::from_usize(0x7fff_ffff), whole(i32::MAX));
    assert_eq!(Fixed::from_usize(0x8000_0000), Fixed { raw: i64::MAX });
    assert_eq!(Fixed::from_usize(usize::MAX), Fixed { raw: i64::MAX });
    assert_eq!(ratio(1, 2), Fixed { raw: UNIT / 2 });
    assert_eq!(ratio(-7, 4), Fixed { raw: -7 * UNIT / 4 });
}

#[test]
fn fixed_point_arithmetic() {
    assert_eq!(whole(3).plus(whole(4)), whole(7));
    assert_eq!(whole(3).minus(whole(4)), whole(-1));
    assert_eq!(whole(3).times(whole(4)), whole(12));
    assert_eq!(whole(-3).times(whole(4)), whole(-12));
    assert_eq!(whole(-3).times(whole(-4)), whole(12));
    assert_eq!(ratio(1, 2).times(ratio(1, 2)), ratio(1, 4));
    assert_eq!(whole(12).over(whole(4)), whole(3));
    assert_eq!(whole(-12).over(whole(4)), whole(-3));
    assert_eq!(whole(12).over(whole(-4)), whole(-3));
    assert_eq!(whole(1).over(whole(3)), Fixed { raw: UNIT / 3 });
    assert_eq!(whole(-1).over(whole(3)), Fixed { raw: -(UNIT / 3) });
    assert!(whole(3).lt(whole(4)));
    assert!(!whole(4).lt(whole(4)));
    assert!(whole(-4).lt(whole(3)));
    assert!(whole(0).is_zero());
    assert!(!Fixed { raw: 1 }.is_zero());
}

#[test]
fn fixed_point_at_its_limits() {
    // Dividing by zero gives zero.
    assert_eq!(whole(5).over(whole(0)), whole(0));
    // Sums and differences wrap around.
    assert_eq!(Fixed { raw: i64::MAX }.plus(Fixed { raw: 1 }), Fixed { raw: i64::MIN });
    assert_eq!(Fixed { raw: i64::MIN }.minus(Fixed { raw: 1 }), Fixed { raw: i64::MAX });
    // Products and quotients are kept within range.
    assert_eq!(whole(i32::MAX).times(whole(2)), Fixed { raw: i64::MAX });
    assert_eq!(whole(i32::MAX).times(whole(-2)), Fixed { raw: i64::MIN });
    assert_eq!(whole(i32::MAX).over(ratio(1, 4)), Fixed { raw: i64::MAX });
    assert_eq!(whole(i32::MIN).over(Fixed { raw: 1 }), Fixed { raw: i64::MIN });
    assert_eq!(Fixed { raw: i64::MIN }.times(whole(1)), Fixed { raw: i64::MIN });
    assert_eq!(Fixed { raw: i64::MIN }.over(Fixed { raw: i64::MIN }), whole(1));
}

#[test]
fn fixed_point_is_exact() {
    for raw in [0, 1, -1, 12345, -98765, UNIT, -UNIT, i64::MAX, i64::MIN, i64::MIN + 1] {
        let x = Fixed { raw };
        assert_eq!(x.minus(x), whole(0));
        assert_eq!(x.times(whole(1)), x);
        assert_eq!(whole(1).times(x), x);
        assert_eq!(x.over(whole(1)), x);
        assert_eq!(x.scale(whole(1)), x);
        assert_eq!(x.unscale(whole(1)), x);
        assert_eq!(whole(1).merge(whole(1), x), whole(1));
        assert_eq!(x.merge(whole(7), whole(0)), x);
        assert_eq!(whole(7).merge(x, whole(1)), x);
        if raw != 0 {
            assert_eq!(x.over(x), whole(1));
            assert_eq!(whole(0).over(x), whole(0));
        }
    }
}

#[test]
fn a_fixed_point_curve() {
    let curve = BSplineBuilder::new()
        .clamped()
        .elements(wholes(&[1, 3, 7]))
        .knots(wholes(&[0, 1]))
        .constant::<3>()
        .build()
        .unwrap();
    assert_eq!(curve.degree(), 2);
    assert_eq!(curve.domain(), [whole(0), whole(1)]);
    assert_eq!(curve.gen(whole(0)), whole(1));
    assert_eq!(curve.gen(ratio(1, 2)), ratio(7, 2));
    assert_eq!(curve.gen(ratio(1, 4)), ratio(17, 8));
    assert_eq!(curve.gen(ratio(3, 4)), ratio(41, 8));
    assert_eq!(curve.gen(whole(1)), whole(7));
    assert_eq!(curve.gen(whole(-5)), whole(1));
    assert_eq!(curve.gen(whole(5)), whole(7));
    assert_eq!(
        curve.take(5),
        vec![whole(1), ratio(17, 8), ratio(7, 2), ratio(41, 8), whole(7)]
    );
}

#[test]
fn fixed_point_curves_begin_and_end_at_their_elements() {
    let curve = BSplineBuilder::new()
        .clamped()
        .elements(wholes(&[-2, 3, 7, 4, 9, 11]))
        .knots(vec![whole(1), ratio(7, 3), whole(4), whole(8)])
        .dynamic()
        .build()
        .unwrap();
    assert_eq!(curve.degree(), 3);
    assert_eq!(curve.gen(whole(1)), whole(-2));
    assert_eq!(curve.gen(whole(8)), whole(11));
}

#[test]
fn fixed_point_weights_of_one_change_nothing_at_all() {
    let elements = wholes(&[1, 3, 7, -2, 5]);
    let knots = vec![whole(0), ratio(1, 3), whole(2), whole(3)];
    let plain = BSplineBuilder::new()
        .clamped()
        .elements(elements.clone())
        .knots(knots.clone())
        .constant::<3>()
        .build()
        .unwrap();
    let weighted = BSplineBuilder::new()
        .clamped()
        .elements_with_weights(elements.iter().map(|e| (*e, whole(1))).collect())
        .knots(knots)
        .constant::<3>()
        .build()
        .unwrap();
    assert_eq!(plain.take(50), weighted.take(50));
    for raw in [0, 1, 77, UNIT / 3, UNIT, 2 * UNIT + 5, 3 * UNIT, i64::MAX, i64::MIN] {
        assert_eq!(plain.gen(Fixed { raw }), weighted.gen(Fixed { raw }));
    }
}

#[test]
fn fixed_point_pairs() {
    let pair = Homogeneous::weighted_or_infinity(whole(3), whole(2));
    assert_eq!(pair, Homogeneous { element: whole(6), rational: whole(2) });
    assert_eq!(pair.project(), whole(3));
    let direction = Homogeneous::weighted_or_infinity(whole(3), whole(0));
    assert_eq!(direction, Homogeneous { element: whole(3), rational: whole(0) });
    assert!(direction.is_infinite());
    // Projecting a direction divides by zero, which gives zero.
    assert_eq!(direction.project(), whole(0));
}
