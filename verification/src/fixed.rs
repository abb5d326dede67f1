//! A scalar that does not round where it matters: fixed point.
//!
//! [`Fixed`] keeps a number as a 64-bit integer that counts units of
//! `2^-32`. Sums and differences wrap around, products and quotients are cut
//! off towards zero and kept within range, and dividing by zero gives zero.
//! The same operands give the same result on every machine.
//!
//! Fixed point obeys all the laws of exact arithmetic that the theorems
//! about curves ask for: see [`lemma_fixed_is_exact`].
use crate::base::generator::Generator;
use crate::base::merge::{exact_merge, exact_scale, Merge, Scale};
use crate::base::space::Space;
use crate::bspline::knots::buffered;
use crate::bspline::laws::{lemma_clamped_ends, lemma_unit_weights};
use crate::bspline::BSpline;
use crate::scalar::{exact_quotients, exact_unit, lerp, lerp_spec, ordered, Real};
use crate::weights::{lifted, Homogeneous, Weighted};
use vstd::prelude::*;

verus! {

/// The integer that stands for one.
pub const UNIT: i64 = 4294967296;

/// A fixed-point number: `raw` units of `2^-32`.
#[derive(Debug, Clone, Copy, PartialEq, Eq, Structural, Default)]
pub struct Fixed {
    /// The number, in units of `2^-32`.
    pub raw: i64,
}

/// `value`, kept within the range of `i64`.
pub open spec fn within(value: int) -> i64 {
    if value > i64::MAX {
        i64::MAX
    } else if value < i64::MIN {
        i64::MIN
    } else {
        value as i64
    }
}

/// The quotient of `p` by `q`, cut off towards zero.
pub open spec fn quotient(p: int, q: int) -> int {
    if q == 0 {
        0
    } else if (p >= 0) == (q > 0) {
        abs(p) / abs(q)
    } else {
        -(abs(p) / abs(q))
    }
}

/// The absolute value.
pub open spec fn abs(x: int) -> int {
    if x < 0 {
        -x
    } else {
        x
    }
}

/// Computes [`quotient`] and keeps it within the range of `i64`.
fn divide(p: i128, q: i128) -> (r: i64)
    requires
        -0x4000_0000_0000_0000_0000_0000_0000_0000 <= p <= 0x4000_0000_0000_0000_0000_0000_0000_0000,
        i64::MIN <= q <= i64::MAX,
    ensures
        r == within(quotient(p as int, q as int)),
{
    if q == 0 {
        return 0;
    }
    let a: u128 = if p < 0 {
        (-p) as u128
    } else {
        p as u128
    };
    let b: u128 = if q < 0 {
        (-q) as u128
    } else {
        q as u128
    };
    let magnitude: u128 = a / b;
    if (p >= 0) == (q > 0) {
        if magnitude > i64::MAX as u128 {
            i64::MAX
        } else {
            magnitude as i64
        }
    } else if magnitude > i64::MAX as u128 {
        i64::MIN
    } else {
        -(magnitude as i64)
    }
}

impl Fixed {
    /// The fixed-point number that stands for the whole number `n`, or the
    /// greatest fixed-point number where `n` is beyond it.
    pub fn whole(n: i32) -> (r: Self)
        ensures
            r.raw == n * UNIT,
    {
        proof {
            assert(-0x8000_0000 * 4294967296 <= n * 4294967296 <= 0x7fff_ffff * 4294967296)
                by (nonlinear_arith)
                requires
                    -0x8000_0000 <= n <= 0x7fff_ffff,
            ;
        }
        Fixed { raw: (n as i64) * UNIT }
    }
}

impl Real for Fixed {
    open spec fn zero_spec() -> Self {
        Fixed { raw: 0 }
    }

    open spec fn one_spec() -> Self {
        Fixed { raw: UNIT }
    }

    open spec fn from_usize_spec(n: usize) -> Self {
        Fixed { raw: within(n * UNIT) }
    }

    open spec fn plus_spec(self, rhs: Self) -> Self {
        Fixed { raw: self.raw.wrapping_add(rhs.raw) }
    }

    open spec fn minus_spec(self, rhs: Self) -> Self {
        Fixed { raw: self.raw.wrapping_sub(rhs.raw) }
    }

    open spec fn times_spec(self, rhs: Self) -> Self {
        Fixed { raw: within(quotient(self.raw * rhs.raw, UNIT as int)) }
    }

    open spec fn over_spec(self, rhs: Self) -> Self {
        Fixed { raw: within(quotient(self.raw * UNIT, rhs.raw as int)) }
    }

    open spec fn lt_spec(self, rhs: Self) -> bool {
        self.raw < rhs.raw
    }

    open spec fn is_zero_spec(self) -> bool {
        self.raw == 0
    }

    fn zero() -> (r: Self) {
        Fixed { raw: 0 }
    }

    fn one() -> (r: Self) {
        Fixed { raw: UNIT }
    }

    fn from_usize(n: usize) -> (r: Self) {
        if n > 0x7fff_ffff {
            proof {
                assert(n * 4294967296 > i64::MAX) by (nonlinear_arith)
                    requires
                        n > 0x7fff_ffff,
                ;
            }
            Fixed { raw: i64::MAX }
        } else {
            proof {
                assert(0 <= n * 4294967296 <= 0x7fff_ffff * 4294967296) by (nonlinear_arith)
                    requires
                        0 <= n <= 0x7fff_ffff,
                ;
            }
            Fixed { raw: (n as i64) * UNIT }
        }
    }

    fn plus(self, rhs: Self) -> (r: Self) {
        Fixed { raw: self.raw.wrapping_add(rhs.raw) }
    }

    fn minus(self, rhs: Self) -> (r: Self) {
        Fixed { raw: self.raw.wrapping_sub(rhs.raw) }
    }

    fn times(self, rhs: Self) -> (r: Self) {
        proof {
            lemma_product_bound(self.raw as int, rhs.raw as int);
        }
        let product: i128 = (self.raw as i128) * (rhs.raw as i128);
        Fixed { raw: divide(product, UNIT as i128) }
    }

    fn over(self, rhs: Self) -> (r: Self) {
        proof {
            lemma_product_bound(self.raw as int, UNIT as int);
        }
        let product: i128 = (self.raw as i128) * (UNIT as i128);
        Fixed { raw: divide(product, rhs.raw as i128) }
    }

    fn lt(self, rhs: Self) -> (b: bool) {
        self.raw < rhs.raw
    }

    fn is_zero(self) -> (b: bool) {
        self.raw == 0
    }
}

/// The product of two 64-bit integers is within 127 bits.
proof fn lemma_product_bound(a: int, b: int)
    requires
        i64::MIN <= a <= i64::MAX,
        i64::MIN <= b <= i64::MAX,
    ensures
        -0x4000_0000_0000_0000_0000_0000_0000_0000 <= a * b
            <= 0x4000_0000_0000_0000_0000_0000_0000_0000,
{
    assert(-0x4000_0000_0000_0000_0000_0000_0000_0000 <= a * b
        <= 0x4000_0000_0000_0000_0000_0000_0000_0000) by (nonlinear_arith)
        requires
            -0x8000_0000_0000_0000 <= a <= 0x7fff_ffff_ffff_ffff,
            -0x8000_0000_0000_0000 <= b <= 0x7fff_ffff_ffff_ffff,
    ;
}

impl Merge<Fixed> for Fixed {
    open spec fn merge_spec(self, to: Self, factor: Fixed) -> Self {
        lerp_spec(self, to, factor)
    }

    fn merge(self, to: Self, factor: Fixed) -> (r: Self) {
        lerp(self, to, factor)
    }
}

impl Scale<Fixed> for Fixed {
    open spec fn scale_spec(self, factor: Fixed) -> Self {
        self.times_spec(factor)
    }

    open spec fn unscale_spec(self, divisor: Fixed) -> Self {
        self.over_spec(divisor)
    }

    fn scale(self, factor: Fixed) -> (r: Self) {
        self.times(factor)
    }

    fn unscale(self, divisor: Fixed) -> (r: Self) {
        self.over(divisor)
    }
}

/// A multiple of `u` divided by `u` is the multiplier.
proof fn lemma_quotient_of_multiple(a: int, u: int)
    requires
        u != 0,
    ensures
        quotient(a * u, u) == a,
        quotient(u * a, u) == a,
{
    assert(abs(a * u) == abs(a) * abs(u)) by (nonlinear_arith);
    assert((abs(a) * abs(u)) / abs(u) == abs(a)) by (nonlinear_arith)
        requires
            abs(u) > 0,
            abs(a) >= 0,
    ;
    assert(a > 0 ==> ((a * u >= 0) == (u > 0))) by (nonlinear_arith)
        requires
            u != 0,
    ;
    assert(a < 0 ==> ((a * u >= 0) != (u > 0))) by (nonlinear_arith)
        requires
            u != 0,
    ;
    assert(a == 0 ==> a * u == 0) by (nonlinear_arith);
    assert(u * a == a * u) by (nonlinear_arith);
}

/// Fixed point is ordered and exact: it obeys every law that the theorems
/// about curves take as a hypothesis, as a scalar and as an element.
pub proof fn lemma_fixed_is_exact()
    ensures
        ordered::<Fixed>(),
        exact_quotients::<Fixed>(),
        exact_unit::<Fixed>(),
        exact_merge::<Fixed, Fixed>(),
        exact_scale::<Fixed, Fixed>(),
{
    assert forall|x: Fixed| !x.is_zero_spec() implies #[trigger] Fixed::zero_spec().over_spec(x)
        == Fixed::zero_spec() by {
        lemma_quotient_of_multiple(0, x.raw as int);
        assert(0 * UNIT == 0 * x.raw);
    }
    assert forall|x: Fixed| !x.is_zero_spec() implies #[trigger] x.over_spec(x)
        == Fixed::one_spec() by {
        lemma_quotient_of_multiple(UNIT as int, x.raw as int);
    }
    assert forall|a: Fixed| #[trigger] a.times_spec(Fixed::one_spec()) == a by {
        lemma_quotient_of_multiple(a.raw as int, UNIT as int);
    }
    assert forall|a: Fixed| #[trigger] Fixed::one_spec().times_spec(a) == a by {
        lemma_quotient_of_multiple(a.raw as int, UNIT as int);
    }
    assert forall|a: Fixed| #[trigger] a.times_spec(Fixed::zero_spec()) == Fixed::zero_spec() by {
        lemma_quotient_of_multiple(0, UNIT as int);
        assert(a.raw * 0 == 0 * UNIT) by (nonlinear_arith);
    }
    assert forall|a: Fixed| #[trigger] a.over_spec(Fixed::one_spec()) == a by {
        lemma_quotient_of_multiple(a.raw as int, UNIT as int);
    }
    assert forall|factor: Fixed| #[trigger]
        lerp_spec(Fixed::one_spec(), Fixed::one_spec(), factor) == Fixed::one_spec() by {
        let rest = Fixed::one_spec().minus_spec(factor);
        assert(Fixed::one_spec().times_spec(rest) == rest);
        assert(Fixed::one_spec().times_spec(factor) == factor);
    }
    assert forall|a: Fixed, b: Fixed| #[trigger]
        a.merge_spec(b, Fixed::zero_spec()) == a by {
        assert(Fixed::one_spec().minus_spec(Fixed::zero_spec()) == Fixed::one_spec());
        assert(a.times_spec(Fixed::one_spec()) == a);
        assert(b.times_spec(Fixed::zero_spec()) == Fixed::zero_spec());
    }
    assert forall|a: Fixed, b: Fixed| #[trigger]
        a.merge_spec(b, Fixed::one_spec()) == b by {
        assert(Fixed::one_spec().minus_spec(Fixed::one_spec()) == Fixed::zero_spec());
        assert(a.times_spec(Fixed::zero_spec()) == Fixed::zero_spec());
        assert(b.times_spec(Fixed::one_spec()) == b);
    }
}

/// A fixed-point curve built in clamped mode, from stored knots that
/// increase at the start and at the end, begins at its first element and
/// ends at its last.
pub proof fn lemma_fixed_clamped_ends<S: Space<Fixed>>(
    curve: BSpline<Fixed, Fixed, S>,
    core: Seq<Fixed>,
)
    requires
        curve.wf(),
        core.len() >= 2,
        curve.knots_spec() == buffered(core, (curve.degree_spec() - 1) as nat),
        core[0].raw < core[1].raw,
        core[core.len() - 2].raw < core[core.len() - 1].raw,
    ensures
        curve.gen_spec(core[0]) == curve.elements_spec()[0],
        curve.gen_spec(core[core.len() - 1]) == curve.elements_spec()[curve.elements_spec().len()
            - 1],
{
    lemma_fixed_is_exact();
    lemma_clamped_ends(curve, core);
}

/// A weighted fixed-point curve whose weights are all one agrees with the
/// curve without weights at every parameter.
pub proof fn lemma_fixed_unit_weights<S1: Space<Fixed>, S2: Space<Homogeneous<Fixed, Fixed>>>(
    plain: BSpline<Fixed, Fixed, S1>,
    weighted: Weighted<BSpline<Fixed, Homogeneous<Fixed, Fixed>, S2>>,
    t: Fixed,
)
    requires
        plain.wf(),
        weighted.inner_spec().wf(),
        weighted.inner_spec().knots_spec() == plain.knots_spec(),
        weighted.inner_spec().elements_spec() == lifted(
            plain.elements_spec().map_values(|element: Fixed| (element, Fixed::one_spec())),
        ),
    ensures
        weighted.gen_spec(t) == plain.gen_spec(t),
{
    lemma_fixed_is_exact();
    lemma_unit_weights(plain, weighted, t);
}

} // verus!
