//! What holds of every curve.
//!
//! The theorems about values at the ends of the domain and about weights
//! need arithmetic that does not round. They say so: each takes the laws it
//! uses as a hypothesis ([`exact_quotients`], [`exact_merge`],
//! [`exact_scale`], [`exact_unit`]).
use crate::base::generator::{Curve, Generator};
use crate::base::merge::{exact_merge, exact_scale, Merge, Scale};
use crate::base::space::Space;
use crate::bspline::builder::dynamic_capacity;
use crate::bspline::error::BSplineError;
use crate::bspline::knots::{buffered, deleted, descends, is_sorted};
use crate::bspline::{
    alpha_spec,
    blend_spec,
    de_boor_spec,
    first_above,
    is_construction_error,
    span_spec,
    BSpline,
};
use crate::scalar::{clamp_spec, exact_quotients, exact_unit, lerp_spec, ordered, Real};
use crate::weights::{lifted, Homogeneous, Weighted};
use vstd::prelude::*;

verus! {

/// The span search finds the first knot greater than `t`: the result lies
/// between `from` and `to`, no knot from `from` up to it is greater than
/// `t`, and unless it is `to`, the knot at it is greater than `t`.
pub proof fn lemma_first_above<R: Real>(knots: Seq<R>, t: R, from: int, to: int)
    requires
        from <= to,
    ensures
        from <= first_above(knots, t, from, to) <= to,
        forall|i: int|
            from <= i < first_above(knots, t, from, to) ==> !t.lt_spec(#[trigger] knots[i]),
        first_above(knots, t, from, to) < to ==> t.lt_spec(
            knots[first_above(knots, t, from, to)],
        ),
    decreases to - from,
{
    if from < to && !t.lt_spec(knots[from]) {
        lemma_first_above(knots, t, from + 1, to);
    }
}

/// The degree of a curve built in open mode: with `n` elements and `m`
/// knots as given, `m - n + 1`.
pub proof fn lemma_open_degree<R: Real, T: Merge<R>, S: Space<T>>(
    curve: BSpline<R, T, S>,
    knots: Seq<R>,
)
    requires
        curve.wf(),
        curve.knots_spec() == knots,
    ensures
        curve.degree_spec() == knots.len() - curve.elements_spec().len() + 1,
{
}

/// The degree of a curve built in clamped mode: with `n` elements and `l`
/// stored knots, whose ends count `n - l` more times each, `n - l + 1`.
pub proof fn lemma_clamped_degree<R: Real, T: Merge<R>, S: Space<T>>(
    curve: BSpline<R, T, S>,
    core: Seq<R>,
)
    requires
        curve.wf(),
        core.len() <= curve.elements_spec().len(),
        curve.knots_spec() == buffered(core, (curve.elements_spec().len() - core.len()) as nat),
    ensures
        curve.degree_spec() == curve.elements_spec().len() - core.len() + 1,
{
}

/// The degree of a curve built in legacy mode: with `n` elements and `m`
/// knots as given, in the classical convention, `m - n - 1`.
pub proof fn lemma_legacy_degree<R: Real, T: Merge<R>, S: Space<T>>(
    curve: BSpline<R, T, S>,
    knots: Seq<R>,
)
    requires
        curve.wf(),
        knots.len() >= 2,
        curve.knots_spec() == deleted(knots),
    ensures
        curve.degree_spec() == knots.len() - curve.elements_spec().len() - 1,
{
}

/// The degree of a curve that was built is at least one, there are at
/// least two elements and more elements than the degree, the logical knots
/// are as many as the elements and the degree together, less one, and the
/// workspace holds the degree plus one.
pub proof fn lemma_degree<R: Real, T: Merge<R>, S: Space<T>>(curve: BSpline<R, T, S>)
    requires
        curve.wf(),
    ensures
        curve.degree_spec() >= 1,
        curve.elements_spec().len() >= 2,
        curve.elements_spec().len() >= curve.degree_spec() + 1,
        curve.knots_spec().len() == curve.elements_spec().len() + curve.degree_spec() - 1,
        curve.space_spec().len_spec() >= curve.degree_spec() + 1,
{
}

/// A clamped knot sequence begins with its first stored knot `n + 1` times
/// and ends with its last stored knot `n + 1` times; between them stand the
/// stored knots.
pub proof fn lemma_buffered<R>(core: Seq<R>, n: nat)
    requires
        core.len() >= 1,
    ensures
        buffered(core, n).len() == core.len() + 2 * n,
        forall|i: int| 0 <= i <= n ==> #[trigger] buffered(core, n)[i] == core[0],
        forall|i: int|
            core.len() - 1 + n <= i < core.len() + 2 * n ==> #[trigger] buffered(core, n)[i]
                == core[core.len() - 1],
        forall|i: int| 0 <= i < core.len() ==> #[trigger] buffered(core, n)[i + n] == core[i],
{
}

/// The legacy convention and the clamped convention meet: classical knots
/// that are the stored knots `core` with each end repeated `n + 1` more
/// times give, as a legacy curve, the logical knots of the clamped curve
/// that repeats the ends of `core` `n` more times.
pub proof fn lemma_legacy_is_clamped<R>(core: Seq<R>, n: nat)
    requires
        core.len() >= 1,
    ensures
        deleted(buffered(core, n + 1)) == buffered(core, n),
{
    assert(deleted(buffered(core, n + 1)) =~= buffered(core, n));
}

/// Curves with the same elements, the same logical knots and the same
/// degree are the same curve, whatever boundary mode and workspace they
/// were built with.
pub proof fn lemma_same_curve<R: Real, T: Merge<R>, S1: Space<T>, S2: Space<T>>(
    a: BSpline<R, T, S1>,
    b: BSpline<R, T, S2>,
    t: R,
)
    requires
        a.wf(),
        b.wf(),
        a.elements_spec() == b.elements_spec(),
        a.knots_spec() == b.knots_spec(),
    ensures
        a.gen_spec(t) == b.gen_spec(t),
        a.domain_spec() == b.domain_spec(),
{
}

/// A parameter outside the domain gives the point at the nearest end of the
/// domain.
pub proof fn lemma_gen_clamps<R: Real, T: Merge<R>, S: Space<T>>(curve: BSpline<R, T, S>, t: R)
    requires
        curve.wf(),
    ensures
        curve.gen_spec(t) == de_boor_spec(
            curve.elements_spec(),
            curve.knots_spec(),
            curve.degree_spec(),
            clamp_spec(t, curve.domain_start(), curve.domain_end()),
        ),
        t.lt_spec(curve.domain_start()) ==> curve.gen_spec(t) == de_boor_spec(
            curve.elements_spec(),
            curve.knots_spec(),
            curve.degree_spec(),
            curve.domain_start(),
        ),
        !t.lt_spec(curve.domain_start()) && curve.domain_end().lt_spec(t) ==> curve.gen_spec(t)
            == de_boor_spec(
            curve.elements_spec(),
            curve.knots_spec(),
            curve.degree_spec(),
            curve.domain_end(),
        ),
{
}

/// The workspace that `dynamic` chooses is never what keeps a curve from
/// being built.
pub proof fn lemma_dynamic_suffices<R: Real>(elements: usize, knots: Seq<R>, error: BSplineError)
    requires
        knots.len() <= usize::MAX,
        is_construction_error(
            elements,
            knots,
            dynamic_capacity(elements as nat, knots.len()),
            error,
        ),
    ensures
        !(error matches BSplineError::TooSmallWorkspace { .. }),
{
}

/// In knots that are in non-decreasing order, no knot is greater than a
/// knot after it.
pub proof fn lemma_sorted<R: Real>(knots: Seq<R>, i: int, j: int)
    requires
        ordered::<R>(),
        is_sorted(knots),
        0 <= i <= j < knots.len(),
    ensures
        !knots[j].lt_spec(knots[i]),
    decreases j - i,
{
    if i < j {
        lemma_sorted(knots, i, j - 1);
        assert(!descends(knots, j - 1));
    }
}

/// The span of `t` parts the knots: for a `t` that is not before the
/// domain, no knot before the span is greater than `t`, and unless the span
/// is the last one, every knot from the span on is greater than `t`. The
/// knot before the span is thus the last knot that `t` has reached.
pub proof fn lemma_span<R: Real, T: Merge<R>, S: Space<T>>(curve: BSpline<R, T, S>, t: R)
    requires
        curve.wf(),
        ordered::<R>(),
    ensures
        curve.degree_spec() <= span_spec(curve.knots_spec(), curve.degree_spec(), t)
            <= curve.elements_spec().len() - 1,
        !t.lt_spec(curve.domain_start()) ==> forall|i: int|
            0 <= i < span_spec(curve.knots_spec(), curve.degree_spec(), t) ==> !t.lt_spec(
                #[trigger] curve.knots_spec()[i],
            ),
        span_spec(curve.knots_spec(), curve.degree_spec(), t) < curve.elements_spec().len() - 1
            ==> forall|i: int|
            span_spec(curve.knots_spec(), curve.degree_spec(), t) <= i < curve.knots_spec().len()
                ==> t.lt_spec(#[trigger] curve.knots_spec()[i]),
{
    let knots = curve.knots_spec();
    let degree = curve.degree_spec();
    let span = span_spec(knots, degree, t);
    lemma_first_above(knots, t, degree, knots.len() - degree);
    if !t.lt_spec(curve.domain_start()) {
        assert forall|i: int| 0 <= i < span implies !t.lt_spec(#[trigger] knots[i]) by {
            if i < degree {
                lemma_sorted(knots, i, degree - 1);
            }
        }
    }
    if span < knots.len() - degree {
        assert forall|i: int| span <= i < knots.len() implies t.lt_spec(#[trigger] knots[i]) by {
            lemma_sorted(knots, span, i);
        }
    }
}

/// Where every factor on the way is zero, slot `r` after pass `r` holds
/// what slot zero held before the first pass.
proof fn lemma_blend_keeps_first<R: Real, T: Merge<R>>(
    elements: Seq<T>,
    knots: Seq<R>,
    degree: int,
    span: int,
    t: R,
    r: int,
)
    requires
        exact_merge::<R, T>(),
        0 <= r,
        forall|q: int|
            1 <= q <= r ==> #[trigger] alpha_spec(knots, degree, span, t, q, q) == R::zero_spec(),
    ensures
        blend_spec(elements, knots, degree, span, t, r, r) == elements[span - degree],
    decreases r,
{
    if r > 0 {
        lemma_blend_keeps_first(elements, knots, degree, span, t, r - 1);
        assert(alpha_spec(knots, degree, span, t, r, r) == R::zero_spec());
    }
}

/// Where every factor on the way is one, the last slot holds after every
/// pass what it held before the first.
proof fn lemma_blend_keeps_last<R: Real, T: Merge<R>>(
    elements: Seq<T>,
    knots: Seq<R>,
    degree: int,
    span: int,
    t: R,
    r: int,
)
    requires
        exact_merge::<R, T>(),
        0 <= r,
        forall|q: int|
            1 <= q <= r ==> #[trigger] alpha_spec(knots, degree, span, t, q, degree)
                == R::one_spec(),
    ensures
        blend_spec(elements, knots, degree, span, t, r, degree) == elements[span],
    decreases r,
{
    if r > 0 {
        lemma_blend_keeps_last(elements, knots, degree, span, t, r - 1);
        assert(alpha_spec(knots, degree, span, t, r, degree) == R::one_spec());
    }
}

/// At the start of its domain a curve is at its first element, where the
/// start knot counts exactly as often as the degree: the first `degree`
/// logical knots are the same and the knot after them is greater.
///
/// The curve is then clamped at its start, as every curve built in clamped
/// mode from stored knots that begin with an increase is. The arithmetic
/// has to be exact.
pub proof fn lemma_starts_at_first_element<R: Real, T: Merge<R>, S: Space<T>>(
    curve: BSpline<R, T, S>,
)
    requires
        curve.wf(),
        ordered::<R>(),
        exact_quotients::<R>(),
        exact_merge::<R, T>(),
        forall|j: int|
            0 <= j < curve.degree_spec() ==> #[trigger] curve.knots_spec()[j]
                == curve.domain_start(),
        curve.degree_spec() < curve.knots_spec().len() - curve.degree_spec()
            ==> curve.domain_start().lt_spec(curve.knots_spec()[curve.degree_spec()]),
    ensures
        curve.gen_spec(curve.domain_start()) == curve.elements_spec()[0],
{
    let knots = curve.knots_spec();
    let degree = curve.degree_spec();
    let t = curve.domain_start();
    let span = span_spec(knots, degree, t);
    lemma_first_above(knots, t, degree, knots.len() - degree);
    lemma_sorted(knots, degree - 1, knots.len() - degree);
    assert(span == degree);
    assert forall|q: int| 1 <= q <= degree implies #[trigger] alpha_spec(
        knots,
        degree,
        span,
        t,
        q,
        q,
    ) == R::zero_spec() by {
        let low = knots[span - degree + q - 1];
        let high = knots[span + q - q];
        assert(low == t);
        let width = high.minus_spec(low);
        if !width.is_zero_spec() {
            assert(t.minus_spec(t) == R::zero_spec());
            assert(R::zero_spec().over_spec(width) == R::zero_spec());
        }
    }
    lemma_blend_keeps_first(curve.elements_spec(), knots, degree, span, t, degree);
}

/// At the end of its domain a curve is at its last element, where the end
/// knot counts exactly as often as the degree: the last `degree` logical
/// knots are the same and the knot before them differs from them.
///
/// The curve is then clamped at its end, as every curve built in clamped
/// mode from stored knots that end with an increase is. The arithmetic has
/// to be exact.
pub proof fn lemma_ends_at_last_element<R: Real, T: Merge<R>, S: Space<T>>(
    curve: BSpline<R, T, S>,
)
    requires
        curve.wf(),
        ordered::<R>(),
        exact_quotients::<R>(),
        exact_merge::<R, T>(),
        forall|j: int|
            curve.knots_spec().len() - curve.degree_spec() <= j < curve.knots_spec().len()
                ==> #[trigger] curve.knots_spec()[j] == curve.domain_end(),
        !curve.domain_end().minus_spec(
            curve.knots_spec()[curve.knots_spec().len() - curve.degree_spec() - 1],
        ).is_zero_spec(),
    ensures
        curve.gen_spec(curve.domain_end()) == curve.elements_spec()[curve.elements_spec().len()
            - 1],
{
    let knots = curve.knots_spec();
    let degree = curve.degree_spec();
    let t = curve.domain_end();
    let span = span_spec(knots, degree, t);
    lemma_first_above(knots, t, degree, knots.len() - degree);
    lemma_sorted(knots, degree - 1, knots.len() - degree);
    assert forall|i: int| degree <= i < knots.len() - degree implies !t.lt_spec(
        #[trigger] knots[i],
    ) by {
        lemma_sorted(knots, i, knots.len() - degree);
    }
    assert(span == knots.len() - degree);
    assert(clamp_spec(t, curve.domain_start(), t) == t);
    assert forall|q: int| 1 <= q <= degree implies #[trigger] alpha_spec(
        knots,
        degree,
        span,
        t,
        q,
        degree,
    ) == R::one_spec() by {
        let low = knots[span - degree + degree - 1];
        let high = knots[span + degree - q];
        assert(high == t);
        let width = high.minus_spec(low);
        assert(!width.is_zero_spec());
        assert(width.over_spec(width) == R::one_spec());
    }
    lemma_blend_keeps_last(curve.elements_spec(), knots, degree, span, t, degree);
}

/// A curve built in clamped mode begins at its first element and ends at
/// its last.
///
/// `core` are the stored knots. They have to increase at the start, unless
/// there are only two of them, and at the end. The arithmetic has to be
/// exact.
pub proof fn lemma_clamped_ends<R: Real, T: Merge<R>, S: Space<T>>(
    curve: BSpline<R, T, S>,
    core: Seq<R>,
)
    requires
        curve.wf(),
        ordered::<R>(),
        exact_quotients::<R>(),
        exact_merge::<R, T>(),
        core.len() >= 2,
        curve.knots_spec() == buffered(core, (curve.degree_spec() - 1) as nat),
        core.len() > 2 ==> core[0].lt_spec(core[1]),
        !core[core.len() - 1].minus_spec(core[core.len() - 2]).is_zero_spec(),
    ensures
        curve.domain_spec() == (core[0], core[core.len() - 1]),
        curve.gen_spec(core[0]) == curve.elements_spec()[0],
        curve.gen_spec(core[core.len() - 1]) == curve.elements_spec()[curve.elements_spec().len()
            - 1],
{
    let n = curve.degree_spec() - 1;
    let knots = curve.knots_spec();
    lemma_buffered(core, n as nat);
    assert(knots[n] == core[0]);
    assert(knots[core.len() - 1 + n] == core[core.len() - 1]);
    assert(knots[(core.len() - 2) + n] == core[core.len() - 2]);
    assert(knots[1 + n] == core[1]);
    lemma_starts_at_first_element(curve);
    lemma_ends_at_last_element(curve);
}

/// De Boor's recurrence over elements that all carry the weight one is the
/// recurrence over the elements themselves, still carrying the weight one.
proof fn lemma_blend_of_unit_weights<R: Real, E: Merge<R>>(
    elements: Seq<E>,
    pairs: Seq<Homogeneous<E, R>>,
    knots: Seq<R>,
    degree: int,
    span: int,
    t: R,
    r: int,
    i: int,
)
    requires
        exact_unit::<R>(),
        pairs.len() == elements.len(),
        forall|j: int|
            0 <= j < elements.len() ==> #[trigger] pairs[j] == (Homogeneous {
                element: elements[j],
                rational: R::one_spec(),
            }),
        0 <= r <= i,
        0 <= span - degree + i - r,
        span - degree + i < elements.len(),
    ensures
        blend_spec(pairs, knots, degree, span, t, r, i) == (Homogeneous {
            element: blend_spec(elements, knots, degree, span, t, r, i),
            rational: R::one_spec(),
        }),
    decreases r,
{
    if r > 0 {
        lemma_blend_of_unit_weights(elements, pairs, knots, degree, span, t, r - 1, i - 1);
        lemma_blend_of_unit_weights(elements, pairs, knots, degree, span, t, r - 1, i);
        let factor = alpha_spec(knots, degree, span, t, r, i);
        assert(lerp_spec(R::one_spec(), R::one_spec(), factor) == R::one_spec());
    }
}

/// A weighted curve whose weights are all one is the curve without
/// weights: the two agree at every parameter. The arithmetic has to be
/// exact.
pub proof fn lemma_unit_weights<
    R: Real,
    E: Merge<R> + Scale<R>,
    S1: Space<E>,
    S2: Space<Homogeneous<E, R>>,
>(plain: BSpline<R, E, S1>, weighted: Weighted<BSpline<R, Homogeneous<E, R>, S2>>, t: R)
    requires
        plain.wf(),
        weighted.inner_spec().wf(),
        exact_unit::<R>(),
        exact_scale::<R, E>(),
        weighted.inner_spec().knots_spec() == plain.knots_spec(),
        weighted.inner_spec().elements_spec() == lifted(
            plain.elements_spec().map_values(|element: E| (element, R::one_spec())),
        ),
    ensures
        weighted.gen_spec(t) == plain.gen_spec(t),
{
    let elements = plain.elements_spec();
    let pairs = weighted.inner_spec().elements_spec();
    let knots = plain.knots_spec();
    let degree = plain.degree_spec();
    let at = clamp_spec(t, plain.domain_start(), plain.domain_end());
    let span = span_spec(knots, degree, at);
    lemma_first_above(knots, at, degree, knots.len() - degree);
    assert(pairs.len() == elements.len());
    assert forall|j: int| 0 <= j < elements.len() implies #[trigger] pairs[j] == (Homogeneous {
        element: elements[j],
        rational: R::one_spec(),
    }) by {
        assert(elements[j].scale_spec(R::one_spec()) == elements[j]);
    }
    lemma_blend_of_unit_weights(elements, pairs, knots, degree, span, at, degree, degree);
    let point = blend_spec(elements, knots, degree, span, at, degree, degree);
    assert(point.unscale_spec(R::one_spec()) == point);
}

} // verus!
