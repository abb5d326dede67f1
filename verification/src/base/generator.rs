//! What it is to be a curve.
use crate::bspline::knots::{equidistant_knot, equidistant_step, Equidistant};
use crate::scalar::Real;
use vstd::prelude::*;

verus! {

/// Something that turns an input into an output, and always the same input
/// into the same output.
pub trait Generator<Input> {
    /// What is generated.
    type Output;

    /// The output that belongs to `input`.
    spec fn gen_spec(&self, input: Input) -> Self::Output;

    /// Generate the output that belongs to `input`.
    fn gen(&self, input: Input) -> (output: Self::Output)
        ensures
            output == self.gen_spec(input),
    ;
}

/// A generator that is meant to be read between the values it was given.
pub trait Interpolation<Input>: Generator<Input> {

}

/// The parameter of sample `index` out of `samples` evenly spaced ones that
/// begin at `domain.0` and end at `domain.1`.
pub open spec fn sample_parameter<R: Real>(domain: (R, R), samples: usize, index: usize) -> R {
    equidistant_knot(domain.0, equidistant_step(samples, domain.0, domain.1), index)
}

/// An interpolation over scalars that knows the interval it is defined on.
pub trait Curve<R: Real>: Interpolation<R> {
    /// The least and the greatest parameter of the curve.
    spec fn domain_spec(&self) -> (R, R);

    /// The domain of the curve, as `[least, greatest]`.
    fn domain(&self) -> (bounds: [R; 2])
        ensures
            bounds@ == seq![self.domain_spec().0, self.domain_spec().1],
    ;

    /// Sample the curve at `samples` evenly spaced parameters, the first at
    /// the start of its domain and the last at its end.
    fn take(&self, samples: usize) -> (values: Vec<Self::Output>)
        ensures
            values@.len() == samples,
            forall|i: int|
                0 <= i < samples ==> #[trigger] values@[i] == self.gen_spec(
                    sample_parameter(self.domain_spec(), samples, i as usize),
                ),
    {
        let bounds = self.domain();
        let steps = Equidistant::new(samples, bounds[0], bounds[1]);
        let mut values: Vec<Self::Output> = Vec::with_capacity(samples);
        let mut i: usize = 0;
        while i < samples
            invariant
                i <= samples,
                values@.len() == i,
                steps.start_spec() == self.domain_spec().0,
                steps.step_spec() == equidistant_step(
                    samples,
                    self.domain_spec().0,
                    self.domain_spec().1,
                ),
                forall|j: int|
                    0 <= j < i ==> #[trigger] values@[j] == self.gen_spec(
                        sample_parameter(self.domain_spec(), samples, j as usize),
                    ),
            decreases samples - i,
        {
            values.push(self.gen(steps.gen(i)));
            i += 1;
        }
        values
    }
}

} // verus!
