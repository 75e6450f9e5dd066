//! A straight line.

use crate::model::{nudged, shifted, GradientDescent};
use crate::scalar::Scalar;
use vstd::prelude::*;
use vstd::string::StringExecFns;

verus! {

/// The line `slope * x + y_intercept`. Its parameters are the slope and the
/// intercept, in that order.
#[derive(Clone, Debug)]
pub struct Linear<S> {
    pub slope: S,
    pub y_intercept: S,
}

impl<S: Scalar> Default for Linear<S> {
    /// The line `1 * x + 0`.
    fn default() -> (r: Self)
        ensures
            r.slope == S::one_value(),
            r.y_intercept == S::zero_value(),
    {
        Linear { slope: S::one(), y_intercept: S::zero() }
    }
}

impl<S: Scalar> Linear<S> {
    /// The line written out, as in `2 * x + 1`.
    pub open spec fn description(&self) -> Seq<char> {
        self.slope.rendered() + " * x + "@ + self.y_intercept.rendered()
    }

    /// Writes the line out.
    pub fn describe(&self) -> (text: String)
        ensures
            text@ == self.description(),
    {
        let mut text = self.slope.render();
        text.append(" * x + ");
        text.append(self.y_intercept.render().as_str());
        text
    }
}

impl<S: Scalar> GradientDescent<S> for Linear<S> {
    open spec fn well_formed(&self) -> bool {
        true
    }

    open spec fn parameter_vector(&self) -> Seq<S> {
        seq![self.slope, self.y_intercept]
    }

    open spec fn evaluate(&self, parameters: Seq<S>, input: S) -> S {
        parameters[0].times(input).plus(parameters[1])
    }

    fn param_dimension(&self) -> (dimension: usize) {
        2
    }

    fn predict(&self, nudge: Option<(usize, S)>, input: &[S; 1]) -> (output: [S; 1]) {
        let (slope, y_intercept) = match nudge {
            None => (self.slope, self.y_intercept),
            Some((index, epsilon)) => if index == 0 {
                (self.slope.add(epsilon), self.y_intercept)
            } else {
                (self.slope, self.y_intercept.add(epsilon))
            },
        };
        assert(nudged(self.parameter_vector(), nudge) == seq![slope, y_intercept]);
        [slope.mul(input[0]).add(y_intercept)]
    }

    fn descend(&mut self, adjustments: &[S]) {
        self.slope = self.slope.add(adjustments[0]);
        self.y_intercept = self.y_intercept.add(adjustments[1]);
        assert(self.parameter_vector() == shifted(old(self).parameter_vector(), adjustments@));
    }
}

} // verus!
