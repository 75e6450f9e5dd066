//! Exponential growth.

use crate::model::{nudged, shifted, GradientDescent};
use crate::scalar::Scalar;
use vstd::prelude::*;
use vstd::string::StringExecFns;

verus! {

/// The curve `base * growth ^ x`. Its parameters are the base and the
/// growth, in that order.
#[derive(Clone, Debug)]
pub struct Exponential<S> {
    pub base: S,
    pub growth: S,
}

impl<S: Scalar> Default for Exponential<S> {
    /// The curve `1 * 1 ^ x`.
    fn default() -> (r: Self)
        ensures
            r.base == S::one_value(),
            r.growth == S::one_value(),
    {
        Exponential { base: S::one(), growth: S::one() }
    }
}

impl<S: Scalar> Exponential<S> {
    /// The curve written out, as in `3 * 2 ^ x`.
    pub open spec fn description(&self) -> Seq<char> {
        self.base.rendered() + " * "@ + self.growth.rendered() + " ^ x"@
    }

    /// Writes the curve out.
    pub fn describe(&self) -> (text: String)
        ensures
            text@ == self.description(),
    {
        let mut text = self.base.render();
        text.append(" * ");
        text.append(self.growth.render().as_str());
        text.append(" ^ x");
        text
    }
}

impl<S: Scalar> GradientDescent<S> for Exponential<S> {
    open spec fn well_formed(&self) -> bool {
        true
    }

    open spec fn parameter_vector(&self) -> Seq<S> {
        seq![self.base, self.growth]
    }

    open spec fn evaluate(&self, parameters: Seq<S>, input: S) -> S {
        parameters[0].times(parameters[1].raised(input))
    }

    fn param_dimension(&self) -> (dimension: usize) {
        2
    }

    fn predict(&self, nudge: Option<(usize, S)>, input: &[S; 1]) -> (output: [S; 1]) {
        let (base, growth) = match nudge {
            None => (self.base, self.growth),
            Some((index, epsilon)) => if index == 0 {
                (self.base.add(epsilon), self.growth)
            } else {
                (self.base, self.growth.add(epsilon))
            },
        };
        assert(nudged(self.parameter_vector(), nudge) == seq![base, growth]);
        [base.mul(growth.powf(input[0]))]
    }

    fn descend(&mut self, adjustments: &[S]) {
        self.base = self.base.add(adjustments[0]);
        self.growth = self.growth.add(adjustments[1]);
        assert(self.parameter_vector() == shifted(old(self).parameter_vector(), adjustments@));
    }
}

} // verus!
