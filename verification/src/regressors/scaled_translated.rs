//! A given function, moved and stretched.

use crate::function::{image, is_function};
use crate::model::{nudged, shifted, GradientDescent};
use crate::scalar::Scalar;
use vstd::prelude::*;
use vstd::string::StringExecFns;

verus! {

/// The curve `function((x - x_0) / width) * height + y_0`. Its parameters
/// are `x_0`, `y_0`, `width` and `height`, in that order; the function
/// itself is given and stays as it is.
#[derive(Debug)]
pub struct ScaledTranslatedEquation<S, F> {
    pub x_0: S,
    pub y_0: S,
    pub width: S,
    pub height: S,
    pub function: F,
}

impl<S: Scalar, F> ScaledTranslatedEquation<S, F> {
    /// The function as it is: not moved, and of width and height one.
    pub fn new(function: F) -> (r: Self)
        ensures
            r.x_0 == S::zero_value(),
            r.y_0 == S::zero_value(),
            r.width == S::one_value(),
            r.height == S::one_value(),
            r.function == function,
    {
        ScaledTranslatedEquation {
            x_0: S::zero(),
            y_0: S::zero(),
            width: S::one(),
            height: S::one(),
            function,
        }
    }
}

impl<S: Scalar, F> ScaledTranslatedEquation<S, F> {
    /// The curve written out, with `f` for the function, as in
    /// `f((x - 1) / 2) * 3 + 4`.
    pub open spec fn description(&self) -> Seq<char> {
        "f((x - "@ + self.x_0.rendered() + ") / "@ + self.width.rendered() + ") * "@
            + self.height.rendered() + " + "@ + self.y_0.rendered()
    }

    /// Writes the curve out.
    pub fn describe(&self) -> (text: String)
        ensures
            text@ == self.description(),
    {
        let mut text = String::from_str("f((x - ");
        text.append(self.x_0.render().as_str());
        text.append(") / ");
        text.append(self.width.render().as_str());
        text.append(") * ");
        text.append(self.height.render().as_str());
        text.append(" + ");
        text.append(self.y_0.render().as_str());
        text
    }
}

impl<S: Scalar, F: Default> Default for ScaledTranslatedEquation<S, F> {
    /// The default function as it is: not moved, and of width and height
    /// one.
    fn default() -> (r: Self)
        ensures
            r.x_0 == S::zero_value(),
            r.y_0 == S::zero_value(),
            r.width == S::one_value(),
            r.height == S::one_value(),
            call_ensures(F::default, (), r.function),
    {
        Self::new(F::default())
    }
}

impl<S: Scalar, F: Fn(S) -> S> GradientDescent<S> for ScaledTranslatedEquation<S, F> {
    open spec fn well_formed(&self) -> bool {
        is_function(self.function)
    }

    open spec fn parameter_vector(&self) -> Seq<S> {
        seq![self.x_0, self.y_0, self.width, self.height]
    }

    open spec fn evaluate(&self, parameters: Seq<S>, input: S) -> S {
        image(self.function, input.minus(parameters[0]).over(parameters[2])).times(
            parameters[3],
        ).plus(parameters[1])
    }

    fn param_dimension(&self) -> (dimension: usize) {
        4
    }

    fn predict(&self, nudge: Option<(usize, S)>, input: &[S; 1]) -> (output: [S; 1]) {
        let mut x_0 = self.x_0;
        let mut y_0 = self.y_0;
        let mut width = self.width;
        let mut height = self.height;
        match nudge {
            None => {},
            Some((index, epsilon)) => {
                if index == 0 {
                    x_0 = x_0.add(epsilon);
                } else if index == 1 {
                    y_0 = y_0.add(epsilon);
                } else if index == 2 {
                    width = width.add(epsilon);
                } else {
                    height = height.add(epsilon);
                }
            },
        }
        assert(nudged(self.parameter_vector(), nudge) == seq![x_0, y_0, width, height]);
        let inner = (self.function)(input[0].sub(x_0).div(width));
        [inner.mul(height).add(y_0)]
    }

    fn descend(&mut self, adjustments: &[S]) {
        self.x_0 = self.x_0.add(adjustments[0]);
        self.y_0 = self.y_0.add(adjustments[1]);
        self.width = self.width.add(adjustments[2]);
        self.height = self.height.add(adjustments[3]);
        assert(self.parameter_vector() == shifted(old(self).parameter_vector(), adjustments@));
    }
}

} // verus!
