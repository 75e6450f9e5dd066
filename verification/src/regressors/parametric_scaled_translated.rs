//! A given function with parameters of its own, moved and stretched.

use crate::function::{is_parametric_function, packed, parametric_image};
use crate::model::{nudged, shifted, GradientDescent};
use crate::scalar::Scalar;
use crate::text::{listed, write_list};
use vstd::prelude::*;
use vstd::string::StringExecFns;

verus! {

/// The curve `function((x - x_0) / width, parameters) * height + y_0`. Its
/// parameters are `x_0`, `y_0`, `width` and `height`, then those that the
/// function takes, in their order; the function itself is given and stays
/// as it is.
#[derive(Debug)]
pub struct ParametricScaledTranslatedEquation<S, F, const P: usize> {
    pub x_0: S,
    pub y_0: S,
    pub width: S,
    pub height: S,
    pub parameters: [S; P],
    pub function: F,
}

impl<S: Scalar, F, const P: usize> ParametricScaledTranslatedEquation<S, F, P> {
    /// The function as it is: not moved, of width and height one, with every
    /// parameter of its own zero.
    pub fn new(function: F) -> (r: Self)
        ensures
            r.x_0 == S::zero_value(),
            r.y_0 == S::zero_value(),
            r.width == S::one_value(),
            r.height == S::one_value(),
            r.parameters@ == Seq::new(P as nat, |i: int| S::zero_value()),
            r.function == function,
    {
        let r = ParametricScaledTranslatedEquation {
            x_0: S::zero(),
            y_0: S::zero(),
            width: S::one(),
            height: S::one(),
            parameters: [S::zero();P],
            function,
        };
        assert(r.parameters@ =~= Seq::new(P as nat, |i: int| S::zero_value()));
        r
    }
}

impl<S: Scalar, F, const P: usize> ParametricScaledTranslatedEquation<S, F, P> {
    /// The curve written out, with `f` for the function, as in
    /// `f((x - 1) / 2, 5, 6) * 3 + 4`.
    pub open spec fn description(&self) -> Seq<char> {
        "f((x - "@ + self.x_0.rendered() + ") / "@ + self.width.rendered() + ", "@ + listed(
            self.parameters@,
        ) + ") * "@ + self.height.rendered() + " + "@ + self.y_0.rendered()
    }

    /// Writes the curve out.
    pub fn describe(&self) -> (text: String)
        ensures
            text@ == self.description(),
    {
        let mut text = String::from_str("f((x - ");
        text.append(self.x_0.render().as_str());
        text.append(") / ");
        text.append(self.width.render().as_str());
        text.append(", ");
        text.append(write_list(self.parameters.as_slice()).as_str());
        text.append(") * ");
        text.append(self.height.render().as_str());
        text.append(" + ");
        text.append(self.y_0.render().as_str());
        text
    }
}

impl<S: Scalar, F: Default, const P: usize> Default for ParametricScaledTranslatedEquation<
    S,
    F,
    P,
> {
    /// The default function as it is: not moved, of width and height one,
    /// with every parameter of its own zero.
    fn default() -> (r: Self)
        ensures
            r.x_0 == S::zero_value(),
            r.y_0 == S::zero_value(),
            r.width == S::one_value(),
            r.height == S::one_value(),
            r.parameters@ == Seq::new(P as nat, |i: int| S::zero_value()),
            call_ensures(F::default, (), r.function),
    {
        Self::new(F::default())
    }
}

impl<S: Scalar, F: Fn(S, [S; P]) -> S, const P: usize> GradientDescent<
    S,
> for ParametricScaledTranslatedEquation<S, F, P> {
    /// The function is one, and the number of parameters can be counted.
    open spec fn well_formed(&self) -> bool {
        &&& is_parametric_function::<S, F, P>(self.function)
        &&& 4 + P <= usize::MAX
    }

    open spec fn parameter_vector(&self) -> Seq<S> {
        seq![self.x_0, self.y_0, self.width, self.height] + self.parameters@
    }

    open spec fn evaluate(&self, parameters: Seq<S>, input: S) -> S {
        parametric_image::<S, F, P>(
            self.function,
            input.minus(parameters[0]).over(parameters[2]),
            parameters.skip(4),
        ).times(parameters[3]).plus(parameters[1])
    }

    fn param_dimension(&self) -> (dimension: usize) {
        4 + P
    }

    fn predict(&self, nudge: Option<(usize, S)>, input: &[S; 1]) -> (output: [S; 1]) {
        let mut x_0 = self.x_0;
        let mut y_0 = self.y_0;
        let mut width = self.width;
        let mut height = self.height;
        let mut new_parameters = self.parameters;
        match nudge {
            None => {},
            Some((index, epsilon)) => {
                if index == 0 {
                    x_0 = x_0.add(epsilon);
                } else if index == 1 {
                    y_0 = y_0.add(epsilon);
                } else if index == 2 {
                    width = width.add(epsilon);
                } else if index == 3 {
                    height = height.add(epsilon);
                } else {
                    new_parameters[index - 4] = new_parameters[index - 4].add(epsilon);
                }
            },
        }
        proof {
            let used = nudged(self.parameter_vector(), nudge);
            assert(used =~= seq![x_0, y_0, width, height] + new_parameters@);
            assert(used.skip(4) =~= new_parameters@);
            assert(packed::<S, P>(used.skip(4)) =~= new_parameters);
        }
        let inner = (self.function)(input[0].sub(x_0).div(width), new_parameters);
        [inner.mul(height).add(y_0)]
    }

    fn descend(&mut self, adjustments: &[S]) {
        self.x_0 = self.x_0.add(adjustments[0]);
        self.y_0 = self.y_0.add(adjustments[1]);
        self.width = self.width.add(adjustments[2]);
        self.height = self.height.add(adjustments[3]);
        let mut i: usize = 4;
        while i < 4 + P
            invariant
                4 <= i <= 4 + P <= usize::MAX,
                adjustments@.len() == 4 + P,
                self.function == old(self).function,
                self.x_0 == old(self).x_0.plus(adjustments@[0]),
                self.y_0 == old(self).y_0.plus(adjustments@[1]),
                self.width == old(self).width.plus(adjustments@[2]),
                self.height == old(self).height.plus(adjustments@[3]),
                forall|k: int|
                    0 <= k < i - 4 ==> self.parameters@[k] == old(self).parameters@[k].plus(
                        adjustments@[k + 4],
                    ),
                forall|k: int| i - 4 <= k < P ==> self.parameters@[k] == old(self).parameters@[k],
            decreases 4 + P - i,
        {
            self.parameters[i - 4] = self.parameters[i - 4].add(adjustments[i]);
            i += 1;
        }
        assert(self.parameter_vector() =~= shifted(old(self).parameter_vector(), adjustments@));
    }
}

} // verus!
