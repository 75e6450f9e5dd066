//! A given function with parameters of its own.

use crate::function::{is_parametric_function, packed, parametric_image};
use crate::model::{nudged, shifted, GradientDescent};
use crate::scalar::Scalar;
use crate::text::{listed, write_list};
use vstd::prelude::*;
use vstd::string::StringExecFns;

verus! {

/// The curve `function(x, parameters)`. Its parameters are those that the
/// function takes, in their order; the function itself is given and stays
/// as it is.
#[derive(Debug)]
pub struct ParametricEquation<S, F, const P: usize> {
    pub parameters: [S; P],
    pub function: F,
}

impl<S: Scalar, F, const P: usize> ParametricEquation<S, F, P> {
    /// The function with every parameter zero.
    pub fn new(function: F) -> (r: Self)
        ensures
            r.parameters@ == Seq::new(P as nat, |i: int| S::zero_value()),
            r.function == function,
    {
        let r = ParametricEquation { parameters: [S::zero();P], function };
        assert(r.parameters@ =~= Seq::new(P as nat, |i: int| S::zero_value()));
        r
    }
}

impl<S: Scalar, F, const P: usize> ParametricEquation<S, F, P> {
    /// The curve written out, with `f` for the function, as in `f(x, 5, 6)`.
    pub open spec fn description(&self) -> Seq<char> {
        "f(x, "@ + listed(self.parameters@) + ")"@
    }

    /// Writes the curve out.
    pub fn describe(&self) -> (text: String)
        ensures
            text@ == self.description(),
    {
        let mut text = String::from_str("f(x, ");
        text.append(write_list(self.parameters.as_slice()).as_str());
        text.append(")");
        text
    }
}

impl<S: Scalar, F: Default, const P: usize> Default for ParametricEquation<S, F, P> {
    /// The default function with every parameter zero.
    fn default() -> (r: Self)
        ensures
            r.parameters@ == Seq::new(P as nat, |i: int| S::zero_value()),
            call_ensures(F::default, (), r.function),
    {
        Self::new(F::default())
    }
}

impl<S: Scalar, F: Fn(S, [S; P]) -> S, const P: usize> GradientDescent<S> for ParametricEquation<
    S,
    F,
    P,
> {
    open spec fn well_formed(&self) -> bool {
        is_parametric_function::<S, F, P>(self.function)
    }

    open spec fn parameter_vector(&self) -> Seq<S> {
        self.parameters@
    }

    open spec fn evaluate(&self, parameters: Seq<S>, input: S) -> S {
        parametric_image::<S, F, P>(self.function, input, parameters)
    }

    fn param_dimension(&self) -> (dimension: usize) {
        P
    }

    fn predict(&self, nudge: Option<(usize, S)>, input: &[S; 1]) -> (output: [S; 1]) {
        let mut new_parameters = self.parameters;
        match nudge {
            None => {},
            Some((index, epsilon)) => {
                new_parameters[index] = new_parameters[index].add(epsilon);
            },
        }
        assert(packed::<S, P>(nudged(self.parameter_vector(), nudge)) =~= new_parameters);
        [(self.function)(input[0], new_parameters)]
    }

    fn descend(&mut self, adjustments: &[S]) {
        let mut i: usize = 0;
        while i < P
            invariant
                i <= P,
                adjustments@.len() == P,
                self.function == old(self).function,
                forall|k: int|
                    0 <= k < i ==> self.parameters@[k] == old(self).parameters@[k].plus(
                        adjustments@[k],
                    ),
                forall|k: int| i <= k < P ==> self.parameters@[k] == old(self).parameters@[k],
            decreases P - i,
        {
            self.parameters[i] = self.parameters[i].add(adjustments[i]);
            i += 1;
        }
        assert(self.parameters@ =~= shifted(old(self).parameters@, adjustments@));
    }
}

} // verus!
