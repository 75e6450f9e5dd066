//! What every model offers: a prediction, with or without a nudge, and a
//! step through parameter space.

use crate::scalar::Scalar;
use vstd::prelude::*;

verus! {

/// One measured point: the output `y` that was seen at the input `x`.
#[derive(Clone, Copy, Debug)]
pub struct Observation<S> {
    pub x: S,
    pub y: S,
}

/// The parameter vector with `epsilon` added to the entry at `index`, and
/// every other entry as it was.
pub open spec fn nudged_at<S: Scalar>(parameters: Seq<S>, index: int, epsilon: S) -> Seq<S> {
    if 0 <= index < parameters.len() {
        parameters.update(index, parameters[index].plus(epsilon))
    } else {
        parameters
    }
}

/// The parameter vector that a prediction under `nudge` is computed from.
pub open spec fn nudged<S: Scalar>(parameters: Seq<S>, nudge: Option<(usize, S)>) -> Seq<S> {
    match nudge {
        Some((index, epsilon)) => nudged_at(parameters, index as int, epsilon),
        None => parameters,
    }
}

/// The parameter vector after each entry of `adjustments` was added to the
/// entry at the same place.
pub open spec fn shifted<S: Scalar>(parameters: Seq<S>, adjustments: Seq<S>) -> Seq<S> {
    Seq::new(parameters.len(), |i: int| parameters[i].plus(adjustments[i]))
}

/// A parametric function of one input that can be fitted by gradient
/// descent.
///
/// A model owns a parameter vector of fixed length. What it predicts is its
/// closed form, [`evaluate`](GradientDescent::evaluate), applied to that
/// vector; only [`descend`](GradientDescent::descend) changes the vector.
pub trait GradientDescent<S: Scalar> {
    /// What must hold of a model before it is used: that a function it
    /// wraps accepts every argument and returns one value for each.
    spec fn well_formed(&self) -> bool;

    /// The parameters, in the order in which a nudge and an adjustment
    /// address them.
    spec fn parameter_vector(&self) -> Seq<S>;

    /// The closed form of the model on an arbitrary parameter vector.
    spec fn evaluate(&self, parameters: Seq<S>, input: S) -> S;

    /// The number of parameters.
    fn param_dimension(&self) -> (dimension: usize)
        requires
            self.well_formed(),
        ensures
            dimension == self.parameter_vector().len(),
    ;

    /// The output of the model at `input`. With a nudge `(index, epsilon)`
    /// the parameter at `index` counts as increased by `epsilon`, for this
    /// call only.
    fn predict(&self, nudge: Option<(usize, S)>, input: &[S; 1]) -> (output: [S; 1])
        requires
            self.well_formed(),
            nudge matches Some((index, _)) ==> index < self.parameter_vector().len(),
        ensures
            output[0] == self.evaluate(nudged(self.parameter_vector(), nudge), input[0]),
    ;

    /// Adds each adjustment to the parameter at the same place. Nothing but
    /// the parameter vector changes.
    fn descend(&mut self, adjustments: &[S])
        requires
            old(self).well_formed(),
            adjustments@.len() == old(self).parameter_vector().len(),
        ensures
            final(self).well_formed(),
            final(self).parameter_vector() == shifted(old(self).parameter_vector(), adjustments@),
            forall|parameters: Seq<S>, input: S| #[trigger]
                final(self).evaluate(parameters, input) == old(self).evaluate(parameters, input),
    ;
}

/// What [`GradientDescent::predict`] returns: the closed form on the nudged
/// parameter vector.
pub open spec fn prediction<S: Scalar, M: GradientDescent<S>>(
    model: &M,
    nudge: Option<(usize, S)>,
    input: S,
) -> S {
    model.evaluate(nudged(model.parameter_vector(), nudge), input)
}

/// Whether `after` is what a descent by `adjustments` makes of `before`:
/// each adjustment was added to its parameter, and nothing else changed.
pub open spec fn descends_to<S: Scalar, M: GradientDescent<S>>(
    before: &M,
    adjustments: Seq<S>,
    after: &M,
) -> bool {
    &&& after.parameter_vector() == shifted(before.parameter_vector(), adjustments)
    &&& forall|parameters: Seq<S>, input: S| #[trigger]
        after.evaluate(parameters, input) == before.evaluate(parameters, input)
}

/// After a descent, a model predicts without a nudge what its closed form
/// gives on the old parameters plus the adjustments.
pub proof fn lemma_descent_moves_prediction<S: Scalar, M: GradientDescent<S>>(
    before: &M,
    adjustments: Seq<S>,
    after: &M,
    input: S,
)
    requires
        descends_to(before, adjustments, after),
    ensures
        prediction(after, None, input) == before.evaluate(
            shifted(before.parameter_vector(), adjustments),
            input,
        ),
        shifted(before.parameter_vector(), adjustments).len() == before.parameter_vector().len(),
        forall|i: int|
            0 <= i < before.parameter_vector().len() ==> #[trigger] shifted(
                before.parameter_vector(),
                adjustments,
            )[i] == before.parameter_vector()[i].plus(adjustments[i]),
{
}

/// A prediction under the nudge `(index, epsilon)` is the prediction without
/// a nudge of the same model with parameter `index` replaced by itself plus
/// `epsilon`.
pub proof fn lemma_nudge_replaces_parameter<S: Scalar, M: GradientDescent<S>>(
    model: &M,
    index: usize,
    epsilon: S,
    input: S,
)
    requires
        index < model.parameter_vector().len(),
    ensures
        prediction(model, Some((index, epsilon)), input) == model.evaluate(
            model.parameter_vector().update(
                index as int,
                model.parameter_vector()[index as int].plus(epsilon),
            ),
            input,
        ),
{
}

/// Two predictions of one model for one input and one nudge are the same,
/// whenever they are made.
pub proof fn lemma_predict_is_repeatable<S: Scalar, M: GradientDescent<S>>(
    model: &M,
    nudge: Option<(usize, S)>,
    input: &[S; 1],
    first: [S; 1],
    second: [S; 1],
)
    requires
        call_ensures(M::predict, (model, nudge, input), first),
        call_ensures(M::predict, (model, nudge, input), second),
    ensures
        first == second,
{
    assert(first =~= second);
}

} // verus!
