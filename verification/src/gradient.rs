//! The gradient of the total squared error, estimated by forward
//! differences.

use crate::model::{nudged, nudged_at, GradientDescent, Observation};
use crate::scalar::Scalar;
use vstd::prelude::*;

verus! {

/// The total squared error of `model` over `data`, were its parameters
/// `parameters`: the squares of `y - evaluate(parameters, x)`, added in the
/// order of the observations, starting from zero.
pub open spec fn squared_error<S: Scalar, M: GradientDescent<S>>(
    model: &M,
    parameters: Seq<S>,
    data: Seq<Observation<S>>,
) -> S
    decreases data.len(),
{
    if data.len() == 0 {
        S::zero_value()
    } else {
        let delta = data.last().y.minus(model.evaluate(parameters, data.last().x));
        squared_error(model, parameters, data.drop_last()).plus(delta.times(delta))
    }
}

/// The estimate of how fast the error falls as the parameter at `index`
/// grows: the error at `parameters`, minus the error with that parameter
/// nudged by `epsilon`, over `epsilon`.
pub open spec fn partial<S: Scalar, M: GradientDescent<S>>(
    model: &M,
    parameters: Seq<S>,
    data: Seq<Observation<S>>,
    epsilon: S,
    index: int,
) -> S {
    squared_error(model, parameters, data).minus(
        squared_error(model, nudged_at(parameters, index, epsilon), data),
    ).over(epsilon)
}

/// The estimates for all parameters, in their order.
pub open spec fn gradient<S: Scalar, M: GradientDescent<S>>(
    model: &M,
    parameters: Seq<S>,
    data: Seq<Observation<S>>,
    epsilon: S,
) -> Seq<S> {
    Seq::new(parameters.len(), |index: int| partial(model, parameters, data, epsilon, index))
}

/// Adds up the squared differences between what was observed and what
/// `model` predicts under `nudge`.
pub fn total_squared_error<S: Scalar, M: GradientDescent<S>>(
    model: &M,
    nudge: Option<(usize, S)>,
    data: &[Observation<S>],
) -> (error: S)
    requires
        model.well_formed(),
        nudge matches Some((index, _)) ==> index < model.parameter_vector().len(),
    ensures
        error == squared_error(model, nudged(model.parameter_vector(), nudge), data@),
{
    let ghost parameters = nudged(model.parameter_vector(), nudge);
    let mut error = S::zero();
    let mut k: usize = 0;
    while k < data.len()
        invariant
            model.well_formed(),
            nudge matches Some((index, _)) ==> index < model.parameter_vector().len(),
            parameters == nudged(model.parameter_vector(), nudge),
            k <= data@.len(),
            error == squared_error(model, parameters, data@.take(k as int)),
        decreases data@.len() - k,
    {
        assert(data@.take(k + 1).drop_last() == data@.take(k as int));
        let datum = data[k];
        let predicted = model.predict(nudge, &[datum.x]);
        let delta = datum.y.sub(predicted[0]);
        error = error.add(delta.mul(delta));
        k += 1;
    }
    assert(data@.take(data@.len() as int) == data@);
    error
}

/// Estimates the gradient of `model` over `data` and returns it with the
/// error at the parameters as they are.
///
/// Entry `i` of the gradient is positive where a larger parameter `i` makes
/// for a smaller error, so that a step along the gradient lessens the error.
pub fn estimate_gradient<S: Scalar, M: GradientDescent<S>>(
    model: &M,
    data: &[Observation<S>],
    epsilon: S,
) -> (estimate: (Vec<S>, S))
    requires
        model.well_formed(),
    ensures
        estimate.0@ == gradient(model, model.parameter_vector(), data@, epsilon),
        estimate.1 == squared_error(model, model.parameter_vector(), data@),
{
    let base_error = total_squared_error(model, None, data);
    let dimension = model.param_dimension();
    let mut gradients: Vec<S> = Vec::new();
    let mut index: usize = 0;
    while index < dimension
        invariant
            model.well_formed(),
            dimension == model.parameter_vector().len(),
            base_error == squared_error(model, model.parameter_vector(), data@),
            index <= dimension,
            gradients@.len() == index,
            forall|i: int|
                0 <= i < index ==> gradients@[i] == partial(
                    model,
                    model.parameter_vector(),
                    data@,
                    epsilon,
                    i,
                ),
        decreases dimension - index,
    {
        let nudged_error = total_squared_error(model, Some((index, epsilon)), data);
        gradients.push(base_error.sub(nudged_error).div(epsilon));
        index += 1;
    }
    assert(gradients@ =~= gradient(model, model.parameter_vector(), data@, epsilon));
    (gradients, base_error)
}

} // verus!
