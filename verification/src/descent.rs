//! The descent: one iteration after another, until the gradient is small.

use crate::gradient::{estimate_gradient, gradient, partial, squared_error};
use crate::magnitude::{magnitude, magnitude_of};
use crate::model::{nudged_at, shifted, GradientDescent, Observation};
use crate::scalar::Scalar;
use vstd::prelude::*;

verus! {

/// The settings of a run. They stay as they are for the whole run.
#[derive(Clone, Copy, Debug)]
pub struct Configuration<S> {
    /// The factor by which the gradient is scaled before it is added to the
    /// parameters.
    pub temperature: S,
    /// The size of the nudge in the finite differences.
    pub epsilon: S,
    /// The run ends once the magnitude of the gradient is at most this.
    pub finish_threshold: S,
    /// How often progress is to be reported. The descent does not read it:
    /// whoever drives the run decides when a report is due.
    pub print_interval: S,
}

/// Where a run stands.
#[derive(Clone, Copy, Debug, PartialEq, Eq)]
pub enum Status {
    /// Iterations go on.
    Running,
    /// The gradient was small enough. Nothing more happens.
    Converged,
    /// The observations could not be had. Nothing more happens.
    Aborted,
}

/// What one iteration found.
#[derive(Clone, Copy, Debug)]
pub struct Iteration<S> {
    /// The magnitude of the gradient.
    pub magnitude: S,
    /// The total squared error before any step.
    pub base_error: S,
    /// Whether the magnitude was within the threshold.
    pub converged: bool,
}

/// What is told of an iteration to whoever follows the run.
#[derive(Clone, Copy, Debug)]
pub struct Report<S> {
    /// The number of the iteration, counted from zero.
    pub iteration: u64,
    /// The magnitude of the gradient in that iteration.
    pub magnitude: S,
    /// The total squared error at the start of that iteration.
    pub base_error: S,
}

/// The state of a run: its status and the number of the next iteration.
#[derive(Clone, Copy, Debug)]
pub struct Descent {
    pub status: Status,
    pub iteration: u64,
}

/// Each entry of `vector` times `factor`.
pub open spec fn scaled<S: Scalar>(vector: Seq<S>, factor: S) -> Seq<S> {
    Seq::new(vector.len(), |i: int| vector[i].times(factor))
}

/// Whether the descent is over at `parameters`: the absolute value of the
/// gradient's magnitude is at most the threshold.
pub open spec fn has_converged<S: Scalar, M: GradientDescent<S>>(
    model: &M,
    parameters: Seq<S>,
    data: Seq<Observation<S>>,
    configuration: Configuration<S>,
) -> bool {
    magnitude_of(
        gradient(model, parameters, data, configuration.epsilon),
    ).absolute().at_most(configuration.finish_threshold)
}

/// The parameters after one iteration that starts at `parameters`: the same
/// once the descent is over, else moved along the gradient scaled by the
/// temperature.
pub open spec fn stepped<S: Scalar, M: GradientDescent<S>>(
    model: &M,
    parameters: Seq<S>,
    data: Seq<Observation<S>>,
    configuration: Configuration<S>,
) -> Seq<S> {
    if has_converged(model, parameters, data, configuration) {
        parameters
    } else {
        shifted(
            parameters,
            scaled(
                gradient(model, parameters, data, configuration.epsilon),
                configuration.temperature,
            ),
        )
    }
}

/// The parameters after `iterations` iterations that start at `parameters`.
pub open spec fn parameters_after<S: Scalar, M: GradientDescent<S>>(
    model: &M,
    parameters: Seq<S>,
    data: Seq<Observation<S>>,
    configuration: Configuration<S>,
    iterations: nat,
) -> Seq<S>
    decreases iterations,
{
    if iterations == 0 {
        parameters
    } else {
        stepped(
            model,
            parameters_after(model, parameters, data, configuration, (iterations - 1) as nat),
            data,
            configuration,
        )
    }
}

/// The number of steps that a run from `parameters` takes before it finds
/// the descent over, or `limit` if it takes that many and is not over.
pub open spec fn steps_within<S: Scalar, M: GradientDescent<S>>(
    model: &M,
    parameters: Seq<S>,
    data: Seq<Observation<S>>,
    configuration: Configuration<S>,
    limit: nat,
) -> nat
    decreases limit,
{
    if limit == 0 || has_converged(model, parameters, data, configuration) {
        0
    } else {
        1 + steps_within(
            model,
            stepped(model, parameters, data, configuration),
            data,
            configuration,
            (limit - 1) as nat,
        )
    }
}

/// The error sees a model through its closed form alone: two models with
/// one closed form have one error at the same parameters.
pub proof fn lemma_error_of_same_closed_form<S: Scalar, M: GradientDescent<S>>(
    first: &M,
    second: &M,
    parameters: Seq<S>,
    data: Seq<Observation<S>>,
)
    requires
        forall|p: Seq<S>, x: S| #[trigger] first.evaluate(p, x) == second.evaluate(p, x),
    ensures
        squared_error(first, parameters, data) == squared_error(second, parameters, data),
    decreases data.len(),
{
    if data.len() > 0 {
        lemma_error_of_same_closed_form(first, second, parameters, data.drop_last());
    }
}

/// An iteration sees a model through its closed form alone: two models
/// with one closed form have one gradient at the same parameters, are over
/// at the same parameters, and step to the same parameters.
pub proof fn lemma_step_of_same_closed_form<S: Scalar, M: GradientDescent<S>>(
    first: &M,
    second: &M,
    parameters: Seq<S>,
    data: Seq<Observation<S>>,
    configuration: Configuration<S>,
)
    requires
        forall|p: Seq<S>, x: S| #[trigger] first.evaluate(p, x) == second.evaluate(p, x),
    ensures
        gradient(first, parameters, data, configuration.epsilon) == gradient(
            second,
            parameters,
            data,
            configuration.epsilon,
        ),
        has_converged(first, parameters, data, configuration) == has_converged(
            second,
            parameters,
            data,
            configuration,
        ),
        stepped(first, parameters, data, configuration) == stepped(
            second,
            parameters,
            data,
            configuration,
        ),
{
    let epsilon = configuration.epsilon;
    lemma_error_of_same_closed_form(first, second, parameters, data);
    assert forall|index: int| 0 <= index < parameters.len() implies partial(
        first,
        parameters,
        data,
        epsilon,
        index,
    ) == partial(second, parameters, data, epsilon, index) by {
        lemma_error_of_same_closed_form(
            first,
            second,
            nudged_at(parameters, index, epsilon),
            data,
        );
    }
    assert(gradient(first, parameters, data, epsilon) =~= gradient(
        second,
        parameters,
        data,
        epsilon,
    ));
}

/// Multiplies each entry of `vector` by `factor`.
pub fn scale<S: Scalar>(vector: &[S], factor: S) -> (r: Vec<S>)
    ensures
        r@ == scaled(vector@, factor),
{
    let mut r: Vec<S> = Vec::new();
    let mut i: usize = 0;
    while i < vector.len()
        invariant
            i <= vector@.len(),
            r@.len() == i,
            forall|k: int| 0 <= k < i ==> r@[k] == vector@[k].times(factor),
        decreases vector@.len() - i,
    {
        r.push(vector[i].mul(factor));
        i += 1;
    }
    assert(r@ =~= scaled(vector@, factor));
    r
}

/// Runs one iteration: estimates the gradient, tests its magnitude against
/// the threshold, and takes the step only where the test fails.
///
/// The test comes before the step, so the iteration that finds the descent
/// over leaves the model as it was.
pub fn iterate<S: Scalar, M: GradientDescent<S>>(
    model: &mut M,
    data: &[Observation<S>],
    configuration: &Configuration<S>,
) -> (found: Iteration<S>)
    requires
        old(model).well_formed(),
    ensures
        found.base_error == squared_error(old(model), old(model).parameter_vector(), data@),
        found.magnitude == magnitude_of(
            gradient(old(model), old(model).parameter_vector(), data@, configuration.epsilon),
        ),
        found.converged == has_converged(
            old(model),
            old(model).parameter_vector(),
            data@,
            *configuration,
        ),
        found.converged ==> *final(model) == *old(model),
        final(model).well_formed(),
        final(model).parameter_vector() == stepped(
            old(model),
            old(model).parameter_vector(),
            data@,
            *configuration,
        ),
        forall|parameters: Seq<S>, input: S| #[trigger]
            final(model).evaluate(parameters, input) == old(model).evaluate(parameters, input),
{
    let (gradients, base_error) = estimate_gradient(&*model, data, configuration.epsilon);
    let found_magnitude = magnitude(gradients.as_slice());
    let converged = found_magnitude.abs().le(configuration.finish_threshold);
    if !converged {
        let adjustments = scale(gradients.as_slice(), configuration.temperature);
        model.descend(adjustments.as_slice());
    }
    Iteration { magnitude: found_magnitude, base_error, converged }
}

impl Descent {
    /// A run that has yet to make its first iteration.
    pub fn new() -> (r: Self)
        ensures
            r.status == Status::Running,
            r.iteration == 0,
    {
        Descent { status: Status::Running, iteration: 0 }
    }

    /// Ends a run that is still going because its observations could not be
    /// had. A run that is over stays as it is.
    pub fn abort(&mut self)
        ensures
            final(self).iteration == old(self).iteration,
            final(self).status == (if old(self).status == Status::Running {
                Status::Aborted
            } else {
                old(self).status
            }),
    {
        match self.status {
            Status::Running => {
                self.status = Status::Aborted;
            },
            _ => {},
        }
    }

    /// Makes the next iteration of a run that is still going, and says what
    /// is to be reported of it.
    ///
    /// A report is due for the iteration that ends the run, and for any
    /// other for which `report_due` is set. A run that is over stays as it
    /// is, its model untouched, and reports nothing. The count of
    /// iterations stops at the largest number it can hold.
    pub fn advance<S: Scalar, M: GradientDescent<S>>(
        &mut self,
        model: &mut M,
        data: &[Observation<S>],
        configuration: &Configuration<S>,
        report_due: bool,
    ) -> (report: Option<Report<S>>)
        requires
            old(model).well_formed(),
        ensures
            final(model).well_formed(),
            forall|parameters: Seq<S>, input: S| #[trigger]
                final(model).evaluate(parameters, input) == old(model).evaluate(parameters, input),
            old(self).status != Status::Running ==> {
                &&& *final(self) == *old(self)
                &&& *final(model) == *old(model)
                &&& report is None
            },
            old(self).status == Status::Running ==> {
                let parameters = old(model).parameter_vector();
                let converged = has_converged(old(model), parameters, data@, *configuration);
                &&& final(model).parameter_vector() == stepped(
                    old(model),
                    parameters,
                    data@,
                    *configuration,
                )
                &&& converged ==> *final(model) == *old(model)
                &&& final(self).status == (if converged {
                    Status::Converged
                } else {
                    Status::Running
                })
                &&& final(self).iteration == (if converged || old(self).iteration == u64::MAX {
                    old(self).iteration
                } else {
                    (old(self).iteration + 1) as u64
                })
                &&& report is Some <==> converged || report_due
                &&& report matches Some(told) ==> {
                    &&& told.iteration == old(self).iteration
                    &&& told.magnitude == magnitude_of(
                        gradient(old(model), parameters, data@, configuration.epsilon),
                    )
                    &&& told.base_error == squared_error(old(model), parameters, data@)
                }
            },
    {
        match self.status {
            Status::Running => {
                let found = iterate(model, data, configuration);
                let report = if found.converged || report_due {
                    Some(
                        Report {
                            iteration: self.iteration,
                            magnitude: found.magnitude,
                            base_error: found.base_error,
                        },
                    )
                } else {
                    None
                };
                if found.converged {
                    self.status = Status::Converged;
                } else if self.iteration < u64::MAX {
                    self.iteration = self.iteration + 1;
                }
                report
            },
            _ => None,
        }
    }

    /// Makes iterations without reports until the run is over or `limit`
    /// steps were taken, and reports the iteration that ended the run, if
    /// one did. A run that is over stays as it is, its model untouched.
    pub fn converge<S: Scalar, M: GradientDescent<S>>(
        &mut self,
        model: &mut M,
        data: &[Observation<S>],
        configuration: &Configuration<S>,
        limit: u64,
    ) -> (report: Option<Report<S>>)
        requires
            old(model).well_formed(),
        ensures
            final(model).well_formed(),
            forall|parameters: Seq<S>, input: S| #[trigger]
                final(model).evaluate(parameters, input) == old(model).evaluate(parameters, input),
            old(self).status != Status::Running ==> {
                &&& *final(self) == *old(self)
                &&& *final(model) == *old(model)
                &&& report is None
            },
            old(self).status == Status::Running ==> {
                let start = old(model).parameter_vector();
                let steps = steps_within(old(model), start, data@, *configuration, limit as nat);
                let end = parameters_after(old(model), start, data@, *configuration, steps);
                &&& final(model).parameter_vector() == end
                &&& final(self).status == (if steps < limit {
                    Status::Converged
                } else {
                    Status::Running
                })
                &&& final(self).iteration == (if old(self).iteration + steps > u64::MAX {
                    u64::MAX
                } else {
                    (old(self).iteration + steps) as u64
                })
                &&& report is Some <==> steps < limit
                &&& report matches Some(told) ==> {
                    &&& told.iteration == final(self).iteration
                    &&& told.magnitude == magnitude_of(
                        gradient(old(model), end, data@, configuration.epsilon),
                    )
                    &&& told.base_error == squared_error(old(model), end, data@)
                }
            },
    {
        let ghost first = *model;
        let ghost start = model.parameter_vector();
        let ghost began = self.iteration;
        let mut report: Option<Report<S>> = None;
        let mut taken: u64 = 0;
        while taken < limit && matches!(self.status, Status::Running)
            invariant
                old(self).status == Status::Running ==> first == *old(model) && start == old(
                    model,
                ).parameter_vector() && began == old(self).iteration,
                old(self).status != Status::Running ==> *self == *old(self) && *model == *old(
                    model,
                ) && report is None,
                model.well_formed(),
                forall|parameters: Seq<S>, input: S| #[trigger]
                    model.evaluate(parameters, input) == old(model).evaluate(parameters, input),
                taken <= limit,
                old(self).status == Status::Running ==> {
                    let steps = steps_within(&first, start, data@, *configuration, limit as nat);
                    let here = model.parameter_vector();
                    &&& self.status == Status::Running || self.status == Status::Converged
                    &&& self.iteration == (if began + taken > u64::MAX {
                        u64::MAX
                    } else {
                        (began + taken) as u64
                    })
                    &&& here == parameters_after(&first, start, data@, *configuration, taken as nat)
                    &&& self.status == Status::Running ==> {
                        &&& report is None
                        &&& steps == taken + steps_within(
                            &first,
                            here,
                            data@,
                            *configuration,
                            (limit - taken) as nat,
                        )
                    }
                    &&& self.status == Status::Converged ==> {
                        &&& steps == taken
                        &&& taken < limit
                        &&& report matches Some(told) && told.iteration == self.iteration
                            && told.magnitude == magnitude_of(
                            gradient(&first, here, data@, configuration.epsilon),
                        ) && told.base_error == squared_error(&first, here, data@)
                    }
                },
            decreases
                (if self.status == Status::Running {
                    limit - taken + 1
                } else {
                    0
                }),
        {
            proof {
                let here = model.parameter_vector();
                lemma_step_of_same_closed_form(&*model, &first, here, data@, *configuration);
                lemma_error_of_same_closed_form(&*model, &first, here, data@);
            }
            report = self.advance(model, data, configuration, false);
            if matches!(self.status, Status::Running) {
                taken = taken + 1;
            }
        }
        report
    }
}

} // verus!
