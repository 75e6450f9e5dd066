//! Curve fitting by gradient descent on finite differences.
//!
//! A model is a parametric function of one input. The gradient of its total
//! squared error over a set of observations is estimated by nudging one
//! parameter at a time, and the parameters follow that gradient until its
//! magnitude falls under a threshold.
//!
//! The arithmetic is abstract: every operation on numbers goes through
//! [`Scalar`], and every contract is stated over the specification functions
//! of that trait.

pub mod descent;
pub mod function;
pub mod gradient;
pub mod integer;
pub mod magnitude;
pub mod model;
pub mod regressors;
pub mod scalar;
pub mod text;

pub use descent::{iterate, scale, Configuration, Descent, Iteration, Report, Status};
pub use gradient::{estimate_gradient, total_squared_error};
pub use magnitude::magnitude;
pub use model::{GradientDescent, Observation};
pub use regressors::{
    Exponential, Linear, ParametricEquation, ParametricScaledTranslatedEquation, Polynomial,
    ScaledTranslatedEquation,
};
pub use scalar::Scalar;
