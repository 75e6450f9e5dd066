//! The models that come with the library.

pub mod exponential;
pub mod linear;
pub mod parametric;
pub mod parametric_scaled_translated;
pub mod polynomial;
pub mod scaled_translated;

pub use exponential::Exponential;
pub use linear::Linear;
pub use parametric::ParametricEquation;
pub use parametric_scaled_translated::ParametricScaledTranslatedEquation;
pub use polynomial::Polynomial;
pub use scaled_translated::ScaledTranslatedEquation;
