//! Safe, verified core of a wrapper around a native matrix-factorization
//! engine: sparse training data, hyperparameter validation, and the layout
//! of the latent-factor buffers that a trained model exposes.
//!
//! Floating-point values are carried as their IEEE-754 bit patterns
//! (`Float32`, `Float64`), so that every rule that reads them is stated and
//! proved over plain integers.
pub mod error;
pub mod float;
pub mod layout;
pub mod loss;
pub mod matrix;
pub mod params;

pub use error::{save_result, Error};
pub use float::{Float32, Float64};
pub use layout::FactorLayout;
pub use loss::Loss;
pub use matrix::{Matrix, MfNode, MfProblem};
pub use params::{cross_validation_result, MfParameter, Params};
