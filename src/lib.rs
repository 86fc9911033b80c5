//! Safe, verified binding layer for a native non-linear least squares solver.
//!
//! The library owns everything that is decided on the host side: parameter
//! storage with stable, append-only indices, the staged builder of residual
//! blocks, the shape of the buffers handed to cost functions, the record of
//! calls made to the native problem, and the solver configuration. The native
//! engine itself is driven by the embedding application from the
//! [`nlls_problem::SolveRequest`] that a problem turns into when solved.

pub mod cost;
pub mod curve_fit;
pub mod error;
pub mod loss;
pub mod nlls_problem;
pub mod parameter_block;
pub mod parameters;
pub mod residual_block;
pub mod solver;

pub use curve_fit::CurveFitProblem1D;
pub use loss::LossFunction;
pub use nlls_problem::NllsProblem;
pub use parameter_block::{ParameterBlock, ParameterBlockOrIndex};
pub use solver::SolverOptions;
