//! Decision logic of a Black-Scholes-Merton option engine: the option kind,
//! the validation of the model parameters and the control of the
//! Newton-Raphson implied-volatility search.
//!
//! The arithmetic itself works on real numbers held in floating point and
//! lives with the program around this library; what is decided from the
//! outcome of each numeric comparison is stated and proved here.

pub mod option;
pub mod solver;
pub mod validation;

pub use option::OptionType;
pub use solver::{ConvergenceFailure, Evaluation, SolverAction, SolverState};
pub use validation::{check_parameters, InvalidParameter};
