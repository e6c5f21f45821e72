//! Decision logic of the salinity calculator's command-line run: where the
//! measurements come from, which step comes next, and which error ends a run.
//! The floating-point chemistry and the thermodynamic calls live beside it in
//! the application crate.

pub mod cli;
pub mod error;
pub mod solver;

pub use crate::cli::{input_source, run, Args, Event, InputSource, Stage, Step};
pub use crate::error::AppError;
pub use crate::solver::Progress;
