//! Solver-agnostic core of a linear / mixed-integer programming model builder.

pub mod analysis;
pub mod backend;
pub mod error;
pub mod io;
pub mod model;
pub mod outcome;
pub mod solution;
pub mod store;
pub mod text;

pub use model::{ConstraintId, ConstraintSense, OptimisationSense, SolutionStatus, VariableId, VariableType};
pub use store::ModelStore;
pub use error::{ConfigError, ErrorSource, GurobiError, IoErrorKind, ModelError, NoSolution, SolveError};
pub use backend::{BackendFeatures, SolvePlan, SolverBackend, fallback_after, fallback_notice, plan_solve};
pub use analysis::{TermGroups, group_terms, validate_variables};
pub use outcome::{GurobiStatus, RowBound, StatusVerdict, cbc_outcome, cbc_row_bound, cbc_takes_bounds, classify_gurobi_status, outcome_from_solution_count};
pub use solution::LPSolution;
