//! Error types for the model builder and its solver backends.
//!
//! The errors are split into focused leaf types — [`ConfigError`] for backend
//! selection, [`ModelError`] for model validation and [`NoSolution`] for a solve that
//! produced no usable solution — and a composite [`SolveError`] that joins them (and
//! any error reported by the Gurobi backend).

use vstd::prelude::*;
use vstd::string::*;

use crate::text::{append_decimal, decimal};

verus! {

/// The kind of standard I/O error that each error of this crate converts to.
#[derive(Debug, Clone, Copy, PartialEq, Eq, Structural)]
pub enum IoErrorKind {
    /// The input given to an operation was not valid (configuration problems).
    InvalidInput,
    /// The data handled by an operation was not valid (model and solution problems).
    InvalidData,
    /// Any other failure (errors reported by a backend).
    Other,
}

/// Errors arising from backend selection and the `LP_SOLVER` environment variable.
#[derive(Debug, Clone, PartialEq, Eq)]
#[non_exhaustive]
pub enum ConfigError {
    /// `LP_SOLVER` named a solver whose backend is not enabled.
    SolverNotEnabled {
        /// The solver requested via `LP_SOLVER` (`"gurobi"` or `"coin_cbc"`).
        requested: &'static str,
    },
    /// `LP_SOLVER` held a value that does not name any known solver.
    InvalidSolverName {
        /// The unrecognised value read from `LP_SOLVER`.
        name: String,
    },
    /// No solver backend is enabled.
    NoBackendAvailable,
}

/// The mathematical content of a [`ConfigError`].
pub enum ConfigErrorView {
    /// See [`ConfigError::SolverNotEnabled`].
    SolverNotEnabled(Seq<char>),
    /// See [`ConfigError::InvalidSolverName`].
    InvalidSolverName(Seq<char>),
    /// See [`ConfigError::NoBackendAvailable`].
    NoBackendAvailable,
}

impl View for ConfigError {
    type V = ConfigErrorView;

    open spec fn view(&self) -> ConfigErrorView {
        match self {
            ConfigError::SolverNotEnabled { requested } => ConfigErrorView::SolverNotEnabled(requested@),
            ConfigError::InvalidSolverName { name } => ConfigErrorView::InvalidSolverName(name@),
            ConfigError::NoBackendAvailable => ConfigErrorView::NoBackendAvailable,
        }
    }
}

/// The message of a configuration error.
pub open spec fn config_error_message(e: ConfigErrorView) -> Seq<char> {
    match e {
        ConfigErrorView::SolverNotEnabled(requested) => "solver '"@ + requested
            + "' was requested via LP_SOLVER but its Cargo feature is not enabled"@,
        ConfigErrorView::InvalidSolverName(name) => "invalid solver '"@ + name
            + "' in LP_SOLVER; valid options are: gurobi, coin_cbc"@,
        ConfigErrorView::NoBackendAvailable =>
            "no LP solver backend available; enable a solver feature (e.g. 'gurobi' or 'coin_cbc')"@,
    }
}

impl ConfigError {
    /// The human-readable message of this error.
    pub fn to_string(&self) -> (r: String)
        ensures
            r@ == config_error_message(self@),
    {
        match self {
            ConfigError::SolverNotEnabled { requested } => {
                let mut s = String::from_str("solver '");
                s.append(requested);
                s.append("' was requested via LP_SOLVER but its Cargo feature is not enabled");
                s
            },
            ConfigError::InvalidSolverName { name } => {
                let mut s = String::from_str("invalid solver '");
                s.append(name.as_str());
                s.append("' in LP_SOLVER; valid options are: gurobi, coin_cbc");
                s
            },
            ConfigError::NoBackendAvailable => String::from_str(
                "no LP solver backend available; enable a solver feature (e.g. 'gurobi' or 'coin_cbc')",
            ),
        }
    }

    /// Configuration errors are invalid input.
    pub fn io_error_kind(&self) -> (r: IoErrorKind)
        ensures
            r == IoErrorKind::InvalidInput,
    {
        IoErrorKind::InvalidInput
    }
}

/// Errors arising from validating a model before it is handed to a backend.
#[derive(Debug, Clone, PartialEq, Eq, Structural)]
#[non_exhaustive]
pub enum ModelError {
    /// An expression referenced a variable that is not part of the model.
    UnknownVariable {
        /// The offending variable index.
        id: usize,
        /// The number of variables actually present in the model.
        count: usize,
    },
}

/// The message of a model error.
pub open spec fn model_error_message(e: ModelError) -> Seq<char> {
    match e {
        ModelError::UnknownVariable { id, count } => "variable index "@ + decimal(id as nat)
            + " is out of range for a model with "@ + decimal(count as nat) + " variable(s)"@,
    }
}

impl ModelError {
    /// The human-readable message of this error.
    pub fn to_string(&self) -> (r: String)
        ensures
            r@ == model_error_message(*self),
    {
        match self {
            ModelError::UnknownVariable { id, count } => {
                let mut s = String::from_str("variable index ");
                append_decimal(&mut s, *id);
                s.append(" is out of range for a model with ");
                append_decimal(&mut s, *count);
                s.append(" variable(s)");
                s
            },
        }
    }

    /// Model errors are invalid data.
    pub fn io_error_kind(&self) -> (r: IoErrorKind)
        ensures
            r == IoErrorKind::InvalidData,
    {
        IoErrorKind::InvalidData
    }
}

/// A negative optimisation outcome: the solve ran but produced no usable solution.
#[derive(Debug, Clone, Copy, PartialEq, Eq, Structural)]
#[non_exhaustive]
pub enum NoSolution {
    /// The model was proven infeasible: no assignment satisfies the constraints.
    Infeasible,
    /// The model was proven unbounded: the objective can be improved without limit.
    Unbounded,
    /// The model is infeasible or unbounded; the solver could not distinguish the two.
    InfeasibleOrUnbounded,
    /// The solver stopped before reaching a conclusion and without a usable solution.
    Stopped,
}

/// The message of a no-solution outcome.
pub open spec fn no_solution_message(e: NoSolution) -> Seq<char> {
    match e {
        NoSolution::Infeasible => "the model is infeasible"@,
        NoSolution::Unbounded => "the model is unbounded"@,
        NoSolution::InfeasibleOrUnbounded => "the model is infeasible or unbounded"@,
        NoSolution::Stopped => "the solver stopped without finding a solution"@,
    }
}

impl NoSolution {
    /// The human-readable message of this outcome.
    pub fn to_string(&self) -> (r: String)
        ensures
            r@ == no_solution_message(*self),
    {
        let reason = match self {
            NoSolution::Infeasible => "the model is infeasible",
            NoSolution::Unbounded => "the model is unbounded",
            NoSolution::InfeasibleOrUnbounded => "the model is infeasible or unbounded",
            NoSolution::Stopped => "the solver stopped without finding a solution",
        };
        String::from_str(reason)
    }

    /// No-solution outcomes are invalid data.
    pub fn io_error_kind(&self) -> (r: IoErrorKind)
        ensures
            r == IoErrorKind::InvalidData,
    {
        IoErrorKind::InvalidData
    }
}

/// An error reported by the Gurobi backend, kept as its message.
#[derive(Debug, Clone, PartialEq, Eq)]
pub struct GurobiError {
    /// The message that Gurobi reported.
    pub message: String,
}

/// Errors that can occur while solving a model.
#[derive(Debug)]
#[non_exhaustive]
pub enum SolveError {
    /// Backend selection / configuration error.
    Config(ConfigError),
    /// Model validation error.
    Model(ModelError),
    /// The solve completed but yielded no usable solution (infeasible, unbounded, ...).
    NoSolution(NoSolution),
    /// The Gurobi backend returned an error.
    Gurobi(GurobiError),
}

/// The underlying error that a [`SolveError`] wraps.
#[derive(Debug)]
pub enum ErrorSource<'a> {
    /// The wrapped configuration error.
    Config(&'a ConfigError),
    /// The wrapped model error.
    Model(&'a ModelError),
    /// The wrapped no-solution outcome.
    NoSolution(&'a NoSolution),
    /// The wrapped Gurobi error.
    Gurobi(&'a GurobiError),
}

/// The message of a solve error.
pub open spec fn solve_error_message(e: SolveError) -> Seq<char> {
    match e {
        SolveError::Config(c) => "configuration error: "@ + config_error_message(c@),
        SolveError::Model(m) => "model error: "@ + model_error_message(m),
        SolveError::NoSolution(n) => "no solution: "@ + no_solution_message(n),
        SolveError::Gurobi(g) => "Gurobi backend error: "@ + g.message@,
    }
}

impl SolveError {
    /// The human-readable message of this error.
    pub fn to_string(&self) -> (r: String)
        ensures
            r@ == solve_error_message(*self),
    {
        match self {
            SolveError::Config(e) => String::from_str("configuration error: ").concat(e.to_string().as_str()),
            SolveError::Model(e) => String::from_str("model error: ").concat(e.to_string().as_str()),
            SolveError::NoSolution(e) => String::from_str("no solution: ").concat(e.to_string().as_str()),
            SolveError::Gurobi(e) => String::from_str("Gurobi backend error: ").concat(e.message.as_str()),
        }
    }

    /// The error this one wraps; every solve error wraps one.
    pub fn source(&self) -> (r: Option<ErrorSource<'_>>)
        ensures
            match (self, r) {
                (SolveError::Config(e), Some(ErrorSource::Config(s))) => *s == *e,
                (SolveError::Model(e), Some(ErrorSource::Model(s))) => *s == *e,
                (SolveError::NoSolution(e), Some(ErrorSource::NoSolution(s))) => *s == *e,
                (SolveError::Gurobi(e), Some(ErrorSource::Gurobi(s))) => *s == *e,
                _ => false,
            },
    {
        match self {
            SolveError::Config(e) => Some(ErrorSource::Config(e)),
            SolveError::Model(e) => Some(ErrorSource::Model(e)),
            SolveError::NoSolution(e) => Some(ErrorSource::NoSolution(e)),
            SolveError::Gurobi(e) => Some(ErrorSource::Gurobi(e)),
        }
    }

    /// The I/O error kind of the wrapped error; a Gurobi error is `Other`.
    pub fn io_error_kind(&self) -> (r: IoErrorKind)
        ensures
            r == match self {
                SolveError::Config(_) => IoErrorKind::InvalidInput,
                SolveError::Model(_) => IoErrorKind::InvalidData,
                SolveError::NoSolution(_) => IoErrorKind::InvalidData,
                SolveError::Gurobi(_) => IoErrorKind::Other,
            },
    {
        match self {
            SolveError::Config(e) => e.io_error_kind(),
            SolveError::Model(e) => e.io_error_kind(),
            SolveError::NoSolution(e) => e.io_error_kind(),
            SolveError::Gurobi(_) => IoErrorKind::Other,
        }
    }
}

impl From<ConfigError> for SolveError {
    fn from(err: ConfigError) -> (r: Self) {
        SolveError::Config(err)
    }
}

impl vstd::std_specs::convert::FromSpecImpl<ConfigError> for SolveError {
    open spec fn obeys_from_spec() -> bool {
        true
    }

    open spec fn from_spec(v: ConfigError) -> SolveError {
        SolveError::Config(v)
    }
}

impl From<ModelError> for SolveError {
    fn from(err: ModelError) -> (r: Self) {
        SolveError::Model(err)
    }
}

impl vstd::std_specs::convert::FromSpecImpl<ModelError> for SolveError {
    open spec fn obeys_from_spec() -> bool {
        true
    }

    open spec fn from_spec(v: ModelError) -> SolveError {
        SolveError::Model(v)
    }
}

impl From<NoSolution> for SolveError {
    fn from(err: NoSolution) -> (r: Self) {
        SolveError::NoSolution(err)
    }
}

impl vstd::std_specs::convert::FromSpecImpl<NoSolution> for SolveError {
    open spec fn obeys_from_spec() -> bool {
        true
    }

    open spec fn from_spec(v: NoSolution) -> SolveError {
        SolveError::NoSolution(v)
    }
}

} // verus!
