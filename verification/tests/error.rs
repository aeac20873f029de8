use std::io;

use lp_solver::{ConfigError, ErrorSource, IoErrorKind, ModelError, NoSolution, SolveError};

#[test]
fn config_error_displays_requested_solver() {
    let err = ConfigError::SolverNotEnabled {
        requested: "gurobi",
    };
    let msg = err.to_string();
    assert!(msg.contains("gurobi"));
    assert!(msg.contains("not enabled"));
}

#[test]
fn config_error_displays_invalid_name() {
    let err = ConfigError::InvalidSolverName {
        name: "glpk".to_string(),
    };
    let msg = err.to_string();
    assert!(msg.contains("glpk"));
    assert!(msg.contains("valid options"));
}

#[test]
fn model_error_displays_index_and_count() {
    let err = ModelError::UnknownVariable { id: 7, count: 3 };
    let msg = err.to_string();
    assert!(msg.contains('7'));
    assert!(msg.contains('3'));
}

#[test]
fn no_solution_displays_reason() {
    assert!(NoSolution::Infeasible.to_string().contains("infeasible"));
    assert!(NoSolution::Unbounded.to_string().contains("unbounded"));
    assert!(NoSolution::Stopped.to_string().contains("stopped"));
}

#[test]
fn solve_error_from_no_solution_sets_variant_and_source() {
    let err: SolveError = NoSolution::Infeasible.into();
    assert!(matches!(
        err,
        SolveError::NoSolution(NoSolution::Infeasible)
    ));
    assert!(err.source().is_some());
}

#[test]
fn no_solution_to_io_error_is_invalid_data() {
    let io_err: io::Error = NoSolution::Unbounded.into();
    assert_eq!(io_err.kind(), io::ErrorKind::InvalidData);
}

#[test]
fn solve_error_from_config_sets_variant_and_source() {
    let err: SolveError = ConfigError::NoBackendAvailable.into();
    assert!(matches!(err, SolveError::Config(_)));
    assert!(err.source().is_some());
}

#[test]
fn solve_error_from_model_sets_variant_and_source() {
    let err: SolveError = ModelError::UnknownVariable { id: 1, count: 0 }.into();
    assert!(matches!(err, SolveError::Model(_)));
    assert!(err.source().is_some());
}

#[test]
fn config_error_to_io_error_is_invalid_input() {
    let io_err: io::Error = ConfigError::NoBackendAvailable.into();
    assert_eq!(io_err.kind(), io::ErrorKind::InvalidInput);
}

#[test]
fn model_error_to_io_error_is_invalid_data() {
    let io_err: io::Error = ModelError::UnknownVariable { id: 1, count: 0 }.into();
    assert_eq!(io_err.kind(), io::ErrorKind::InvalidData);
}

#[test]
fn solve_error_config_to_io_error_preserves_kind() {
    let solve_err = SolveError::Config(ConfigError::NoBackendAvailable);
    let io_err: io::Error = solve_err.into();
    assert_eq!(io_err.kind(), io::ErrorKind::InvalidInput);
}

#[test]
fn solve_error_model_to_io_error_preserves_kind() {
    let solve_err = SolveError::Model(ModelError::UnknownVariable { id: 1, count: 0 });
    let io_err: io::Error = solve_err.into();
    assert_eq!(io_err.kind(), io::ErrorKind::InvalidData);
}

// Exact messages and conversions.

#[test]
fn config_error_messages_are_exact() {
    assert_eq!(
        ConfigError::SolverNotEnabled { requested: "coin_cbc" }.to_string(),
        "solver 'coin_cbc' was requested via LP_SOLVER but its Cargo feature is not enabled"
    );
    assert_eq!(
        ConfigError::InvalidSolverName { name: "GLPK".to_string() }.to_string(),
        "invalid solver 'GLPK' in LP_SOLVER; valid options are: gurobi, coin_cbc"
    );
    assert_eq!(
        ConfigError::NoBackendAvailable.to_string(),
        "no LP solver backend available; enable a solver feature (e.g. 'gurobi' or 'coin_cbc')"
    );
}

#[test]
fn model_error_message_writes_numbers_in_decimal() {
    assert_eq!(
        ModelError::UnknownVariable { id: 0, count: 10 }.to_string(),
        "variable index 0 is out of range for a model with 10 variable(s)"
    );
    assert_eq!(
        ModelError::UnknownVariable { id: 1024, count: 907 }.to_string(),
        "variable index 1024 is out of range for a model with 907 variable(s)"
    );
    assert_eq!(
        ModelError::UnknownVariable { id: usize::MAX, count: 1 }.to_string(),
        format!("variable index {} is out of range for a model with 1 variable(s)", usize::MAX)
    );
}

#[test]
fn no_solution_messages_are_exact() {
    assert_eq!(NoSolution::Infeasible.to_string(), "the model is infeasible");
    assert_eq!(NoSolution::Unbounded.to_string(), "the model is unbounded");
    assert_eq!(
        NoSolution::InfeasibleOrUnbounded.to_string(),
        "the model is infeasible or unbounded"
    );
    assert_eq!(
        NoSolution::Stopped.to_string(),
        "the solver stopped without finding a solution"
    );
}

#[test]
fn solve_error_messages_prefix_the_wrapped_message() {
    let err = SolveError::NoSolution(NoSolution::Stopped);
    assert_eq!(
        err.to_string(),
        "no solution: the solver stopped without finding a solution"
    );
    let err = SolveError::Model(ModelError::UnknownVariable { id: 4, count: 2 });
    assert_eq!(
        err.to_string(),
        "model error: variable index 4 is out of range for a model with 2 variable(s)"
    );
    let err = SolveError::Config(ConfigError::NoBackendAvailable);
    assert!(err.to_string().starts_with("configuration error: no LP solver backend"));
    let err = SolveError::Gurobi(lp_solver::GurobiError {
        message: "Error from API: no licence (10009)".to_string(),
    });
    assert_eq!(
        err.to_string(),
        "Gurobi backend error: Error from API: no licence (10009)"
    );
}

#[test]
fn source_returns_the_wrapped_error() {
    let err = SolveError::Model(ModelError::UnknownVariable { id: 4, count: 2 });
    match err.source() {
        Some(ErrorSource::Model(inner)) => {
            assert_eq!(*inner, ModelError::UnknownVariable { id: 4, count: 2 })
        }
        other => panic!("unexpected source {other:?}"),
    }
    let err = SolveError::Gurobi(lp_solver::GurobiError { message: "x".to_string() });
    assert!(matches!(err.source(), Some(ErrorSource::Gurobi(_))));
}

#[test]
fn io_error_kinds_follow_the_error_family() {
    assert_eq!(ConfigError::NoBackendAvailable.io_error_kind(), IoErrorKind::InvalidInput);
    assert_eq!(
        ModelError::UnknownVariable { id: 1, count: 0 }.io_error_kind(),
        IoErrorKind::InvalidData
    );
    assert_eq!(NoSolution::Stopped.io_error_kind(), IoErrorKind::InvalidData);
    let err = SolveError::Gurobi(lp_solver::GurobiError { message: "boom".to_string() });
    assert_eq!(err.io_error_kind(), IoErrorKind::Other);
    let io_err: io::Error = err.into();
    assert_eq!(io_err.kind(), io::ErrorKind::Other);
    assert_eq!(io_err.to_string(), "boom");
}

#[test]
fn io_error_carries_the_leaf_message() {
    let io_err: io::Error = SolveError::NoSolution(NoSolution::Infeasible).into();
    assert_eq!(io_err.kind(), io::ErrorKind::InvalidData);
    assert_eq!(io_err.to_string(), "the model is infeasible");
}

#[test]
fn io_errors_carry_the_message_of_each_family() {
    let io_err: io::Error = ConfigError::InvalidSolverName { name: "glpk".to_string() }.into();
    assert_eq!(io_err.kind(), io::ErrorKind::InvalidInput);
    assert_eq!(
        io_err.to_string(),
        "invalid solver 'glpk' in LP_SOLVER; valid options are: gurobi, coin_cbc"
    );
    let io_err: io::Error = ModelError::UnknownVariable { id: 12, count: 3 }.into();
    assert_eq!(
        io_err.to_string(),
        "variable index 12 is out of range for a model with 3 variable(s)"
    );
    let io_err: io::Error = SolveError::Config(ConfigError::NoBackendAvailable).into();
    let leaf: io::Error = ConfigError::NoBackendAvailable.into();
    assert_eq!(io_err.kind(), leaf.kind());
    assert_eq!(io_err.to_string(), leaf.to_string());
}
