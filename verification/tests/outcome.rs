use lp_solver::{
    ConstraintSense, GurobiStatus, NoSolution, RowBound, SolutionStatus, StatusVerdict,
    VariableType, cbc_outcome, cbc_row_bound, cbc_takes_bounds, classify_gurobi_status,
    outcome_from_solution_count,
};

#[test]
fn gurobi_statuses_are_classified() {
    assert_eq!(
        classify_gurobi_status(GurobiStatus::Optimal),
        StatusVerdict::Usable(SolutionStatus::Optimal)
    );
    assert_eq!(
        classify_gurobi_status(GurobiStatus::SubOptimal),
        StatusVerdict::Usable(SolutionStatus::Feasible)
    );
    assert_eq!(
        classify_gurobi_status(GurobiStatus::Infeasible),
        StatusVerdict::Unusable(NoSolution::Infeasible)
    );
    assert_eq!(
        classify_gurobi_status(GurobiStatus::Unbounded),
        StatusVerdict::Unusable(NoSolution::Unbounded)
    );
    assert_eq!(
        classify_gurobi_status(GurobiStatus::InfOrUnbd),
        StatusVerdict::Unusable(NoSolution::InfeasibleOrUnbounded)
    );
    for s in [GurobiStatus::Loaded, GurobiStatus::CutOff, GurobiStatus::InProgress] {
        assert_eq!(classify_gurobi_status(s), StatusVerdict::Unusable(NoSolution::Stopped));
    }
    for s in [
        GurobiStatus::IterationLimit,
        GurobiStatus::NodeLimit,
        GurobiStatus::TimeLimit,
        GurobiStatus::SolutionLimit,
        GurobiStatus::Interrupted,
        GurobiStatus::Numeric,
        GurobiStatus::UserObjLimit,
    ] {
        assert_eq!(classify_gurobi_status(s), StatusVerdict::DependsOnSolutionCount);
    }
}

#[test]
fn an_early_stop_is_usable_only_with_an_incumbent() {
    assert_eq!(outcome_from_solution_count(1), Ok(SolutionStatus::Feasible));
    assert_eq!(outcome_from_solution_count(12), Ok(SolutionStatus::Feasible));
    assert_eq!(outcome_from_solution_count(0), Err(NoSolution::Stopped));
    assert_eq!(outcome_from_solution_count(-1), Err(NoSolution::Stopped));
}

#[test]
fn cbc_reports_map_to_outcomes() {
    assert_eq!(cbc_outcome(true, false, false), Ok(SolutionStatus::Optimal));
    assert_eq!(cbc_outcome(true, true, true), Ok(SolutionStatus::Optimal));
    assert_eq!(cbc_outcome(false, true, false), Err(NoSolution::Infeasible));
    assert_eq!(cbc_outcome(false, true, true), Err(NoSolution::Infeasible));
    assert_eq!(cbc_outcome(false, false, true), Err(NoSolution::Unbounded));
    assert_eq!(cbc_outcome(false, false, false), Err(NoSolution::Stopped));
}

#[test]
fn cbc_rows_and_columns_follow_sense_and_type() {
    assert_eq!(cbc_row_bound(ConstraintSense::LessEqual), RowBound::Upper);
    assert_eq!(cbc_row_bound(ConstraintSense::Equal), RowBound::Equal);
    assert_eq!(cbc_row_bound(ConstraintSense::GreaterEqual), RowBound::Lower);
    assert!(cbc_takes_bounds(VariableType::Continuous));
    assert!(cbc_takes_bounds(VariableType::Integer));
    assert!(!cbc_takes_bounds(VariableType::Binary));
}
