//! Reading a backend's report: how a solver status becomes a usable solution or a
//! no-solution outcome, and how a model is laid out for COIN-OR CBC.

use vstd::prelude::*;

use crate::error::NoSolution;
use crate::model::{ConstraintSense, SolutionStatus, VariableType};

verus! {

/// The status of a Gurobi model after optimisation.
#[derive(Debug, Clone, Copy, PartialEq, Eq, Structural)]
pub enum GurobiStatus {
    /// Model is loaded, but no solution information is available.
    Loaded,
    /// Model was solved to optimality (subject to tolerances).
    Optimal,
    /// Model was proven to be infeasible.
    Infeasible,
    /// Model was proven to be either infeasible or unbounded.
    InfOrUnbd,
    /// Model was proven to be unbounded.
    Unbounded,
    /// Optimal objective was proven worse than the cutoff; no solution information.
    CutOff,
    /// The iteration limit was reached.
    IterationLimit,
    /// The node limit was reached.
    NodeLimit,
    /// The time limit was reached.
    TimeLimit,
    /// The solution limit was reached.
    SolutionLimit,
    /// Optimisation was interrupted by the user.
    Interrupted,
    /// Optimisation stopped on unrecoverable numerical difficulties.
    Numeric,
    /// Optimality tolerances could not be met; a sub-optimal solution is available.
    SubOptimal,
    /// An asynchronous optimisation is not yet complete.
    InProgress,
    /// A user objective limit was reached.
    UserObjLimit,
}

/// What a Gurobi status says on its own.
#[derive(Debug, Clone, Copy, PartialEq, Eq, Structural)]
pub enum StatusVerdict {
    /// A usable solution is available, with this status.
    Usable(SolutionStatus),
    /// No usable solution is available, for this reason.
    Unusable(NoSolution),
    /// The solve stopped early: a solution is usable only if the solver holds one.
    DependsOnSolutionCount,
}

/// The verdict of a Gurobi status.
pub open spec fn gurobi_verdict(status: GurobiStatus) -> StatusVerdict {
    match status {
        GurobiStatus::Optimal => StatusVerdict::Usable(SolutionStatus::Optimal),
        GurobiStatus::SubOptimal => StatusVerdict::Usable(SolutionStatus::Feasible),
        GurobiStatus::Infeasible => StatusVerdict::Unusable(NoSolution::Infeasible),
        GurobiStatus::Unbounded => StatusVerdict::Unusable(NoSolution::Unbounded),
        GurobiStatus::InfOrUnbd => StatusVerdict::Unusable(NoSolution::InfeasibleOrUnbounded),
        GurobiStatus::Loaded | GurobiStatus::CutOff | GurobiStatus::InProgress => StatusVerdict::Unusable(
            NoSolution::Stopped,
        ),
        _ => StatusVerdict::DependsOnSolutionCount,
    }
}

/// Classify a Gurobi status: a proven optimum is usable as `Optimal`, a sub-optimal
/// solution as `Feasible`; infeasible, unbounded and the statuses without solution
/// information are no-solution outcomes; the remaining (limit, interrupt, numerical)
/// statuses depend on whether the solver holds a solution.
pub fn classify_gurobi_status(status: GurobiStatus) -> (r: StatusVerdict)
    ensures
        r == gurobi_verdict(status),
{
    match status {
        GurobiStatus::Optimal => StatusVerdict::Usable(SolutionStatus::Optimal),
        GurobiStatus::SubOptimal => StatusVerdict::Usable(SolutionStatus::Feasible),
        GurobiStatus::Infeasible => StatusVerdict::Unusable(NoSolution::Infeasible),
        GurobiStatus::Unbounded => StatusVerdict::Unusable(NoSolution::Unbounded),
        GurobiStatus::InfOrUnbd => StatusVerdict::Unusable(NoSolution::InfeasibleOrUnbounded),
        GurobiStatus::Loaded | GurobiStatus::CutOff | GurobiStatus::InProgress => StatusVerdict::Unusable(
            NoSolution::Stopped,
        ),
        _ => StatusVerdict::DependsOnSolutionCount,
    }
}

/// The outcome of a solve that stopped early, given how many solutions the solver
/// holds: any solution is usable as `Feasible`, none means `Stopped`.
pub fn outcome_from_solution_count(solution_count: i32) -> (r: Result<SolutionStatus, NoSolution>)
    ensures
        r == (if solution_count > 0 {
            Ok::<SolutionStatus, NoSolution>(SolutionStatus::Feasible)
        } else {
            Err(NoSolution::Stopped)
        }),
{
    if solution_count > 0 {
        Ok(SolutionStatus::Feasible)
    } else {
        Err(NoSolution::Stopped)
    }
}

/// The outcome of a CBC solve from what CBC reports about it.
pub open spec fn cbc_outcome_spec(proven_optimal: bool, proven_infeasible: bool, continuous_unbounded: bool) -> Result<
    SolutionStatus,
    NoSolution,
> {
    if proven_optimal {
        Ok(SolutionStatus::Optimal)
    } else if proven_infeasible {
        Err(NoSolution::Infeasible)
    } else if continuous_unbounded {
        Err(NoSolution::Unbounded)
    } else {
        Err(NoSolution::Stopped)
    }
}

/// The outcome of a CBC solve: a proven optimum is usable; otherwise the solve
/// yields no solution, as infeasible, unbounded, or stopped, in that order of
/// precedence.
pub fn cbc_outcome(proven_optimal: bool, proven_infeasible: bool, continuous_unbounded: bool) -> (r: Result<
    SolutionStatus,
    NoSolution,
>)
    ensures
        r == cbc_outcome_spec(proven_optimal, proven_infeasible, continuous_unbounded),
{
    if proven_optimal {
        Ok(SolutionStatus::Optimal)
    } else if proven_infeasible {
        Err(NoSolution::Infeasible)
    } else if continuous_unbounded {
        Err(NoSolution::Unbounded)
    } else {
        Err(NoSolution::Stopped)
    }
}

/// Which bound of a CBC row a constraint sets to its right-hand side.
#[derive(Debug, Clone, Copy, PartialEq, Eq, Structural)]
pub enum RowBound {
    /// The row's upper bound (`<=`).
    Upper,
    /// Both bounds (`==`).
    Equal,
    /// The row's lower bound (`>=`).
    Lower,
}

/// The CBC row bound that a constraint of this sense sets.
pub fn cbc_row_bound(sense: ConstraintSense) -> (r: RowBound)
    ensures
        r == match sense {
            ConstraintSense::LessEqual => RowBound::Upper,
            ConstraintSense::Equal => RowBound::Equal,
            ConstraintSense::GreaterEqual => RowBound::Lower,
        },
{
    match sense {
        ConstraintSense::LessEqual => RowBound::Upper,
        ConstraintSense::Equal => RowBound::Equal,
        ConstraintSense::GreaterEqual => RowBound::Lower,
    }
}

/// Whether CBC receives a variable's own bounds: continuous and integer columns take
/// them, a binary column keeps its fixed 0..1 range.
pub fn cbc_takes_bounds(var_type: VariableType) -> (r: bool)
    ensures
        r == !(var_type is Binary),
{
    match var_type {
        VariableType::Binary => false,
        _ => true,
    }
}

} // verus!
