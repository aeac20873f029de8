# lp_solver

A linear / mixed-integer programming model builder with pluggable solver backends
(COIN-OR CBC and Gurobi), whose solver-agnostic core is verified with Verus.

## Layout

- `src/` — the verified library:
  - `model.rs`: variable types, senses, solution status, `VariableId`, `ConstraintId`.
  - `store.rs`: `ModelStore`, the variables, tombstone constraint slots and objective
    of a model (each constraint and the objective kept with the variables they
    reference), its validation, and the laws that keep constraint handles stable.
  - `analysis.rs`: validation of the variables a list of expressions references, and
    the grouping of repeated variables in first-appearance order.
  - `backend.rs`: backend selection from `LP_SOLVER`, the Gurobi-first plan and its
    fall back to CBC.
  - `outcome.rs`: how Gurobi and CBC statuses become a usable solution or a
    no-solution outcome, and how constraints and variables are laid out for CBC.
  - `solution.rs`: `LPSolution`, generic over the value type.
  - `error.rs`, `io.rs`: the error types, their messages and their I/O conversions.
  - `text.rs`: string comparison and decimal rendering.
- `app/` — the `f64` front end: expressions with operator syntax, constraints, the
  builder, the `constraint!` and `lp_model_builder!` macros, and the two backends,
  which call the solver libraries.
- `tests/` — tests of the library.
