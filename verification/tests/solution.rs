use lp_solver::{LPSolution, ModelStore, SolutionStatus, VariableId};

/// The identifiers of the first `n` variables of a model branded `()`.
fn minted_ids(n: usize) -> Vec<VariableId<()>> {
    let mut store: ModelStore<(), (), (), ()> = ModelStore::new();
    (0..n).map(|_| store.add_variable(())).collect()
}

#[test]
fn get_value_returns_none_for_out_of_range_id() {
    let solution: LPSolution<(), f64> =
        LPSolution::new(SolutionStatus::Optimal, 0.0, vec![1.0, 2.0]);
    let ids = minted_ids(6);
    let valid = ids[1];
    let invalid = ids[5];
    assert_eq!(solution.get_value(valid), Some(2.0));
    assert_eq!(solution.get_value(invalid), None);
}

#[test]
fn values_come_in_variable_order() {
    let solution: LPSolution<(), f64> =
        LPSolution::new(SolutionStatus::Feasible, 30.0, vec![0.0, 10.0]);
    assert_eq!(solution.status, SolutionStatus::Feasible);
    assert_eq!(solution.objective_value, 30.0);
    assert_eq!(solution.values(), &[0.0, 10.0]);
    assert_eq!(solution.get_value(minted_ids(1)[0]), Some(0.0));

    let empty: LPSolution<(), f64> = LPSolution::new(SolutionStatus::Optimal, 0.0, Vec::new());
    assert_eq!(empty.values().len(), 0);
    assert_eq!(empty.get_value(minted_ids(1)[0]), None);
}

#[test]
fn a_cloned_solution_has_the_same_status_and_values() {
    let solution: LPSolution<(), f64> =
        LPSolution::new(SolutionStatus::Optimal, 12.5, vec![2.5, 5.0]);
    let copy = solution.clone();
    assert_eq!(copy.status, SolutionStatus::Optimal);
    assert_eq!(copy.objective_value, 12.5);
    assert_eq!(copy.values(), solution.values());
}
