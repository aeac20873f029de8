use std::collections::HashSet;

use lp_solver::{
    ModelError, ModelStore, VariableId, VariableType, group_terms, validate_variables,
};

#[derive(Debug)]
struct TestModel;

type Store = ModelStore<TestModel, VariableType, &'static str, &'static str>;

/// The identifiers of the first `n` variables of a model branded `TestModel`.
fn minted_ids(n: usize) -> Vec<VariableId<TestModel>> {
    let mut store: Store = ModelStore::new();
    (0..n).map(|_| store.add_variable(VariableType::Continuous)).collect()
}

#[test]
fn validate_rejects_variable_from_outside_the_model() {
    // A malformed model must fail gracefully with a recoverable error.
    let mut store: Store = ModelStore::new();
    let _real = store.add_variable(VariableType::Continuous);
    // An identifier minted by a larger model of the same brand.
    let bogus: VariableId<TestModel> = minted_ids(100)[99];
    store.add_constraint("bogus <= 5", vec![bogus]);
    assert!(matches!(
        store.validate(),
        Err(ModelError::UnknownVariable {
            id: 99,
            count: 1
        })
    ));
}

#[test]
fn validate_reports_the_first_unknown_variable_in_order() {
    let ids = minted_ids(10);
    let v = |i: usize| ids[i];
    let expressions = vec![vec![v(0), v(1)], vec![], vec![v(1), v(7), v(5)], vec![v(9)]];
    assert_eq!(
        validate_variables(3, &expressions),
        Err(ModelError::UnknownVariable { id: 7, count: 3 })
    );
    assert_eq!(validate_variables(10, &expressions), Ok(()));
    let empty: Vec<Vec<VariableId<TestModel>>> = Vec::new();
    assert_eq!(validate_variables(0, &empty), Ok(()));
    assert_eq!(
        validate_variables(0, &vec![vec![v(0)]]),
        Err(ModelError::UnknownVariable { id: 0, count: 0 })
    );
}

#[test]
fn variables_are_numbered_in_order_of_addition() {
    let mut store: Store = ModelStore::new();
    let x = store.add_variable(VariableType::Continuous);
    let y = store.add_variable(VariableType::Integer);
    let z = store.add_variable(VariableType::Binary);
    assert_eq!((x.index(), y.index(), z.index()), (0, 1, 2));
    assert!(x != y && y != z);
    assert_eq!(store.variable_count(), 3);
    assert_eq!(
        store.variables(),
        &vec![VariableType::Continuous, VariableType::Integer, VariableType::Binary]
    );
}

#[test]
fn removing_a_constraint_keeps_other_handles_valid() {
    let mut store: Store = ModelStore::new();
    let a = store.add_constraint("a", Vec::new());
    let b = store.add_constraint("b", Vec::new());
    let c = store.add_constraint("c", Vec::new());
    assert_eq!(store.remove_constraint(b), Some("b"));
    assert_eq!(store.remove_constraint(b), None);
    assert_eq!(store.constraint(a), Some(&"a"));
    assert_eq!(store.constraint(b), None);
    assert_eq!(store.constraint(c), Some(&"c"));
    assert_eq!(store.slot_count(), 3);
    assert_eq!(store.active_constraints(), vec![a, c]);
    let d = store.add_constraint("d", Vec::new());
    assert_eq!(d.index(), 3);
    assert_eq!(store.active_constraints(), vec![a, c, d]);
    assert_eq!(store.remove_constraint(a), Some("a"));
    assert_eq!(store.remove_constraint(c), Some("c"));
    assert_eq!(store.active_constraints(), vec![d]);
}

#[test]
fn a_handle_from_another_store_finds_nothing() {
    let mut small: Store = ModelStore::new();
    let mut large: Store = ModelStore::new();
    large.add_constraint("x", Vec::new());
    let foreign = large.add_constraint("y", Vec::new());
    small.add_constraint("only", Vec::new());
    assert_eq!(small.remove_constraint(foreign), None);
    assert_eq!(small.constraint(foreign), None);
    assert_eq!(small.slot_count(), 1);
}

#[test]
fn setting_the_objective_replaces_it() {
    let mut store: Store = ModelStore::new();
    assert_eq!(store.objective(), None);
    store.set_objective("max x", Vec::new());
    store.set_objective("min y", Vec::new());
    assert_eq!(store.objective(), Some(&"min y"));
}

#[test]
fn repeated_variables_are_grouped_by_first_appearance() {
    let ids = minted_ids(6);
    let v = |i: usize| ids[i];
    let groups = group_terms(&vec![v(2), v(0), v(2), v(5), v(0), v(2)]);
    let order: Vec<usize> = groups.variables.iter().map(|x| x.index()).collect();
    assert_eq!(order, vec![2, 0, 5]);
    assert_eq!(groups.group_of_term, vec![0, 1, 0, 2, 1, 0]);

    let single = group_terms(&vec![v(4), v(4)]);
    assert_eq!(single.variables.len(), 1);
    assert_eq!(single.group_of_term, vec![0, 0]);

    let none = group_terms(&Vec::<VariableId<TestModel>>::new());
    assert!(none.variables.is_empty() && none.group_of_term.is_empty());
}

#[test]
fn variable_ids_compare_and_hash_by_position() {
    let ids = minted_ids(6);
    let a = ids[4];
    let b = minted_ids(5)[4];
    let c = a.clone();
    assert_eq!(a, b);
    assert_eq!(c.index(), 4);
    assert_ne!(a, ids[5]);
    let set: HashSet<VariableId<TestModel>> = [a, b, c, ids[5]].into_iter().collect();
    assert_eq!(set.len(), 2);
    assert!(format!("{:?}", a).contains("VariableId"));
}

#[test]
fn validation_checks_live_constraints_then_the_objective() {
    let outside = minted_ids(9);
    let mut store: Store = ModelStore::new();
    let x = store.add_variable(VariableType::Continuous);
    let y = store.add_variable(VariableType::Continuous);
    assert_eq!(store.validate(), Ok(()));
    let bad = store.add_constraint("x + outside7 <= 1", vec![x, outside[7]]);
    store.add_constraint("y + outside4 >= 0", vec![y, outside[4]]);
    store.set_objective("max outside8", vec![outside[8]]);
    assert_eq!(store.validate(), Err(ModelError::UnknownVariable { id: 7, count: 2 }));
    // A removed constraint is no longer checked.
    store.remove_constraint(bad);
    assert_eq!(store.validate(), Err(ModelError::UnknownVariable { id: 4, count: 2 }));
    store.set_objective("max y", vec![y]);
    store.add_constraint("x + y <= 3", vec![x, y]);
    assert_eq!(store.validate(), Err(ModelError::UnknownVariable { id: 4, count: 2 }));
    let mut clean: Store = ModelStore::new();
    let z = clean.add_variable(VariableType::Binary);
    clean.set_objective("max outside5", vec![outside[5]]);
    clean.add_constraint("z <= 1", vec![z]);
    assert_eq!(clean.validate(), Err(ModelError::UnknownVariable { id: 5, count: 1 }));
    clean.set_objective("max z", vec![z]);
    assert_eq!(clean.validate(), Ok(()));
}
