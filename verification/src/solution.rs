//! The result of a successful solve.

use std::marker::PhantomData;
use vstd::prelude::*;

use crate::model::{SolutionStatus, VariableId};

verus! {

/// Result of solving a model branded `Brand`, with values of type `V`.
///
/// Only produced for a successful solve, so its values are meaningful; the status
/// distinguishes a proven-optimal solution from a merely feasible one.
pub struct LPSolution<Brand, V> {
    /// Whether the solution is proven optimal or only feasible.
    pub status: SolutionStatus,
    /// The objective value at the returned solution.
    pub objective_value: V,
    variable_values: Vec<V>,
    _brand: PhantomData<Brand>,
}

impl<Brand, V: Copy> LPSolution<Brand, V> {
    /// The value of each variable, in the order the variables were added.
    pub closed spec fn values_spec(&self) -> Seq<V> {
        self.variable_values@
    }

    /// Whether the solution is proven optimal or only feasible.
    pub closed spec fn status_spec(&self) -> SolutionStatus {
        self.status
    }

    /// The objective value at the solution.
    pub closed spec fn objective_spec(&self) -> V {
        self.objective_value
    }

    /// A solution with this status, objective value and variable values (one per
    /// variable, in the order the variables were added).
    pub fn new(status: SolutionStatus, objective_value: V, variable_values: Vec<V>) -> (r: Self)
        ensures
            r.status_spec() == status,
            r.objective_spec() == objective_value,
            r.values_spec() == variable_values@,
    {
        LPSolution { status, objective_value, variable_values, _brand: PhantomData }
    }

    /// Get the value of a variable from the solution; `None` for a variable that the
    /// solved model does not have.
    pub fn get_value(&self, var_id: VariableId<Brand>) -> (r: Option<V>)
        ensures
            r == (if var_id@ < self.values_spec().len() {
                Some(self.values_spec()[var_id@ as int])
            } else {
                None
            }),
    {
        let i = var_id.index();
        if i < self.variable_values.len() {
            Some(self.variable_values[i])
        } else {
            None
        }
    }

    /// Every variable value, in the order the variables were added.
    pub fn values(&self) -> (r: &[V])
        ensures
            r@ == self.values_spec(),
    {
        self.variable_values.as_slice()
    }
}

impl<Brand, V: Copy> Clone for LPSolution<Brand, V> {
    fn clone(&self) -> (r: Self)
        ensures
            r.status_spec() == self.status_spec(),
            r.objective_spec() == self.objective_spec(),
            r.values_spec() == self.values_spec(),
    {
        let mut values: Vec<V> = Vec::new();
        let mut i: usize = 0;
        while i < self.variable_values.len()
            invariant
                i <= self.variable_values@.len(),
                values@ == self.variable_values@.take(i as int),
            decreases self.variable_values@.len() - i,
        {
            values.push(self.variable_values[i]);
            proof {
                assert(values@ =~= self.variable_values@.take(i + 1));
            }
            i = i + 1;
        }
        proof {
            assert(values@ =~= self.variable_values@);
        }
        LPSolution {
            status: self.status,
            objective_value: self.objective_value,
            variable_values: values,
            _brand: PhantomData,
        }
    }
}

} // verus!
