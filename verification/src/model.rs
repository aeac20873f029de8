//! Identifiers and enumerations shared by every part of a model.

use std::marker::PhantomData;
use vstd::prelude::*;

verus! {

/// Variable types supported by LP solvers
#[derive(Debug, Clone, Copy, PartialEq, Eq, Structural)]
pub enum VariableType {
    /// Continuous variable (can take any real value)
    Continuous,
    /// Integer variable (can only take integer values)
    Integer,
    /// Binary variable (can only take values 0 or 1)
    Binary,
}

/// Unique identifier for a variable in a model, branded with the model's type.
///
/// Identifiers are minted only by a model ([`ModelStore::add_variable`](crate::ModelStore::add_variable)),
/// numbered by position.
#[derive(Debug)]
pub struct VariableId<Brand> {
    id: usize,
    _brand: PhantomData<Brand>,
}

impl<Brand> View for VariableId<Brand> {
    type V = usize;

    closed spec fn view(&self) -> usize {
        self.id
    }
}

impl<Brand> VariableId<Brand> {
    /// The identifier of the variable at position `index` of its model; only a model
    /// mints identifiers.
    pub(crate) fn new(index: usize) -> (r: Self)
        ensures
            r@ == index,
    {
        VariableId { id: index, _brand: PhantomData }
    }

    /// The position of the variable in its model.
    pub fn index(&self) -> (r: usize)
        ensures
            r == self@,
    {
        self.id
    }
}

impl<Brand> Clone for VariableId<Brand> {
    fn clone(&self) -> (r: Self)
        ensures
            r@ == self@,
    {
        VariableId { id: self.id, _brand: PhantomData }
    }
}

impl<Brand> Copy for VariableId<Brand> {
}

impl<Brand> PartialEq for VariableId<Brand> {
    fn eq(&self, other: &Self) -> (r: bool) {
        self.id == other.id
    }
}

impl<Brand> vstd::std_specs::cmp::PartialEqSpecImpl for VariableId<Brand> {
    open spec fn obeys_eq_spec() -> bool {
        true
    }

    open spec fn eq_spec(&self, other: &Self) -> bool {
        self@ == other@
    }
}

impl<Brand> Eq for VariableId<Brand> {
}

/// Feeds `index` to `state` with `<usize as Hash>::hash`; nothing is stated of the
/// hasher's state afterwards.
#[verifier::external_body]
fn hash_index<H: core::hash::Hasher>(index: usize, state: &mut H) {
    core::hash::Hash::hash(&index, state)
}

impl<Brand> core::hash::Hash for VariableId<Brand> {
    fn hash<H: core::hash::Hasher>(&self, state: &mut H) {
        hash_index(self.id, state)
    }
}

/// Constraint sense for linear constraints
#[derive(Debug, Clone, Copy, PartialEq, Eq, Structural)]
pub enum ConstraintSense {
    /// Less than or equal to
    LessEqual,
    /// Equal to
    Equal,
    /// Greater than or equal to
    GreaterEqual,
}

/// Optimisation direction
#[derive(Debug, Clone, Copy, PartialEq, Eq, Structural)]
pub enum OptimisationSense {
    /// Minimise the objective function
    Minimise,
    /// Maximise the objective function
    Maximise,
}

/// A successful optimisation outcome: a usable solution is available.
///
/// Negative outcomes (infeasible, unbounded, ...) are reported as
/// [`NoSolution`](crate::NoSolution) errors, never here.
#[derive(Debug, Clone, Copy, PartialEq, Eq, Structural)]
#[non_exhaustive]
pub enum SolutionStatus {
    /// An optimal solution was found and proven optimal.
    Optimal,
    /// A feasible solution is available but was not proven optimal.
    Feasible,
}

/// A stable handle to a constraint slot of a model.
///
/// A handle stays valid for the lifetime of the model, even after other
/// constraints are removed.
#[derive(Debug, Clone, Copy, PartialEq, Eq, Hash, Structural)]
pub struct ConstraintId(usize);

impl View for ConstraintId {
    type V = usize;

    closed spec fn view(&self) -> usize {
        self.0
    }
}

impl ConstraintId {
    /// The handle of the slot at position `index`.
    pub(crate) fn new(index: usize) -> (r: Self)
        ensures
            r@ == index,
    {
        ConstraintId(index)
    }

    /// The slot position this handle refers to.
    pub fn index(&self) -> (r: usize)
        ensures
            r == self@,
    {
        self.0
    }
}

} // verus!
