//! The storage of a model: its variables, its constraint slots and its objective.
//!
//! Constraints live in tombstone slots: removing a constraint empties its slot instead
//! of shifting the others, so every [`ConstraintId`] handed out stays meaningful for
//! the lifetime of the store.

use std::marker::PhantomData;
use vstd::prelude::*;

use crate::analysis::{
    all_known, first_unknown_at, lemma_referenced_ids_by_view, referenced_ids, row_ids, validate_variables,
};
use crate::error::ModelError;
use crate::model::{ConstraintId, VariableId};

verus! {

/// The slots left after removing the constraint at `id` (no change for an unknown id).
pub open spec fn slots_after_remove<C>(slots: Seq<Option<C>>, id: int) -> Seq<Option<C>> {
    if 0 <= id < slots.len() {
        slots.update(id, None)
    } else {
        slots
    }
}

/// What the handle `id` refers to: the slot's content, or `None` for an id that no
/// slot has. Removing the constraint at `id` hands back exactly this.
pub open spec fn slot_content<C>(slots: Seq<Option<C>>, id: int) -> Option<C> {
    if 0 <= id < slots.len() {
        slots[id]
    } else {
        None
    }
}

/// The positions of the occupied slots, in increasing order.
pub open spec fn occupied_positions<C>(slots: Seq<Option<C>>) -> Seq<usize>
    decreases slots.len(),
{
    if slots.len() == 0 {
        Seq::empty()
    } else {
        let rest = occupied_positions(slots.drop_last());
        if slots.last() is Some {
            rest.push((slots.len() - 1) as usize)
        } else {
            rest
        }
    }
}

/// The rows of variable identifiers of the occupied slots, in slot order.
pub open spec fn live_rows<Brand>(slots: Seq<Option<Vec<VariableId<Brand>>>>) -> Seq<Vec<VariableId<Brand>>>
    decreases slots.len(),
{
    if slots.len() == 0 {
        Seq::empty()
    } else {
        let rest = live_rows(slots.drop_last());
        match slots.last() {
            Some(row) => rest.push(row),
            None => rest,
        }
    }
}

/// The first component of an occupied slot.
pub open spec fn first_of<A, B>(slot: Option<(A, B)>) -> Option<A> {
    match slot {
        Some(p) => Some(p.0),
        None => None,
    }
}

/// The second component of an occupied slot.
pub open spec fn second_of<A, B>(slot: Option<(A, B)>) -> Option<B> {
    match slot {
        Some(p) => Some(p.1),
        None => None,
    }
}

/// The storage of a model branded `Brand`, with variable information `V`,
/// constraints `C` and objective `O`.
///
/// Each constraint and the objective are stored with the identifiers of the variables
/// that they reference, so that the store itself can check that a model only refers to
/// its own variables.
pub struct ModelStore<Brand, V, C, O> {
    variables: Vec<V>,
    constraints: Vec<Option<(C, Vec<VariableId<Brand>>)>>,
    objective: Option<(O, Vec<VariableId<Brand>>)>,
    _brand: PhantomData<Brand>,
}

impl<Brand, V, C, O> ModelStore<Brand, V, C, O> {
    /// The information of each variable, in the order they were added.
    pub closed spec fn variable_infos(&self) -> Seq<V> {
        self.variables@
    }

    /// The constraint slots, in the order they were created; a removed constraint
    /// leaves an empty slot.
    pub closed spec fn slots(&self) -> Seq<Option<C>> {
        self.constraints@.map_values(|s: Option<(C, Vec<VariableId<Brand>>)>| first_of(s))
    }

    /// For each constraint slot, the variables its constraint references (empty slot:
    /// `None`).
    pub closed spec fn slot_variables(&self) -> Seq<Option<Vec<VariableId<Brand>>>> {
        self.constraints@.map_values(|s: Option<(C, Vec<VariableId<Brand>>)>| second_of(s))
    }

    /// The objective, if one was set.
    pub closed spec fn objective_spec(&self) -> Option<O> {
        first_of(self.objective)
    }

    /// The variables the objective references, if one was set.
    pub closed spec fn objective_variables(&self) -> Option<Vec<VariableId<Brand>>> {
        second_of(self.objective)
    }

    /// The variable lists that validation checks: those of the live constraints, in
    /// the order the constraints were added, then that of the objective, if any.
    pub open spec fn checked_rows(&self) -> Seq<Vec<VariableId<Brand>>> {
        live_rows(self.slot_variables()) + match self.objective_variables() {
            Some(row) => seq![row],
            None => Seq::empty(),
        }
    }

    /// An empty store: no variables, no constraints, no objective.
    pub fn new() -> (r: Self)
        ensures
            r.variable_infos() == Seq::<V>::empty(),
            r.slots() == Seq::<Option<C>>::empty(),
            r.slot_variables() == Seq::<Option<Vec<VariableId<Brand>>>>::empty(),
            r.objective_spec() is None,
            r.objective_variables() is None,
    {
        let r = ModelStore { variables: Vec::new(), constraints: Vec::new(), objective: None, _brand: PhantomData };
        proof {
            assert(r.slots() =~= Seq::<Option<C>>::empty());
            assert(r.slot_variables() =~= Seq::<Option<Vec<VariableId<Brand>>>>::empty());
        }
        r
    }

    /// Add a variable; its identifier is its position among the variables.
    pub fn add_variable(&mut self, info: V) -> (r: VariableId<Brand>)
        ensures
            r@ == old(self).variable_infos().len(),
            final(self).variable_infos() == old(self).variable_infos().push(info),
            final(self).slots() == old(self).slots(),
            final(self).slot_variables() == old(self).slot_variables(),
            final(self).objective_spec() == old(self).objective_spec(),
            final(self).objective_variables() == old(self).objective_variables(),
    {
        let id = VariableId::new(self.variables.len());
        self.variables.push(info);
        id
    }

    /// The number of variables in the store.
    pub fn variable_count(&self) -> (r: usize)
        ensures
            r == self.variable_infos().len(),
    {
        self.variables.len()
    }

    /// The information of every variable, in the order they were added.
    pub fn variables(&self) -> (r: &Vec<V>)
        ensures
            r@ == self.variable_infos(),
    {
        &self.variables
    }

    /// Add a constraint, referencing `variables`, in a fresh slot and return the
    /// handle of that slot.
    pub fn add_constraint(&mut self, constraint: C, variables: Vec<VariableId<Brand>>) -> (r: ConstraintId)
        ensures
            r@ == old(self).slots().len(),
            final(self).slots() == old(self).slots().push(Some(constraint)),
            final(self).slot_variables() == old(self).slot_variables().push(Some(variables)),
            final(self).variable_infos() == old(self).variable_infos(),
            final(self).objective_spec() == old(self).objective_spec(),
            final(self).objective_variables() == old(self).objective_variables(),
    {
        let id = ConstraintId::new(self.constraints.len());
        let ghost v = variables;
        self.constraints.push(Some((constraint, variables)));
        proof {
            assert(self.slots() =~= old(self).slots().push(Some(constraint)));
            assert(self.slot_variables() =~= old(self).slot_variables().push(Some(v)));
        }
        id
    }

    /// Remove the constraint behind `id`, leaving its slot empty.
    ///
    /// Returns the removed constraint, or `None` if it was already removed or `id`
    /// names no slot of this store. No other slot changes.
    pub fn remove_constraint(&mut self, id: ConstraintId) -> (r: Option<C>)
        ensures
            r == slot_content(old(self).slots(), id@ as int),
            final(self).slots() == slots_after_remove(old(self).slots(), id@ as int),
            final(self).slot_variables() == slots_after_remove(old(self).slot_variables(), id@ as int),
            final(self).variable_infos() == old(self).variable_infos(),
            final(self).objective_spec() == old(self).objective_spec(),
            final(self).objective_variables() == old(self).objective_variables(),
    {
        let i = id.index();
        if i < self.constraints.len() {
            self.constraints.push(None);
            let taken = self.constraints.swap_remove(i);
            proof {
                assert(self.constraints@ =~= old(self).constraints@.update(i as int, None));
                assert(self.slots() =~= old(self).slots().update(i as int, None));
                assert(self.slot_variables() =~= old(self).slot_variables().update(i as int, None));
            }
            match taken {
                Some(pair) => Some(pair.0),
                None => None,
            }
        } else {
            None
        }
    }

    /// The constraint behind `id`, if its slot is occupied.
    pub fn constraint(&self, id: ConstraintId) -> (r: Option<&C>)
        ensures
            match r {
                Some(c) => slot_content(self.slots(), id@ as int) == Some(*c),
                None => slot_content(self.slots(), id@ as int) is None,
            },
    {
        let i = id.index();
        if i < self.constraints.len() {
            match &self.constraints[i] {
                Some(pair) => Some(&pair.0),
                None => None,
            }
        } else {
            None
        }
    }

    /// The handles of the occupied slots, in the order the constraints were added.
    pub fn active_constraints(&self) -> (r: Vec<ConstraintId>)
        ensures
            r@.map_values(|c: ConstraintId| c@) == occupied_positions(self.slots()),
    {
        let mut ids: Vec<ConstraintId> = Vec::new();
        let mut i: usize = 0;
        while i < self.constraints.len()
            invariant
                i <= self.constraints@.len(),
                ids@.map_values(|c: ConstraintId| c@) == occupied_positions(self.slots().take(i as int)),
            decreases self.constraints@.len() - i,
        {
            proof {
                assert(self.slots().take(i + 1).drop_last() =~= self.slots().take(i as int));
            }
            if self.constraints[i].is_some() {
                ids.push(ConstraintId::new(i));
                assert(ids@.map_values(|c: ConstraintId| c@) =~= occupied_positions(self.slots().take(i as int)).push(i));
            }
            i = i + 1;
        }
        proof {
            assert(self.slots().take(i as int) =~= self.slots());
        }
        ids
    }

    /// The number of constraint slots, occupied or not.
    pub fn slot_count(&self) -> (r: usize)
        ensures
            r == self.slots().len(),
    {
        self.constraints.len()
    }

    /// Set (or replace) the objective, which references `variables`.
    pub fn set_objective(&mut self, objective: O, variables: Vec<VariableId<Brand>>)
        ensures
            final(self).objective_spec() == Some(objective),
            final(self).objective_variables() == Some(variables),
            final(self).variable_infos() == old(self).variable_infos(),
            final(self).slots() == old(self).slots(),
            final(self).slot_variables() == old(self).slot_variables(),
    {
        self.objective = Some((objective, variables));
    }

    /// The objective, if one was set.
    pub fn objective(&self) -> (r: Option<&O>)
        ensures
            match r {
                Some(o) => self.objective_spec() == Some(*o),
                None => self.objective_spec() is None,
            },
    {
        match &self.objective {
            Some(pair) => Some(&pair.0),
            None => None,
        }
    }

    /// Check that every variable referenced by a live constraint or by the objective
    /// belongs to this model.
    ///
    /// On failure, reports the first offending index: constraints in the order they
    /// were added, then the objective, each in term order.
    pub fn validate(&self) -> (r: Result<(), ModelError>)
        ensures
            r is Ok <==> all_known(referenced_ids(self.checked_rows()), self.variable_infos().len() as usize),
            r matches Err(ModelError::UnknownVariable { id, count }) ==> {
                &&& count == self.variable_infos().len()
                &&& exists|p: int| first_unknown_at(referenced_ids(self.checked_rows()), count, p)
                    && referenced_ids(self.checked_rows())[p] == id
            },
    {
        let mut rows: Vec<Vec<VariableId<Brand>>> = Vec::new();
        let mut i: usize = 0;
        while i < self.constraints.len()
            invariant
                i <= self.constraints@.len(),
                rows@.len() == live_rows(self.slot_variables().take(i as int)).len(),
                forall|k: int|
                    0 <= k < rows@.len() ==> #[trigger] rows@[k]@ == live_rows(self.slot_variables().take(i as int))[k]@,
            decreases self.constraints@.len() - i,
        {
            proof {
                assert(self.slot_variables().take(i + 1).drop_last() =~= self.slot_variables().take(i as int));
                assert(self.slot_variables().take(i + 1).last() == second_of(self.constraints@[i as int]));
            }
            match &self.constraints[i] {
                Some(pair) => {
                    rows.push(copy_ids(&pair.1));
                },
                None => {},
            }
            i = i + 1;
        }
        proof {
            assert(self.slot_variables().take(i as int) =~= self.slot_variables());
        }
        match &self.objective {
            Some(pair) => {
                rows.push(copy_ids(&pair.1));
            },
            None => {},
        }
        proof {
            lemma_referenced_ids_by_view(rows@, self.checked_rows());
        }
        validate_variables(self.variables.len(), &rows)
    }
}

/// A copy of a list of variable identifiers.
fn copy_ids<Brand>(ids: &Vec<VariableId<Brand>>) -> (r: Vec<VariableId<Brand>>)
    ensures
        r@ == ids@,
{
    let mut r: Vec<VariableId<Brand>> = Vec::new();
    let mut j: usize = 0;
    while j < ids.len()
        invariant
            j <= ids@.len(),
            r@ == ids@.take(j as int),
        decreases ids@.len() - j,
    {
        r.push(ids[j]);
        proof {
            assert(r@ =~= ids@.take(j + 1));
        }
        j = j + 1;
    }
    proof {
        assert(r@ =~= ids@);
    }
    r
}

/// Removing a constraint never changes the number of slots, so no handle is ever
/// handed out twice.
pub proof fn law_remove_keeps_slot_count<C>(slots: Seq<Option<C>>, id: int)
    ensures
        slots_after_remove(slots, id).len() == slots.len(),
{
}

/// A removed handle refers to nothing for the rest of the store's life: a constraint
/// added after the removal gets a fresh handle, and the removed one stays empty.
pub proof fn law_removed_handle_never_reissued<C>(slots: Seq<Option<C>>, id: int, later: C)
    requires
        0 <= id < slots.len(),
    ensures
        slots_after_remove(slots, id).len() != id,
        slot_content(slots_after_remove(slots, id).push(Some(later)), id) is None,
        slot_content(
            slots_after_remove(slots, id).push(Some(later)),
            slots_after_remove(slots, id).len() as int,
        ) == Some(later),
{
}

/// A list of expressions references only known variables exactly when each of its
/// expressions does.
proof fn lemma_all_known_rowwise<Brand>(rows: Seq<Vec<VariableId<Brand>>>, count: usize)
    ensures
        all_known(referenced_ids(rows), count) <==> forall|k: int|
            0 <= k < rows.len() ==> all_known(#[trigger] row_ids(rows[k]), count),
    decreases rows.len(),
{
    if rows.len() > 0 {
        let front = rows.drop_last();
        lemma_all_known_rowwise(front, count);
        let a = referenced_ids(front);
        let b = row_ids(rows.last());
        assert(referenced_ids(rows) == a + b);
        if all_known(a + b, count) {
            assert forall|q: int| 0 <= q < a.len() implies a[q] < count by {
                assert((a + b)[q] == a[q]);
            }
            assert forall|q: int| 0 <= q < b.len() implies b[q] < count by {
                assert((a + b)[a.len() + q] == b[q]);
            }
            assert forall|k: int| 0 <= k < rows.len() implies all_known(#[trigger] row_ids(rows[k]), count) by {
                if k < front.len() {
                    assert(front[k] == rows[k]);
                    assert(all_known(row_ids(front[k]), count));
                }
            }
        }
        if forall|k: int| 0 <= k < rows.len() ==> all_known(#[trigger] row_ids(rows[k]), count) {
            assert forall|k: int| 0 <= k < front.len() implies all_known(#[trigger] row_ids(front[k]), count) by {
                assert(front[k] == rows[k]);
                assert(all_known(row_ids(rows[k]), count));
            }
            assert(all_known(row_ids(rows[rows.len() - 1]), count));
            assert forall|q: int| 0 <= q < (a + b).len() implies (a + b)[q] < count by {
                if q < a.len() {
                    assert((a + b)[q] == a[q]);
                } else {
                    assert((a + b)[q] == b[q - a.len()]);
                }
            }
        }
    }
}

/// The rows of the live slots are exactly the rows of the occupied slots: each listed
/// row is the row of some occupied slot, and each occupied slot's row is listed.
proof fn lemma_live_rows_are_the_occupied_rows<Brand>(slots: Seq<Option<Vec<VariableId<Brand>>>>)
    ensures
        forall|k: int| 0 <= k < live_rows(slots).len() ==> exists|j: int|
            0 <= j < slots.len() && slots[j] == Some(#[trigger] live_rows(slots)[k]),
        forall|j: int| 0 <= j < slots.len() && #[trigger] slots[j] is Some ==> exists|k: int|
            0 <= k < live_rows(slots).len() && live_rows(slots)[k] == slots[j]->0,
    decreases slots.len(),
{
    if slots.len() > 0 {
        let front = slots.drop_last();
        lemma_live_rows_are_the_occupied_rows(front);
        let rest = live_rows(front);
        let all = live_rows(slots);
        assert forall|k: int| 0 <= k < all.len() implies exists|j: int|
            0 <= j < slots.len() && slots[j] == Some(#[trigger] all[k]) by {
            if k < rest.len() {
                assert(all[k] == rest[k]);
                let j = choose|j: int| 0 <= j < front.len() && front[j] == Some(rest[k]);
                assert(slots[j] == front[j]);
            } else {
                assert(slots[slots.len() - 1] == Some(all[k]));
            }
        }
        assert forall|j: int| 0 <= j < slots.len() && #[trigger] slots[j] is Some implies exists|k: int|
            0 <= k < all.len() && all[k] == slots[j]->0 by {
            if j < front.len() {
                assert(front[j] == slots[j]);
                let k = choose|k: int| 0 <= k < rest.len() && rest[k] == front[j]->0;
                assert(all[k] == rest[k]);
            } else {
                assert(all[rest.len() as int] == slots[j]->0);
            }
        }
    }
}

/// Validation checks every live constraint and the objective: the checked variables
/// are all known exactly when those of every occupied slot, and those of the
/// objective (if set), are.
pub proof fn law_validation_covers_every_live_constraint<Brand, V, C, O>(store: ModelStore<Brand, V, C, O>, count: usize)
    ensures
        all_known(referenced_ids(store.checked_rows()), count) <==> {
            &&& forall|j: int|
                0 <= j < store.slot_variables().len() && #[trigger] store.slot_variables()[j] is Some
                    ==> all_known(row_ids(store.slot_variables()[j]->0), count)
            &&& store.objective_variables() matches Some(row) ==> all_known(row_ids(row), count)
        },
{
    let slots = store.slot_variables();
    let live = live_rows(slots);
    let rows = store.checked_rows();
    lemma_all_known_rowwise(rows, count);
    lemma_live_rows_are_the_occupied_rows(slots);
    assert forall|k: int| 0 <= k < live.len() implies rows[k] == live[k] by {}
    if all_known(referenced_ids(rows), count) {
        assert forall|j: int|
            0 <= j < slots.len() && #[trigger] slots[j] is Some implies all_known(row_ids(slots[j]->0), count) by {
            let k = choose|k: int| 0 <= k < live.len() && live[k] == slots[j]->0;
            assert(rows[k] == live[k]);
            assert(all_known(row_ids(rows[k]), count));
        }
        if store.objective_variables() is Some {
            assert(rows[live.len() as int] == store.objective_variables()->0);
            assert(all_known(row_ids(rows[live.len() as int]), count));
        }
    }
    if (forall|j: int|
        0 <= j < slots.len() && #[trigger] slots[j] is Some ==> all_known(row_ids(slots[j]->0), count))
        && (store.objective_variables() matches Some(row) ==> all_known(row_ids(row), count)) {
        assert forall|k: int| 0 <= k < rows.len() implies all_known(#[trigger] row_ids(rows[k]), count) by {
            if k < live.len() {
                let j = choose|j: int| 0 <= j < slots.len() && slots[j] == Some(live[k]);
                assert(slots[j] is Some);
                assert(all_known(row_ids(slots[j]->0), count));
            } else {
                assert(rows[k] == store.objective_variables()->0);
            }
        }
    }
}

/// A constraint added to a store is what its handle refers to, and what removing
/// that handle gives back.
pub proof fn law_remove_returns_added<C>(slots: Seq<Option<C>>, constraint: C)
    ensures
        slot_content(slots.push(Some(constraint)), slots.len() as int) == Some(constraint),
{
}

/// A constraint is removed at most once: after a removal, the handle refers to nothing.
pub proof fn law_remove_is_final<C>(slots: Seq<Option<C>>, id: int)
    ensures
        slot_content(slots_after_remove(slots, id), id) is None,
{
}

/// Removing one constraint leaves what every other handle refers to unchanged.
pub proof fn law_remove_keeps_other_handles<C>(slots: Seq<Option<C>>, removed: int, id: int)
    requires
        removed != id,
    ensures
        slot_content(slots_after_remove(slots, removed), id) == slot_content(slots, id),
{
}

/// Adding a constraint leaves what every existing handle refers to unchanged.
pub proof fn law_add_keeps_handles<C>(slots: Seq<Option<C>>, constraint: C, id: int)
    requires
        0 <= id < slots.len(),
    ensures
        slot_content(slots.push(Some(constraint)), id) == slot_content(slots, id),
{
}

/// The live constraints are exactly the occupied slots, listed once each in the
/// order the constraints were added.
pub proof fn law_occupied_positions<C>(slots: Seq<Option<C>>)
    requires
        slots.len() <= usize::MAX,
    ensures
        forall|p: usize| occupied_positions(slots).contains(p) <==> (p < slots.len() && slots[p as int] is Some),
        forall|i: int, j: int|
            0 <= i < j < occupied_positions(slots).len() ==> occupied_positions(slots)[i] < occupied_positions(slots)[j],
    decreases slots.len(),
{
    if slots.len() > 0 {
        let rest = slots.drop_last();
        law_occupied_positions(rest);
        let prev = occupied_positions(rest);
        let all = occupied_positions(slots);
        let n = (slots.len() - 1) as usize;
        if slots.last() is Some {
            assert(all == prev.push(n));
        } else {
            assert(all == prev);
        }
        assert forall|p: usize| all.contains(p) <==> (p < slots.len() && slots[p as int] is Some) by {
            if p < rest.len() {
                assert(rest[p as int] == slots[p as int]);
            }
            if all.contains(p) {
                let k = choose|k: int| 0 <= k < all.len() && all[k] == p;
                if k < prev.len() {
                    assert(prev[k] == p);
                    assert(prev.contains(p));
                }
            }
            if p < slots.len() && slots[p as int] is Some {
                if p == n {
                    assert(all[prev.len() as int] == p);
                } else {
                    assert(prev.contains(p));
                    let k = choose|k: int| 0 <= k < prev.len() && prev[k] == p;
                    assert(all[k] == p);
                }
            }
        }
        assert forall|i: int, j: int| 0 <= i < j < all.len() implies all[i] < all[j] by {
            if j >= prev.len() {
                assert(prev.contains(prev[i]));
            }
        }
    }
}

} // verus!
