//! Checks and groupings over the variables that a model's expressions reference.

use std::collections::HashMap;
use vstd::prelude::*;

use crate::error::ModelError;
use crate::model::VariableId;

verus! {

/// The indices of the variables of one expression, in term order.
pub open spec fn row_ids<Brand>(row: Vec<VariableId<Brand>>) -> Seq<usize> {
    row@.map_values(|v: VariableId<Brand>| v@)
}

/// The indices referenced by a list of expressions, expression after expression.
pub open spec fn referenced_ids<Brand>(rows: Seq<Vec<VariableId<Brand>>>) -> Seq<usize>
    decreases rows.len(),
{
    if rows.len() == 0 {
        Seq::empty()
    } else {
        referenced_ids(rows.drop_last()) + row_ids(rows.last())
    }
}

/// Position `p` of `ids` holds the first index that is not below `count`.
pub open spec fn first_unknown_at(ids: Seq<usize>, count: usize, p: int) -> bool {
    &&& 0 <= p < ids.len()
    &&& ids[p] >= count
    &&& forall|q: int| 0 <= q < p ==> ids[q] < count
}

/// Every index of `ids` names one of `count` variables.
pub open spec fn all_known(ids: Seq<usize>, count: usize) -> bool {
    forall|q: int| 0 <= q < ids.len() ==> ids[q] < count
}

/// Check that every variable referenced by `expressions` belongs to a model of `count`
/// variables.
///
/// On failure, reports the first offending index, in expression order then term order.
pub fn validate_variables<Brand>(count: usize, expressions: &Vec<Vec<VariableId<Brand>>>) -> (r: Result<(), ModelError>)
    ensures
        r is Ok <==> all_known(referenced_ids(expressions@), count),
        r matches Err(ModelError::UnknownVariable { id, count: c }) ==> {
            &&& c == count
            &&& exists|p: int| first_unknown_at(referenced_ids(expressions@), count, p)
                && referenced_ids(expressions@)[p] == id
        },
{
    let mut i: usize = 0;
    while i < expressions.len()
        invariant
            i <= expressions@.len(),
            all_known(referenced_ids(expressions@.take(i as int)), count),
        decreases expressions@.len() - i,
    {
        let row = &expressions[i];
        let ghost before = referenced_ids(expressions@.take(i as int));
        proof {
            assert(expressions@.take(i + 1).drop_last() =~= expressions@.take(i as int));
            assert(expressions@.take(i + 1).last() == expressions@[i as int]);
            assert(referenced_ids(expressions@.take(i + 1)) == before + row_ids(*row));
        }
        let mut j: usize = 0;
        while j < row.len()
            invariant
                i < expressions@.len(),
                *row == expressions@[i as int],
                j <= row@.len(),
                before == referenced_ids(expressions@.take(i as int)),
                referenced_ids(expressions@.take(i + 1)) == before + row_ids(*row),
                all_known(before, count),
                forall|q: int| 0 <= q < j ==> row_ids(*row)[q] < count,
            decreases row@.len() - j,
        {
            let id = row[j].index();
            if id >= count {
                proof {
                    let all = referenced_ids(expressions@);
                    let upto = referenced_ids(expressions@.take(i + 1));
                    lemma_referenced_prefix(expressions@, i as int + 1);
                    let p = before.len() + j;
                    assert(upto[p] == id);
                    assert(all[p] == id);
                    assert(first_unknown_at(all, count, p));
                }
                return Err(ModelError::UnknownVariable { id, count });
            }
            j = j + 1;
        }
        proof {
            assert(all_known(referenced_ids(expressions@.take(i + 1)), count));
        }
        i = i + 1;
    }
    proof {
        assert(expressions@.take(i as int) =~= expressions@);
    }
    Ok(())
}

/// Lists of expressions whose rows hold the same identifiers reference the same indices.
pub proof fn lemma_referenced_ids_by_view<Brand>(a: Seq<Vec<VariableId<Brand>>>, b: Seq<Vec<VariableId<Brand>>>)
    requires
        a.len() == b.len(),
        forall|k: int| 0 <= k < a.len() ==> #[trigger] a[k]@ == b[k]@,
    ensures
        referenced_ids(a) == referenced_ids(b),
    decreases a.len(),
{
    if a.len() > 0 {
        lemma_referenced_ids_by_view(a.drop_last(), b.drop_last());
        assert(a.last()@ == b[b.len() - 1]@);
        assert(row_ids(a.last()) =~= row_ids(b.last()));
    }
}

/// The indices referenced by a prefix of the expressions are a prefix of all of them.
proof fn lemma_referenced_prefix<Brand>(rows: Seq<Vec<VariableId<Brand>>>, n: int)
    requires
        0 <= n <= rows.len(),
    ensures
        referenced_ids(rows.take(n)).len() <= referenced_ids(rows).len(),
        forall|q: int| 0 <= q < referenced_ids(rows.take(n)).len()
            ==> referenced_ids(rows)[q] == referenced_ids(rows.take(n))[q],
    decreases rows.len() - n,
{
    if n < rows.len() {
        lemma_referenced_prefix(rows, n + 1);
        assert(rows.take(n + 1).drop_last() =~= rows.take(n));
    } else {
        assert(rows.take(n) =~= rows);
    }
}

/// The distinct indices of `ids`, each kept at its first appearance, in order.
pub open spec fn first_appearances(ids: Seq<usize>) -> Seq<usize>
    decreases ids.len(),
{
    if ids.len() == 0 {
        Seq::empty()
    } else {
        let earlier = first_appearances(ids.drop_last());
        if earlier.contains(ids.last()) {
            earlier
        } else {
            earlier.push(ids.last())
        }
    }
}

/// How the terms of one expression group by variable: each variable once, in order of
/// first appearance, and for each term the position of its variable in that list.
pub struct TermGroups<Brand> {
    /// The distinct variables of the expression, in order of first appearance.
    pub variables: Vec<VariableId<Brand>>,
    /// For each term, the position of its variable in `variables`.
    pub group_of_term: Vec<usize>,
}

/// Group the terms of an expression (given by their variables) so that each variable
/// is handed to a backend exactly once; the coefficients of a group are to be summed.
pub fn group_terms<Brand>(terms: &Vec<VariableId<Brand>>) -> (r: TermGroups<Brand>)
    ensures
        row_ids(r.variables) == first_appearances(row_ids(*terms)),
        r.group_of_term@.len() == terms@.len(),
        forall|i: int|
            #![trigger r.group_of_term@[i]]
            0 <= i < terms@.len() ==> {
                &&& r.group_of_term@[i] < r.variables@.len()
                &&& r.variables@[r.group_of_term@[i] as int]@ == terms@[i]@
            },
{
    broadcast use vstd::std_specs::hash::group_hash_axioms;
    let mut variables: Vec<VariableId<Brand>> = Vec::new();
    let mut groups: Vec<usize> = Vec::new();
    // The position in `variables` of each variable seen so far, by index.
    let mut positions: HashMap<usize, usize> = HashMap::new();
    let mut i: usize = 0;
    while i < terms.len()
        invariant
            i <= terms@.len(),
            row_ids(variables) == first_appearances(row_ids(*terms).take(i as int)),
            forall|x: usize| #[trigger] positions@.contains_key(x) <==> row_ids(variables).contains(x),
            forall|x: usize|
                #[trigger] positions@.contains_key(x) ==> {
                    &&& positions@[x] < variables@.len()
                    &&& variables@[positions@[x] as int]@ == x
                },
            groups@.len() == i,
            forall|j: int|
                #![trigger groups@[j]]
                0 <= j < i ==> {
                    &&& groups@[j] < variables@.len()
                    &&& variables@[groups@[j] as int]@ == terms@[j]@
                },
        decreases terms@.len() - i,
    {
        let id = terms[i].index();
        let ghost prefix = row_ids(*terms).take(i as int);
        proof {
            assert(row_ids(*terms).take(i + 1).drop_last() =~= prefix);
            assert(row_ids(*terms).take(i + 1).last() == id);
        }
        match positions.get(&id) {
            Some(k) => {
                proof {
                    assert(positions@.contains_key(id));
                    assert(first_appearances(prefix).contains(id));
                }
                groups.push(*k);
            },
            None => {
                let k = variables.len();
                let ghost old_rows = row_ids(variables);
                let ghost old_positions = positions@;
                proof {
                    assert(!first_appearances(prefix).contains(id));
                }
                groups.push(k);
                variables.push(terms[i]);
                positions.insert(id, k);
                proof {
                    assert(row_ids(variables) =~= first_appearances(prefix).push(id));
                    assert forall|x: usize| #[trigger] positions@.contains_key(x) <==> row_ids(variables).contains(x) by {
                        if row_ids(variables).contains(x) && x != id {
                            let m = choose|m: int| 0 <= m < row_ids(variables).len() && row_ids(variables)[m] == x;
                            assert(old_rows[m] == x);
                            assert(old_rows.contains(x));
                            assert(old_positions.contains_key(x));
                        }
                        if x != id && positions@.contains_key(x) {
                            assert(old_positions.contains_key(x));
                            assert(old_rows.contains(x));
                            let m = choose|m: int| 0 <= m < old_rows.len() && old_rows[m] == x;
                            assert(row_ids(variables)[m] == x);
                        }
                        if x == id {
                            assert(row_ids(variables)[k as int] == id);
                        }
                    }
                }
            },
        }
        i = i + 1;
    }
    proof {
        assert(row_ids(*terms).take(i as int) =~= row_ids(*terms));
    }
    TermGroups { variables, group_of_term: groups }
}

/// Each variable of an expression is handed to a backend exactly once: the grouped
/// variables are distinct, and they are exactly the variables of the terms.
pub proof fn law_groups_distinct_and_complete(ids: Seq<usize>)
    ensures
        first_appearances(ids).no_duplicates(),
        forall|x: usize| first_appearances(ids).contains(x) <==> ids.contains(x),
    decreases ids.len(),
{
    if ids.len() > 0 {
        let rest = ids.drop_last();
        law_groups_distinct_and_complete(rest);
        let earlier = first_appearances(rest);
        let all = first_appearances(ids);
        if earlier.contains(ids.last()) {
            assert(all == earlier);
        } else {
            assert(all == earlier.push(ids.last()));
            assert forall|i: int, j: int| 0 <= i < all.len() && 0 <= j < all.len() && i != j implies all[i] != all[j] by {
                if j == earlier.len() as int {
                    assert(earlier.contains(all[i]));
                } else if i == earlier.len() as int {
                    assert(earlier.contains(all[j]));
                }
            }
        }
        assert forall|x: usize| all.contains(x) <==> ids.contains(x) by {
            if earlier.contains(x) {
                let k = choose|k: int| 0 <= k < earlier.len() && earlier[k] == x;
                assert(all[k] == x);
                assert(rest.contains(x));
                let m = choose|m: int| 0 <= m < rest.len() && rest[m] == x;
                assert(ids[m] == x);
            }
            if ids.contains(x) {
                let k = choose|k: int| 0 <= k < ids.len() && ids[k] == x;
                if k < rest.len() {
                    assert(rest[k] == x);
                    assert(rest.contains(x));
                } else {
                    assert(x == ids.last());
                    if !earlier.contains(x) {
                        assert(all[earlier.len() as int] == x);
                    }
                }
            }
            if all.contains(x) && !earlier.contains(x) {
                let k = choose|k: int| 0 <= k < all.len() && all[k] == x;
                assert(ids[ids.len() - 1] == x);
            }
        }
    }
}

} // verus!
