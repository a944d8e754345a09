//! Sets of column indexes, as plans prune columns with them.
use std::collections::HashSet;
use vstd::prelude::*;
use vstd::std_specs::iter::IteratorSpec;
use crate::scalar_expr::{ScalarExpr, used_columns};

verus! {

/// A set of column indexes.
pub type ColumnSet = HashSet<usize>;

/// The columns of `set` as a list, each once, in the set's iteration order.
pub fn column_set_to_vec(set: &ColumnSet) -> (v: Vec<usize>)
    ensures
        v@.to_set() == set@,
        v@.no_duplicates(),
        v@.len() == set@.len(),
{
    broadcast use vstd::std_specs::hash::group_hash_axioms;
    broadcast use vstd::std_specs::hash::axiom_spec_hash_keys_iter;
    let ghost keys = vstd::std_specs::hash::spec_hash_keys_iter(set).remaining();
    let mut v: Vec<usize> = Vec::new();
    for x in it: set.iter()
        invariant
            it.seq() == keys,
            v@ == keys.take(it.index()).unref(),
    {
        v.push(*x);
        assert(keys.take(it.index() + 1).unref() =~= keys.take(it.index()).unref().push(*x));
    }
    assert(v@.len() == keys.len());
    assert(keys.take(keys.len() as int) =~= keys);
    v
}


/// A copy of `set`.
pub fn copy_column_set(set: &ColumnSet) -> (r: ColumnSet)
    ensures
        r@ == set@,
{
    broadcast use vstd::std_specs::hash::group_hash_axioms;
    let v = column_set_to_vec(set);
    let mut r: ColumnSet = HashSet::new();
    let mut i: usize = 0;
    while i < v.len()
        invariant
            i <= v@.len(),
            r@ == v@.take(i as int).to_set(),
        decreases v@.len() - i,
    {
        r.insert(v[i]);
        assert(v@.take(i + 1) =~= v@.take(i as int).push(v@[i as int]));
        proof {
            v@.take(i as int).lemma_push_to_set_commute(v@[i as int]);
        }
        i = i + 1;
    }
    assert(v@.take(i as int) =~= v@);
    r
}

/// The columns that some expression of `exprs` reads.
pub open spec fn used_by_any(exprs: Seq<ScalarExpr>) -> Set<usize> {
    Set::new(|c: usize| exists|i: int| 0 <= i < exprs.len() && used_columns(#[trigger] exprs[i]@).contains(c))
}

/// Adds to `acc` the columns that the expressions `exprs` read.
pub fn add_used_columns(acc: &mut ColumnSet, exprs: &Vec<ScalarExpr>)
    ensures
        final(acc)@ == old(acc)@.union(used_by_any(exprs@)),
{
    let mut i: usize = 0;
    while i < exprs.len()
        invariant
            i <= exprs@.len(),
            acc@ == old(acc)@.union(used_by_any(exprs@.take(i as int))),
        decreases exprs@.len() - i,
    {
        exprs[i].collect_used_columns(acc);
        assert(acc@ =~= old(acc)@.union(used_by_any(exprs@.take(i + 1)))) by {
            assert forall|c: usize| used_by_any(exprs@.take(i + 1)).contains(c) <==> (used_by_any(
                exprs@.take(i as int),
            ).contains(c) || used_columns(exprs@[i as int]@).contains(c)) by {
                if used_columns(exprs@[i as int]@).contains(c) {
                    assert(exprs@.take(i + 1)[i as int] == exprs@[i as int]);
                }
                if used_by_any(exprs@.take(i + 1)).contains(c) {
                    let j = choose|j: int| 0 <= j < i + 1 && used_columns(#[trigger] exprs@.take(i + 1)[j]@).contains(c);
                    if j < i {
                        assert(exprs@.take(i as int)[j] == exprs@.take(i + 1)[j]);
                    }
                }
                if used_by_any(exprs@.take(i as int)).contains(c) {
                    let j = choose|j: int| 0 <= j < i && used_columns(#[trigger] exprs@.take(i as int)[j]@).contains(c);
                    assert(exprs@.take(i as int)[j] == exprs@.take(i + 1)[j]);
                }
            }
        }
        i = i + 1;
    }
    assert(exprs@.take(i as int) =~= exprs@);
}

} // verus!
