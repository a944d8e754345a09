//! Choice of the physical join: a hash join, or a range join for inner and
//! cross joins whose non-equi conditions compare one side with the other.
use vstd::prelude::*;
use crate::error::ErrorCode;
use crate::column_set::{ColumnSet, add_used_columns, column_set_to_vec, copy_column_set, used_by_any};
use crate::scalar_expr::{ScalarExpr, ScalarExprView};

verus! {

/// Kinds of logical joins.
#[derive(Clone, Copy, Debug, PartialEq, Eq, Structural)]
pub enum JoinType {
    Inner,
    Left,
    Right,
    Full,
    LeftSemi,
    LeftAnti,
    RightSemi,
    RightAnti,
    LeftMark,
    RightMark,
    Cross,
    LeftSingle,
    RightSingle,
}

/// A logical join: its equi-conditions on each side, its other conditions
/// and its kind.
#[derive(Debug)]
pub struct Join {
    pub left_conditions: Vec<ScalarExpr>,
    pub right_conditions: Vec<ScalarExpr>,
    pub non_equi_conditions: Vec<ScalarExpr>,
    pub join_type: JoinType,
}

/// Which inputs of a join an expression reads: only the left one, only the
/// right one, both, neither (a constant, `All`), or something else (such as a
/// subquery).
#[derive(Clone, Copy, Debug, PartialEq, Eq, Structural)]
pub enum JoinPredicate {
    Left,
    Right,
    Both,
    Other,
    All,
}

/// The physical join chosen for a logical join.
#[derive(Debug)]
pub enum PhysicalJoinType {
    Hash,
    /// The range conditions, then the other conditions.
    RangeJoin(Vec<ScalarExpr>, Vec<ScalarExpr>),
}

/// What becomes of a non-equi condition when a join is planned.
pub enum ConditionClass {
    /// A comparison of a left-side argument with a right-side one.
    Range,
    /// Any other condition, a comparison with an argument that reads both
    /// sides, neither, or something else among them.
    Other,
}

/// Whether `name` is one of the comparisons a range join evaluates.
pub open spec fn is_range_comparison_name(name: Seq<char>) -> bool {
    name == "gt"@ || name == "lt"@ || name == "gte"@ || name == "lte"@
}

/// Whether an argument that reads `side` can be one end of a range condition.
pub open spec fn reads_one_side(side: JoinPredicate) -> bool {
    side == JoinPredicate::Left || side == JoinPredicate::Right
}

/// The class of the condition `expr`, whose arguments read `sides` (one side
/// per argument, when it is a function call).
pub open spec fn condition_class(expr: ScalarExprView, sides: Seq<JoinPredicate>) -> ConditionClass {
    match expr {
        ScalarExprView::FunctionCall(name, args) => {
            if args.len() != 2 || !is_range_comparison_name(name) {
                ConditionClass::Other
            } else if !reads_one_side(sides[0]) || !reads_one_side(sides[1]) {
                ConditionClass::Other
            } else if (sides[0] == JoinPredicate::Left || sides[1] == JoinPredicate::Left) && (sides[0]
                == JoinPredicate::Right || sides[1] == JoinPredicate::Right) {
                ConditionClass::Range
            } else {
                ConditionClass::Other
            }
        },
        _ => ConditionClass::Other,
    }
}

/// The values of a list of expressions.
pub open spec fn views(s: Seq<ScalarExpr>) -> Seq<ScalarExprView> {
    s.map_values(|e: ScalarExpr| e@)
}

/// Whether `sides` gives, for each argument of the condition `expr`, the
/// side it reads.
pub open spec fn sides_fit(expr: ScalarExprView, sides: Seq<JoinPredicate>) -> bool {
    match expr {
        ScalarExprView::FunctionCall(_, args) => sides.len() == args.len(),
        _ => true,
    }
}

/// The first `n` conditions of `conds` whose class is `class`, in order.
pub open spec fn conditions_of_class(
    conds: Seq<ScalarExpr>,
    sides: Seq<Vec<JoinPredicate>>,
    n: int,
    class: ConditionClass,
) -> Seq<ScalarExprView>
    decreases n,
{
    if n <= 0 {
        Seq::empty()
    } else {
        let earlier = conditions_of_class(conds, sides, n - 1, class);
        if condition_class(conds[n - 1]@, sides[n - 1]@) == class {
            earlier.push(conds[n - 1]@)
        } else {
            earlier
        }
    }
}

fn is_range_comparison(name: &String) -> (r: bool)
    ensures
        r == is_range_comparison_name(name@),
{
    proof {
        reveal_strlit("gt");
        reveal_strlit("lt");
        reveal_strlit("gte");
        reveal_strlit("lte");
    }
    let gt = "gt".to_owned();
    let lt = "lt".to_owned();
    let gte = "gte".to_owned();
    let lte = "lte".to_owned();
    *name == gt || *name == lt || *name == gte || *name == lte
}

/// Appends the non-equi condition `expr` to `range_conditions` when it
/// compares a left-side argument with a right-side one, else to
/// `other_conditions`.
/// `sides[i]` is the side that the `i`-th argument of `expr` reads.
pub fn check_condition(
    expr: &ScalarExpr,
    sides: &Vec<JoinPredicate>,
    range_conditions: &mut Vec<ScalarExpr>,
    other_conditions: &mut Vec<ScalarExpr>,
)
    requires
        sides_fit(expr@, sides@),
    ensures
        condition_class(expr@, sides@) == ConditionClass::Range ==> views(final(range_conditions)@)
            == views(old(range_conditions)@).push(expr@) && views(final(other_conditions)@) == views(
            old(other_conditions)@),
        condition_class(expr@, sides@) == ConditionClass::Other ==> views(final(range_conditions)@)
            == views(old(range_conditions)@) && views(final(other_conditions)@) == views(
            old(other_conditions)@).push(expr@),
{
    let ghost old_range = range_conditions@;
    let ghost old_other = other_conditions@;
    if let ScalarExpr::FunctionCall(func) = expr {
        if func.arguments.len() != 2 || !is_range_comparison(&func.func_name) {
            other_conditions.push(expr.clone_expr());
            assert(views(other_conditions@) =~= views(old_other).push(expr@));
            return ;
        }
        let mut left = false;
        let mut right = false;
        let mut k: usize = 0;
        #[verifier::loop_isolation(false)]
        while k < 2
            invariant
                sides@.len() == 2,
                k <= 2,
                left == (exists|j: int| 0 <= j < k && sides@[j] == JoinPredicate::Left),
                right == (exists|j: int| 0 <= j < k && sides@[j] == JoinPredicate::Right),
                forall|j: int| 0 <= j < k ==> reads_one_side(#[trigger] sides@[j]),
                range_conditions@ == old_range,
                other_conditions@ == old_other,
            decreases 2 - k,
        {
            match sides[k] {
                JoinPredicate::Left => left = true,
                JoinPredicate::Right => right = true,
                JoinPredicate::Both | JoinPredicate::Other | JoinPredicate::All => {
                    other_conditions.push(expr.clone_expr());
                    assert(views(other_conditions@) =~= views(old_other).push(expr@));
                    return ;
                },
            }
            k = k + 1;
        }
        assert(reads_one_side(sides@[0]) && reads_one_side(sides@[1]));
        if left && right {
            range_conditions.push(expr.clone_expr());
            assert(views(range_conditions@) =~= views(old_range).push(expr@));
            return ;
        }
        assert(!left ==> sides@[0] != JoinPredicate::Left && sides@[1] != JoinPredicate::Left);
        assert(!right ==> sides@[0] != JoinPredicate::Right && sides@[1] != JoinPredicate::Right);
    }
    other_conditions.push(expr.clone_expr());
    assert(views(other_conditions@) =~= views(old_other).push(expr@));
}


/// Whether `sides` fits the non-equi conditions `conds`: one list of sides
/// per condition, with one side per argument of the condition.
pub open spec fn all_sides_fit(conds: Seq<ScalarExpr>, sides: Seq<Vec<JoinPredicate>>) -> bool {
    &&& sides.len() == conds.len()
    &&& forall|i: int| 0 <= i < conds.len() ==> sides_fit(#[trigger] conds[i]@, sides[i]@)
}

/// Whether a join of kind `t` can run as a range join.
pub open spec fn allows_range_join(t: JoinType) -> bool {
    t == JoinType::Inner || t == JoinType::Cross
}

/// The mathematical value of a [`PhysicalJoinType`].
pub enum PhysicalJoinView {
    Hash,
    RangeJoin(Seq<ScalarExprView>, Seq<ScalarExprView>),
}

impl View for PhysicalJoinType {
    type V = PhysicalJoinView;

    open spec fn view(&self) -> PhysicalJoinView {
        match self {
            PhysicalJoinType::Hash => PhysicalJoinView::Hash,
            PhysicalJoinType::RangeJoin(r, o) => PhysicalJoinView::RangeJoin(views(r@), views(o@)),
        }
    }
}

/// The physical join chosen for `join`, whose non-equi conditions' arguments
/// read `condition_sides` (see [`physical_join`]).
pub open spec fn chosen_join(
    join: Join,
    condition_sides: Result<Vec<Vec<JoinPredicate>>, ErrorCode>,
) -> Result<PhysicalJoinView, ErrorCode> {
    if join.left_conditions@.len() > 0 {
        Ok(PhysicalJoinView::Hash)
    } else {
        match condition_sides {
            Err(e) => Err(e),
            Ok(sides) => {
                let n = join.non_equi_conditions@.len() as int;
                let range = conditions_of_class(
                    join.non_equi_conditions@,
                    sides@,
                    n,
                    ConditionClass::Range,
                );
                let other = conditions_of_class(
                    join.non_equi_conditions@,
                    sides@,
                    n,
                    ConditionClass::Other,
                );
                if range.len() > 0 && allows_range_join(join.join_type) {
                    Ok(PhysicalJoinView::RangeJoin(range, other))
                } else {
                    Ok(PhysicalJoinView::Hash)
                }
            },
        }
    }
}

/// Chooses the physical join for `join`.
///
/// A join with equi-conditions is a hash join.  Otherwise its non-equi
/// conditions are sorted by [`check_condition`]; `condition_sides` holds, for
/// each of them, the sides its arguments read (or the error met while
/// deriving the inputs' properties).  An inner or cross join with at least
/// one range condition is a range join; any other join is a hash join (a
/// nested-loop join run by the hash join).
pub fn physical_join(
    join: &Join,
    condition_sides: Result<Vec<Vec<JoinPredicate>>, ErrorCode>,
) -> (r: Result<PhysicalJoinType, ErrorCode>)
    requires
        condition_sides matches Ok(sides) ==> all_sides_fit(join.non_equi_conditions@, sides@),
    ensures
        r matches Ok(p) ==> chosen_join(*join, condition_sides) == Ok::<PhysicalJoinView, ErrorCode>(p@),
        r matches Err(e) ==> chosen_join(*join, condition_sides) == Err::<PhysicalJoinView, ErrorCode>(e),
{
    if join.left_conditions.len() != 0 {
        return Ok(PhysicalJoinType::Hash);
    }
    let sides = match condition_sides {
        Ok(sides) => sides,
        Err(e) => return Err(e),
    };
    let conds = &join.non_equi_conditions;
    let mut range_conditions: Vec<ScalarExpr> = Vec::new();
    let mut other_conditions: Vec<ScalarExpr> = Vec::new();
    let mut i: usize = 0;
    while i < conds.len()
        invariant
            i <= conds@.len(),
            all_sides_fit(conds@, sides@),
            views(range_conditions@) == conditions_of_class(
                conds@,
                sides@,
                i as int,
                ConditionClass::Range,
            ),
            views(other_conditions@) == conditions_of_class(
                conds@,
                sides@,
                i as int,
                ConditionClass::Other,
            ),
        decreases conds@.len() - i,
    {
        assert(sides_fit(conds@[i as int]@, sides@[i as int]@));
        check_condition(&conds[i], &sides[i], &mut range_conditions, &mut other_conditions);
        i = i + 1;
    }
    if range_conditions.len() != 0 && (match join.join_type {
        JoinType::Inner | JoinType::Cross => true,
        _ => false,
    }) {
        return Ok(PhysicalJoinType::RangeJoin(range_conditions, other_conditions));
    }
    Ok(PhysicalJoinType::Hash)
}


/// Every one of the first `n` non-equi conditions is sorted into exactly one
/// of the range conditions and the other conditions: none is lost.
pub proof fn lemma_conditions_partition(conds: Seq<ScalarExpr>, sides: Seq<Vec<JoinPredicate>>, n: int)
    requires
        0 <= n,
    ensures
        conditions_of_class(conds, sides, n, ConditionClass::Range).len() + conditions_of_class(
            conds,
            sides,
            n,
            ConditionClass::Other,
        ).len() == n,
    decreases n,
{
    if n > 0 {
        lemma_conditions_partition(conds, sides, n - 1);
    }
}

/// Only inner and cross joins run as range joins: any other join (outer,
/// semi, anti, mark, single) is planned as a hash join, or gets the error
/// met deriving its inputs' properties.
pub proof fn lemma_only_inner_and_cross_joins_range(
    join: Join,
    condition_sides: Result<Vec<Vec<JoinPredicate>>, ErrorCode>,
)
    requires
        join.join_type != JoinType::Inner,
        join.join_type != JoinType::Cross,
    ensures
        chosen_join(join, condition_sides) == Ok::<PhysicalJoinView, ErrorCode>(PhysicalJoinView::Hash)
            || (condition_sides is Err && chosen_join(join, condition_sides) == Err::<
            PhysicalJoinView,
            ErrorCode,
        >(condition_sides->Err_0)),
{
}

/// A join with equi-conditions is a hash join, whatever else it has.
pub proof fn lemma_equi_join_is_hash_join(
    join: Join,
    condition_sides: Result<Vec<Vec<JoinPredicate>>, ErrorCode>,
)
    requires
        join.left_conditions@.len() > 0,
    ensures
        chosen_join(join, condition_sides) == Ok::<PhysicalJoinView, ErrorCode>(PhysicalJoinView::Hash),
{
}

/// What building a join's physical plan needs: the columns each input must
/// produce, the columns kept before and after the non-equi conditions are
/// applied, and the physical join chosen.
#[derive(Debug)]
pub struct JoinBuildPlan {
    pub left_required: ColumnSet,
    pub right_required: ColumnSet,
    pub pre_column_projections: Vec<usize>,
    pub column_projections: Vec<usize>,
    pub physical_join: PhysicalJoinType,
}

/// Prunes the columns of `join` and chooses its physical join.
///
/// The join outputs `required`; before its non-equi conditions are applied it
/// also keeps the columns they read; each input also produces the columns of
/// its own equi-conditions.  `condition_sides` is as for [`physical_join`].
pub fn build_join(
    join: &Join,
    required: ColumnSet,
    condition_sides: Result<Vec<Vec<JoinPredicate>>, ErrorCode>,
) -> (r: Result<JoinBuildPlan, ErrorCode>)
    requires
        condition_sides matches Ok(sides) ==> all_sides_fit(join.non_equi_conditions@, sides@),
    ensures
        r matches Err(e) ==> chosen_join(*join, condition_sides) == Err::<PhysicalJoinView, ErrorCode>(e),
        r matches Ok(plan) ==> {
            let others = required@.union(used_by_any(join.non_equi_conditions@));
            &&& chosen_join(*join, condition_sides) == Ok::<PhysicalJoinView, ErrorCode>(plan.physical_join@)
            &&& plan.column_projections@.to_set() == required@
            &&& plan.column_projections@.no_duplicates()
            &&& plan.pre_column_projections@.to_set() == others
            &&& plan.pre_column_projections@.no_duplicates()
            &&& plan.left_required@ == required@.union(used_by_any(join.left_conditions@)).union(others)
            &&& plan.right_required@ == required@.union(used_by_any(join.right_conditions@)).union(others)
        },
{
    // 1. Prune unused columns.
    let column_projections = column_set_to_vec(&required);
    let mut others_required = copy_column_set(&required);
    add_used_columns(&mut others_required, &join.non_equi_conditions);
    let pre_column_projections = column_set_to_vec(&others_required);
    let mut left_required = copy_column_set(&required);
    add_used_columns(&mut left_required, &join.left_conditions);
    union_into(&mut left_required, &others_required);
    let mut right_required = required;
    add_used_columns(&mut right_required, &join.right_conditions);
    union_into(&mut right_required, &others_required);
    // 2. Choose the physical join.
    let physical_join = match physical_join(join, condition_sides) {
        Ok(p) => p,
        Err(e) => return Err(e),
    };
    Ok(JoinBuildPlan {
        left_required,
        right_required,
        pre_column_projections,
        column_projections,
        physical_join,
    })
}

/// Adds the columns of `other` to `acc`.
fn union_into(acc: &mut ColumnSet, other: &ColumnSet)
    ensures
        final(acc)@ == old(acc)@.union(other@),
{
    broadcast use vstd::std_specs::hash::group_hash_axioms;
    let v = column_set_to_vec(other);
    let mut i: usize = 0;
    while i < v.len()
        invariant
            i <= v@.len(),
            acc@ == old(acc)@.union(v@.take(i as int).to_set()),
        decreases v@.len() - i,
    {
        acc.insert(v[i]);
        proof {
            assert(v@.take(i + 1) =~= v@.take(i as int).push(v@[i as int]));
            v@.take(i as int).lemma_push_to_set_commute(v@[i as int]);
        }
        assert(acc@ =~= old(acc)@.union(v@.take(i + 1).to_set()));
        i = i + 1;
    }
    assert(v@.take(i as int) =~= v@);
}

} // verus!
