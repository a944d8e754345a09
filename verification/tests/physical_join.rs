use std::collections::HashSet;
use databend_query::error::ErrorCode;
use databend_query::physical_join::{
    build_join, check_condition, physical_join, Join, JoinPredicate, JoinType, PhysicalJoinType,
};
use databend_query::scalar_expr::{FunctionCall, ScalarExpr};
use databend_query::physical_join::JoinPredicate::{All, Both, Left, Right};

fn col(i: usize) -> ScalarExpr {
    ScalarExpr::BoundColumnRef(i)
}

fn call(name: &str, args: Vec<ScalarExpr>) -> ScalarExpr {
    ScalarExpr::FunctionCall(FunctionCall { func_name: name.to_string(), arguments: args })
}

fn join(left: Vec<ScalarExpr>, non_equi: Vec<ScalarExpr>, join_type: JoinType) -> Join {
    Join { left_conditions: left, right_conditions: vec![], non_equi_conditions: non_equi, join_type }
}

fn check(expr: &ScalarExpr, sides: Vec<JoinPredicate>) -> (usize, usize) {
    let mut range = vec![];
    let mut other = vec![];
    check_condition(expr, &sides, &mut range, &mut other);
    (range.len(), other.len())
}

#[test]
fn comparison_of_both_sides_is_a_range_condition() {
    assert_eq!(check(&call("lt", vec![col(0), col(1)]), vec![Left, Right]), (1, 0));
    assert_eq!(check(&call("gte", vec![col(1), col(0)]), vec![Right, Left]), (1, 0));
    assert_eq!(check(&call("gt", vec![col(0), col(2)]), vec![Left, Left]), (0, 1));
    assert_eq!(check(&call("eq", vec![col(0), col(1)]), vec![Left, Right]), (0, 1));
    assert_eq!(check(&call("lt", vec![col(0)]), vec![Left]), (0, 1));
    assert_eq!(check(&col(3), vec![]), (0, 1));
    // An argument that reads both sides, or none, makes it another condition.
    assert_eq!(check(&call("lte", vec![col(0), col(1)]), vec![Left, Both]), (0, 1));
    assert_eq!(check(&call("lte", vec![col(0), ScalarExpr::ConstantExpr(1)]), vec![Left, All]), (0, 1));
}

#[test]
fn equi_join_is_a_hash_join() {
    let j = join(vec![col(0)], vec![call("lt", vec![col(0), col(1)])], JoinType::Inner);
    let r = physical_join(&j, Err(ErrorCode::Internal("unused".to_string()))).unwrap();
    assert!(matches!(r, PhysicalJoinType::Hash));
}

#[test]
fn inner_join_on_comparison_is_a_range_join() {
    let conds = vec![call("lt", vec![col(0), col(1)]), call("eq", vec![col(0), col(2)])];
    let j = join(vec![], conds, JoinType::Inner);
    let r = physical_join(&j, Ok(vec![vec![Left, Right], vec![Left, Left]])).unwrap();
    match r {
        PhysicalJoinType::RangeJoin(range, other) => {
            assert_eq!(range.len(), 1);
            assert_eq!(other.len(), 1);
            assert!(matches!(&other[0], ScalarExpr::FunctionCall(f) if f.func_name == "eq"));
        }
        _ => panic!("expected a range join"),
    }
    let j = join(vec![], vec![call("lt", vec![col(0), col(1)])], JoinType::Left);
    let r = physical_join(&j, Ok(vec![vec![Left, Right]])).unwrap();
    assert!(matches!(r, PhysicalJoinType::Hash));
    let j = join(vec![], vec![call("eq", vec![col(0), col(1)])], JoinType::Cross);
    let r = physical_join(&j, Ok(vec![vec![Left, Right]])).unwrap();
    assert!(matches!(r, PhysicalJoinType::Hash));
}

#[test]
fn property_error_is_returned() {
    let j = join(vec![], vec![], JoinType::Inner);
    let r = physical_join(&j, Err(ErrorCode::Internal("no child".to_string())));
    assert!(matches!(r, Err(ErrorCode::Internal(m)) if m == "no child"));
}

#[test]
fn build_join_prunes_columns() {
    let j = Join {
        left_conditions: vec![col(1)],
        right_conditions: vec![col(4)],
        non_equi_conditions: vec![call("lt", vec![col(2), call("plus", vec![col(5), col(6)])])],
        join_type: JoinType::Inner,
    };
    let required: HashSet<usize> = [0usize, 3].into_iter().collect();
    let plan = build_join(&j, required, Ok(vec![vec![Left, Right]])).unwrap();
    let set = |v: &[usize]| v.iter().copied().collect::<HashSet<usize>>();
    assert_eq!(plan.column_projections.len(), 2);
    assert_eq!(set(&plan.column_projections), set(&[0, 3]));
    assert_eq!(set(&plan.pre_column_projections), set(&[0, 2, 3, 5, 6]));
    assert_eq!(plan.left_required, set(&[0, 1, 2, 3, 5, 6]));
    assert_eq!(plan.right_required, set(&[0, 2, 3, 4, 5, 6]));
    assert!(matches!(plan.physical_join, PhysicalJoinType::Hash));
}

#[test]
fn each_condition_goes_to_exactly_one_list() {
    let conds = vec![
        call("lt", vec![col(0), col(1)]),
        call("gt", vec![col(0), col(2)]),
        call("lte", vec![col(0), col(1)]),
    ];
    let j = join(vec![], conds, JoinType::Cross);
    let r = physical_join(&j, Ok(vec![vec![Left, Right], vec![Left, Left], vec![Both, Right]])).unwrap();
    match r {
        PhysicalJoinType::RangeJoin(range, other) => {
            // The third condition reads both sides in one argument: it is another condition.
            assert_eq!(range.len() + other.len(), 3);
            assert_eq!(range.len(), 1);
            assert!(matches!(&other[0], ScalarExpr::FunctionCall(f) if f.func_name == "gt"));
            assert!(matches!(&other[1], ScalarExpr::FunctionCall(f) if f.func_name == "lte"));
        }
        _ => panic!("expected a range join"),
    }
}
