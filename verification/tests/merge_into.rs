use std::collections::{HashMap, HashSet};
use databend_query::error::ErrorCode;
use databend_query::expression::{DataType, NumberDataType};
use databend_query::merge_into::{
    ExecutionMode, MatchedEvaluator, MergeInto, MergeIntoType, DELETE_NAME, INSERT_NAME,
    UPDATE_NAME,
};
use databend_query::scalar_expr::ScalarExpr;

fn merge_into(merge_type: MergeIntoType, matched: Vec<MatchedEvaluator>) -> MergeInto {
    MergeInto {
        catalog: "default".to_string(),
        database: "db".to_string(),
        table: "t".to_string(),
        table_id: 1,
        columns_set: HashSet::new(),
        matched_evaluators: matched,
        unmatched_evaluators: vec![],
        target_table_idx: 0,
        field_index_map: HashMap::new(),
        merge_type,
        execution_mode: ExecutionMode::default(),
        row_id_index: 0,
        split_idx: 0,
        can_try_update_column_only: false,
    }
}

fn update() -> MatchedEvaluator {
    let mut m = HashMap::new();
    m.insert(0usize, ScalarExpr::ConstantExpr(1));
    MatchedEvaluator { condition: None, update: Some(m) }
}

fn delete() -> MatchedEvaluator {
    MatchedEvaluator { condition: Some(ScalarExpr::BoundColumnRef(0)), update: None }
}

fn names(m: &MergeInto) -> Vec<String> {
    m.schema().fields.iter().map(|f| f.name.clone()).collect()
}

#[test]
fn execution_mode_default_and_names() {
    assert_eq!(ExecutionMode::default(), ExecutionMode::SingleNode);
    assert_eq!(ExecutionMode::SingleNode.to_string(), "SingleNode");
    assert_eq!(ExecutionMode::RightJoinBroadcast.to_string(), "RightJoinBroadcast");
    assert_eq!(ExecutionMode::OtherDistributed.to_string(), "OtherDistributed");
}

#[test]
fn mutations_of_clauses() {
    assert_eq!(merge_into(MergeIntoType::FullOperation, vec![update(), delete()]).merge_into_mutations(), (true, true, true));
    assert_eq!(merge_into(MergeIntoType::InsertOnly, vec![]).merge_into_mutations(), (true, false, false));
    assert_eq!(merge_into(MergeIntoType::MatchedOnly, vec![delete()]).merge_into_mutations(), (false, false, true));
    assert_eq!(merge_into(MergeIntoType::MatchedOnly, vec![update()]).merge_into_mutations(), (false, true, false));
}

#[test]
fn schema_lists_counts_in_order() {
    let m = merge_into(MergeIntoType::FullOperation, vec![delete(), update()]);
    assert_eq!(names(&m), vec![INSERT_NAME, UPDATE_NAME, DELETE_NAME]);
    assert_eq!(INSERT_NAME, "number of rows inserted");
    assert_eq!(UPDATE_NAME, "number of rows updated");
    assert_eq!(DELETE_NAME, "number of rows deleted");
    for f in m.schema().fields.iter() {
        assert_eq!(f.data_type, DataType::Number(NumberDataType::Int32));
    }
    let m = merge_into(MergeIntoType::MatchedOnly, vec![delete()]);
    assert_eq!(names(&m), vec![DELETE_NAME]);
    let m = merge_into(MergeIntoType::InsertOnly, vec![]);
    assert_eq!(names(&m), vec![INSERT_NAME]);
}

#[test]
fn schema_without_clause_is_an_error() {
    let m = merge_into(MergeIntoType::MatchedOnly, vec![]);
    match m.merge_into_table_schema() {
        Err(ErrorCode::BadArguments(msg)) => {
            assert_eq!(msg, "at least one matched or unmatched clause for merge into")
        }
        other => panic!("unexpected {:?}", other),
    }
}

#[test]
fn error_codes() {
    assert_eq!(ErrorCode::BadArguments("x".to_string()).code(), 1006);
    assert_eq!(ErrorCode::Internal("y".to_string()).code(), 1001);
    assert_eq!(ErrorCode::Internal("y".to_string()).message(), "y");
}
