use std::collections::HashMap;
use std::sync::Arc;
use databend_query::error::ErrorCode;
use databend_query::expression::{
    BlockEntry, BlockMeta, BlockMetaIndex, Column, DataBlock, DataField, DataSchema, DataType,
    NumberDataType, RowIdKind, Scalar, Value,
};
use databend_query::merge_into::{ExecutionMode, MergeIntoType};
use databend_query::merge_into_pipeline::{build_merge_into_split_pipe, PhysicalMergeInto, SplitOutput};
use databend_query::merge_into_split::{
    CastExpr, Event, FunctionContext, MatchExpr, MergeIntoSplitProcessor, MutationOperation,
    MutationResult, PortStatus, ProcessStep, SplitStep, UpdateStep,
};
use databend_query::scalar_expr::ScalarExpr;

fn block(rows: usize) -> DataBlock {
    DataBlock { columns: vec![], num_rows: rows, meta: None }
}

fn u64_entry(v: Vec<u64>) -> BlockEntry {
    BlockEntry::new(DataType::Number(NumberDataType::UInt64), Value::Column(Column::UInt64(v)))
}

fn match_expr() -> MatchExpr {
    vec![
        (Some(ScalarExpr::BoundColumnRef(0)), None),
        (None, Some(vec![(1usize, ScalarExpr::ConstantExpr(3))])),
    ]
}

fn field_map() -> HashMap<usize, usize> {
    let mut m = HashMap::new();
    m.insert(0usize, 4usize);
    m.insert(1, 2);
    m.insert(2, 7);
    m
}

fn ctx() -> Result<FunctionContext, ErrorCode> {
    Ok(FunctionContext { tz: "UTC".to_string(), rounding_mode: false })
}

fn schema(n: usize) -> Arc<DataSchema> {
    Arc::new(DataSchema {
        fields: (0..n)
            .map(|i| DataField { name: format!("c{}", i), data_type: DataType::Number(NumberDataType::Int32) })
            .collect(),
    })
}

fn processor() -> MergeIntoSplitProcessor {
    MergeIntoSplitProcessor::create(5, MergeIntoType::FullOperation, &match_expr(), &field_map(), 9, schema(3), &ctx())
        .unwrap()
}

fn ports(finished: bool, has_data: bool, u: bool, d: bool, i: bool) -> PortStatus {
    PortStatus {
        input_finished: finished,
        input_has_data: has_data,
        update_can_push: u,
        delete_can_push: d,
        insert_can_push: i,
    }
}

#[test]
fn create_builds_the_clauses_operations() {
    let p = processor();
    assert_eq!(p.update_projections, vec![4, 2, 7]);
    assert_eq!(p.split_idx, 5);
    assert_eq!(p.name(), "MergeIntoSplit");
    assert!(p.input_data.is_none());
    assert_eq!(p.mutation_ops.len(), 2);
    match &p.mutation_ops[0] {
        MutationOperation::Delete { filter: Some(ScalarExpr::BoundColumnRef(0)), row_id_idx: 9 } => {}
        other => panic!("unexpected {:?}", other),
    }
    match &p.mutation_ops[1] {
        MutationOperation::Update { filter: None, updates } => {
            assert_eq!(updates.len(), 1);
            assert!(matches!(updates[0], (1, ScalarExpr::ConstantExpr(3))));
        }
        other => panic!("unexpected {:?}", other),
    }
}

#[test]
fn create_fails_without_function_context() {
    let err = Err(ErrorCode::Internal("no context".to_string()));
    let r = MergeIntoSplitProcessor::create(5, MergeIntoType::FullOperation, &match_expr(), &field_map(), 0, schema(3), &err);
    assert!(matches!(r, Err(ErrorCode::Internal(m)) if m == "no context"));
    let r = MergeIntoSplitProcessor::create(5, MergeIntoType::InsertOnly, &vec![], &field_map(), 0, schema(3), &err);
    assert!(r.is_ok());
}

#[test]
fn finishes_when_input_finished_and_nothing_held() {
    let mut p = processor();
    let (e, a) = p.event(&ports(true, false, true, true, true));
    assert_eq!(e, Event::Finished);
    assert!(a.finish_outputs);
}

#[test]
fn pushes_held_blocks_to_ready_ports() {
    let mut p = processor();
    p.output_data_update = Some(block(1));
    p.output_data_delete = vec![block(2), block(5)];
    p.output_data_insert = Some(block(3));
    let (e, a) = p.event(&ports(true, true, true, false, true));
    assert_eq!(e, Event::NeedConsume);
    assert_eq!(a.push_update.unwrap().num_rows, 1);
    assert!(a.push_delete.is_none());
    assert_eq!(a.push_insert.unwrap().num_rows, 3);
    assert!(p.output_data_update.is_none());
    assert_eq!(p.output_data_delete.len(), 2);
    assert!(p.output_data_insert.is_none());
    // Deletes go out oldest first, one per event.
    let (e, a) = p.event(&ports(false, true, true, true, true));
    assert_eq!(e, Event::NeedConsume);
    assert_eq!(a.push_delete.unwrap().num_rows, 2);
    let (_, a) = p.event(&ports(false, true, true, true, true));
    assert_eq!(a.push_delete.unwrap().num_rows, 5);
    let (e, a) = p.event(&ports(false, true, true, true, true));
    assert_eq!(e, Event::Sync);
    assert!(a.pull_input);
}

#[test]
fn asks_for_data_when_input_is_empty() {
    let mut p = processor();
    let (e, a) = p.event(&ports(false, false, true, true, true));
    assert_eq!(e, Event::NeedData);
    assert!(a.set_need_data);
}

#[test]
fn unmodified_part_of_stored_block_is_kept_and_block_deleted() {
    let mut p = processor();
    let index = BlockMetaIndex { segment_idx: 1, block_idx: 2 };
    p.receive_input(DataBlock { columns: vec![], num_rows: 4, meta: Some(BlockMeta::BlockIndex(index)) });
    assert!(matches!(p.process(), ProcessStep::Done));
    assert_eq!(p.output_data_delete.len(), 1);
    assert_eq!(p.output_data_delete[0].num_rows, 0);
    assert_eq!(p.output_data_delete[0].meta, Some(BlockMeta::BlockIndex(index)));
    let kept = p.output_data_insert.as_ref().unwrap();
    assert_eq!(kept.num_rows, 4);
    assert_eq!(kept.meta, Some(BlockMeta::BlockIndex(index)));
    assert!(p.input_data.is_none());

    let mut q = processor();
    q.receive_input(DataBlock { columns: vec![], num_rows: 0, meta: Some(BlockMeta::BlockIndex(index)) });
    q.process();
    assert!(q.output_data_insert.is_none());
    assert_eq!(q.output_data_delete.len(), 1);
}

#[test]
fn matched_rows_go_through_the_clauses() {
    let mut p = processor();
    p.receive_input(block(6));
    let b = match p.process() {
        ProcessStep::Split(b) => b,
        _ => panic!("expected a split"),
    };
    assert_eq!(b.num_rows, 6);
    let step = p.accept_split(block(2), block(4));
    // The unmatched rows wait until the matched rows are split.
    assert!(p.output_data_insert.is_none());
    assert_eq!(p.pending_insert.as_ref().unwrap().num_rows, 4);
    match step {
        SplitStep::Apply { op_index: 0, is_first: true, block } => assert_eq!(block.num_rows, 2),
        other => panic!("unexpected {:?}", other),
    }
    // The delete clause deletes one row and leaves one.
    let step = p.apply_mutation_result(0, Ok(MutationResult::Deleted { stage: block(1), row_ids: block(1) })).unwrap();
    assert_eq!(p.output_data_delete.len(), 1);
    assert_eq!(p.output_data_delete[0].meta, Some(BlockMeta::RowIdKind(RowIdKind::Delete)));
    match step {
        SplitStep::Apply { op_index: 1, is_first: false, block } => assert_eq!(block.num_rows, 1),
        other => panic!("unexpected {:?}", other),
    }
    let step = p.apply_mutation_result(1, Ok(MutationResult::Updated(block(1)))).unwrap();
    assert!(matches!(step, SplitStep::Finish(b) if b.num_rows == 1));
    assert!(p.output_data_insert.is_none());
    p.accept_update(Ok(block(1))).unwrap();
    assert_eq!(p.output_data_update.as_ref().unwrap().num_rows, 1);
    assert_eq!(p.output_data_insert.as_ref().unwrap().num_rows, 4);
    assert!(p.pending_insert.is_none());
}

#[test]
fn unmatched_rows_go_out_at_once_without_matched_rows() {
    let mut p = processor();
    let step = p.accept_split(block(0), block(3));
    assert!(matches!(step, SplitStep::Stop));
    assert_eq!(p.output_data_insert.as_ref().unwrap().num_rows, 3);
}

#[test]
fn an_error_drops_the_unmatched_rows() {
    let mut p = processor();
    p.accept_split(block(2), block(4));
    let r = p.apply_mutation_result(0, Err(ErrorCode::Internal("eval".to_string())));
    assert!(r.is_err());
    assert!(p.output_data_insert.is_none());
    assert!(p.pending_insert.is_none());

    let mut q = processor();
    q.accept_split(block(2), block(4));
    let r = q.accept_update(Err(ErrorCode::Internal("cast".to_string())));
    assert!(matches!(r, Err(ErrorCode::Internal(m)) if m == "cast"));
    assert!(q.output_data_insert.is_none());
    assert!(q.output_data_update.is_none());
}

#[test]
fn delete_of_every_row_stops() {
    let mut p = processor();
    p.accept_split(block(3), block(1));
    let step = p.apply_mutation_result(0, Ok(MutationResult::Deleted { stage: block(0), row_ids: block(3) })).unwrap();
    assert!(matches!(step, SplitStep::Stop));
    assert_eq!(p.output_data_delete.len(), 1);
    // The split ends there: the unmatched rows go out.
    assert_eq!(p.output_data_insert.as_ref().unwrap().num_rows, 1);
    let mut q = processor();
    let step = q.apply_mutation_result(0, Ok(MutationResult::Deleted { stage: block(2), row_ids: block(0) })).unwrap();
    assert!(matches!(step, SplitStep::Apply { op_index: 1, .. }));
    assert!(q.output_data_delete.is_empty());
    let marked = DataBlock { columns: vec![], num_rows: 1, meta: Some(BlockMeta::Other) };
    let r = q.apply_mutation_result(0, Ok(MutationResult::Deleted { stage: block(2), row_ids: marked }));
    assert!(matches!(r, Err(ErrorCode::Internal(m)) if m == "Internal error, block meta data is already set."));
    let r = q.apply_mutation_result(1, Err(ErrorCode::Internal("eval".to_string())));
    assert!(r.is_err());
}

#[test]
fn finish_update_filters_projects_and_casts() {
    let mut p = processor();
    // Columns 0..8; the last is the filter.
    let mut columns: Vec<BlockEntry> = (0..8u64).map(|c| u64_entry(vec![c * 10, c * 10 + 1, c * 10 + 2])).collect();
    columns.push(BlockEntry::new(DataType::Boolean, Value::Column(Column::Boolean(vec![true, false, true]))));
    let b = DataBlock { columns, num_rows: 3, meta: None };
    match p.finish_update(b) {
        UpdateStep::Cast { block, plan, update_rows } => {
            assert_eq!(update_rows, 2);
            assert_eq!(block.num_rows, 2);
            assert_eq!(block.columns.len(), 3);
            assert_eq!(block.columns[0].value, Value::Column(Column::UInt64(vec![40, 42])));
            assert_eq!(block.columns[1].value, Value::Column(Column::UInt64(vec![20, 22])));
            assert_eq!(block.columns[2].value, Value::Column(Column::UInt64(vec![70, 72])));
            assert_eq!(plan.projections, vec![3, 4, 5]);
            assert_eq!(
                plan.exprs[1],
                CastExpr {
                    column: 1,
                    from: DataType::Number(NumberDataType::UInt64),
                    to: DataType::Number(NumberDataType::Int32)
                }
            );
        }
        UpdateStep::Empty => panic!("expected rows to update"),
    }
    let mut columns: Vec<BlockEntry> = (0..8u64).map(|c| u64_entry(vec![c])).collect();
    columns.push(BlockEntry::new(DataType::Boolean, Value::Scalar(Scalar::Boolean(false))));
    p.pending_insert = Some(block(2));
    assert!(matches!(p.finish_update(DataBlock { columns, num_rows: 1, meta: None }), UpdateStep::Empty));
    assert_eq!(p.output_data_insert.as_ref().unwrap().num_rows, 2);
}

#[test]
fn accept_update_sets_the_update_output() {
    let mut p = processor();
    p.accept_update(Ok(block(2))).unwrap();
    assert_eq!(p.output_data_update.as_ref().unwrap().num_rows, 2);
}

fn plan(split: Option<usize>) -> PhysicalMergeInto {
    PhysicalMergeInto {
        matched: match_expr(),
        field_index_of_input_schema: field_map(),
        row_id_idx: 0,
        execution_mode: ExecutionMode::SingleNode,
        merge_type: MergeIntoType::MatchedOnly,
        can_try_update_column_only: false,
        merge_into_split_idx: split,
    }
}

#[test]
fn split_pipe_has_one_processor_per_output() {
    let pipe = build_merge_into_split_pipe(&plan(Some(9)), 4, schema(3), &ctx()).unwrap().unwrap();
    assert_eq!(pipe.input_length, 4);
    assert_eq!(pipe.output_length, 12);
    assert_eq!(pipe.items.len(), 4);
    for item in &pipe.items {
        assert_eq!(item.inputs_port, 1);
        assert_eq!(item.outputs_port, vec![SplitOutput::Update, SplitOutput::Delete, SplitOutput::Insert]);
        assert_eq!(item.processor.split_idx, 9);
        assert_eq!(item.processor.update_projections, vec![4, 2, 7]);
    }
    assert!(build_merge_into_split_pipe(&plan(None), 4, schema(3), &ctx()).unwrap().is_none());
    let err = Err(ErrorCode::Internal("no context".to_string()));
    assert!(build_merge_into_split_pipe(&plan(Some(1)), 2, schema(3), &err).is_err());
}
