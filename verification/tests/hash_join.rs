use std::collections::HashSet;
use databend_query::error::ErrorCode;
use databend_query::expression::{BlockEntry, Column, DataBlock, DataType, NumberDataType, Scalar, Value};
use databend_query::hash_join::HashJoinProbeState;

fn u64_block(values: Vec<u64>) -> DataBlock {
    let n = values.len();
    DataBlock {
        columns: vec![BlockEntry::new(
            DataType::Number(NumberDataType::UInt64),
            Value::Column(Column::UInt64(values)),
        )],
        num_rows: n,
        meta: None,
    }
}

fn probe_input() -> DataBlock {
    DataBlock {
        columns: vec![
            BlockEntry::new(DataType::String, Value::Scalar(Scalar::String("a".to_string()))),
            BlockEntry::new(DataType::Number(NumberDataType::UInt64), Value::Column(Column::UInt64(vec![7, 8]))),
        ],
        num_rows: 2,
        meta: None,
    }
}

fn state() -> HashJoinProbeState {
    HashJoinProbeState { probe_projections: [1usize].into_iter().collect::<HashSet<usize>>() }
}

#[test]
fn cross_join_one_block_per_build_row() {
    let build_blocks = vec![u64_block(vec![10]), u64_block(vec![20, 30])];
    let out = state().cross_join(probe_input(), &build_blocks, Ok(u64_block(vec![10, 20, 30]))).unwrap();
    assert_eq!(out.len(), 3);
    for (i, b) in out.iter().enumerate() {
        assert_eq!(b.num_rows, 2);
        assert_eq!(b.columns.len(), 2);
        assert_eq!(b.columns[0].value, Value::Column(Column::UInt64(vec![7, 8])));
        assert_eq!(b.columns[1].value, Value::Scalar(Scalar::UInt64([10, 20, 30][i])));
    }
}

#[test]
fn cross_join_single_build_row() {
    let build_blocks = vec![u64_block(vec![5])];
    let out = state().cross_join(probe_input(), &build_blocks, Ok(u64_block(vec![5]))).unwrap();
    assert_eq!(out.len(), 1);
    assert_eq!(out[0].columns[1].value, Value::Scalar(Scalar::UInt64(5)));
}

#[test]
fn cross_join_with_an_empty_side() {
    let out = state().cross_join(probe_input(), &vec![u64_block(vec![])], Ok(u64_block(vec![]))).unwrap();
    assert!(out.is_empty());
    let empty_input = DataBlock { columns: vec![], num_rows: 0, meta: None };
    let out = state().cross_join(empty_input, &vec![u64_block(vec![1])], Ok(u64_block(vec![1]))).unwrap();
    assert!(out.is_empty());
}

#[test]
fn cross_join_concat_error() {
    let r = state().cross_join(probe_input(), &vec![u64_block(vec![1])], Err(ErrorCode::Internal("bad".to_string())));
    assert!(matches!(r, Err(ErrorCode::Internal(m)) if m == "bad"));
}

#[test]
fn merge_with_constant_block_appends_row() {
    let build = u64_block(vec![1, 2, 3]);
    let probe = probe_input();
    let merged = state().merge_with_constant_block(&build, &probe, 2).unwrap();
    assert_eq!(merged.columns.len(), 3);
    assert_eq!(merged.columns[2].value, Value::Scalar(Scalar::UInt64(3)));
    assert_eq!(merged.columns[0].value, probe.columns[0].value);
}

#[test]
fn project_keeps_listed_columns() {
    let b = probe_input().project(&[0usize].into_iter().collect());
    assert_eq!(b.columns.len(), 1);
    assert_eq!(b.columns[0].data_type, DataType::String);
    assert_eq!(b.num_rows, 2);
}
