use databend_query::error::ErrorCode;
use databend_query::expression::{
    Column, DataType, NumberDataType, Scalar, TableDataType, Value, BLOCK_NAME_COLUMN_ID,
    ROW_ID_COLUMN_ID, SEGMENT_NAME_COLUMN_ID, SNAPSHOT_NAME_COLUMN_ID,
};
use databend_query::internal_column::{
    InternalColumn, InternalColumnMeta, InternalColumnType, RowIdMeta,
};
use databend_query::row_id::{compute_row_id, compute_row_id_prefix, split_prefix, split_row_id};

#[test]
fn internal_column_accessors() {
    let c = InternalColumn::new("_row_id", InternalColumnType::RowId);
    assert_eq!(c.column_name(), "_row_id");
    assert_eq!(*c.column_type(), InternalColumnType::RowId);
    assert_eq!(c.table_data_type(), TableDataType::Number(NumberDataType::UInt64));
    assert_eq!(c.data_type(), DataType::Number(NumberDataType::UInt64));
    assert_eq!(c.column_id(), ROW_ID_COLUMN_ID);

    let b = InternalColumn::new("_block_name", InternalColumnType::BlockName);
    assert_eq!(b.table_data_type(), TableDataType::String);
    assert_eq!(b.data_type(), DataType::String);
    assert_eq!(b.column_id(), BLOCK_NAME_COLUMN_ID);
    let s = InternalColumn::new("_segment_name", InternalColumnType::SegmentName);
    assert_eq!(s.column_id(), SEGMENT_NAME_COLUMN_ID);
    let n = InternalColumn::new("_snapshot_name", InternalColumnType::SnapshotName);
    assert_eq!(n.column_id(), SNAPSHOT_NAME_COLUMN_ID);
    assert_eq!(n.table_data_type(), TableDataType::String);
}

#[test]
fn location_columns_hold_the_location() {
    let c = InternalColumn::new("_block_name", InternalColumnType::BlockName);
    let e = c.generate_block_name_column_values("1/2/_b/abc.parquet");
    assert_eq!(e.data_type, DataType::String);
    assert_eq!(e.value, Value::Scalar(Scalar::String("1/2/_b/abc.parquet".to_string())));
    let e = c.generate_segment_name_column_values("1/2/_sg/s.json");
    assert_eq!(e.value, Value::Scalar(Scalar::String("1/2/_sg/s.json".to_string())));
    let e = c.generate_snapshot_name_column_values("");
    assert_eq!(e.value, Value::Scalar(Scalar::String(String::new())));
}

#[test]
fn row_id_column_without_offsets() {
    let c = InternalColumn::new("_row_id", InternalColumnType::RowId);
    let meta = RowIdMeta { segment_idx: 2, block_id: 7, offsets: None };
    let e = c.generate_row_id_column_values(&meta, 3);
    assert_eq!(e.data_type, DataType::Number(NumberDataType::UInt64));
    let prefix = compute_row_id_prefix(2, 7);
    let expected = vec![
        compute_row_id(prefix, 0),
        compute_row_id(prefix, 1),
        compute_row_id(prefix, 2),
    ];
    assert_eq!(e.value, Value::Column(Column::UInt64(expected)));
    // Each row id names its segment, its block and its row.
    if let Value::Column(Column::UInt64(ids)) = e.value {
        for (j, id) in ids.iter().enumerate() {
            let (p, idx) = split_row_id(*id);
            assert_eq!(idx, j as u64);
            assert_eq!(split_prefix(p), (2, 7));
        }
    }
}

#[test]
fn row_id_column_with_offsets() {
    let c = InternalColumn::new("_row_id", InternalColumnType::RowId);
    let meta = RowIdMeta { segment_idx: 0, block_id: 1, offsets: Some(vec![5, 9]) };
    let e = c.generate_row_id_column_values(&meta, 100);
    let prefix = compute_row_id_prefix(0, 1);
    assert_eq!(prefix, 0xFFFF_FC01);
    assert_eq!(
        e.value,
        Value::Column(Column::UInt64(vec![0xFFFF_FC01_0000_0005, 0xFFFF_FC01_0000_0009]))
    );
    let empty = c.generate_row_id_column_values(&RowIdMeta::default(), 0);
    assert_eq!(empty.value, Value::Column(Column::UInt64(vec![])));
}

#[test]
fn row_id_meta_default() {
    let m = RowIdMeta::default();
    assert_eq!(m, RowIdMeta { segment_idx: 0, block_id: 0, offsets: None });
}

#[test]
fn convert_meta_to_row_id_meta() {
    let meta = RowIdMeta { segment_idx: 1, block_id: 2, offsets: Some(vec![3]) };
    assert_eq!(RowIdMeta::try_from(InternalColumnMeta::RowId(meta.clone())).unwrap(), meta);
    match RowIdMeta::try_from(InternalColumnMeta::BlockName("b".to_string())) {
        Err(ErrorCode::Internal(msg)) => {
            assert_eq!(msg, "Cannot convert BlockName(\"b\") to RowIdMeta.")
        }
        other => panic!("unexpected {:?}", other),
    }
}

#[test]
fn convert_meta_to_location() {
    assert_eq!(
        InternalColumnMeta::SegmentName("s".to_string()).try_into_location().unwrap(),
        "s"
    );
    assert_eq!(
        InternalColumnMeta::SnapshotName("n".to_string()).try_into_location().unwrap(),
        "n"
    );
    assert_eq!(InternalColumnMeta::BlockName("b".to_string()).try_into_location().unwrap(), "b");
    let err = InternalColumnMeta::RowId(RowIdMeta::default()).try_into_location().unwrap_err();
    assert_eq!(err.code(), 1001);
    assert_eq!(
        err.message(),
        "Cannot convert RowId(RowIdMeta { segment_idx: 0, block_id: 0, offsets: None }) to String."
    );
}

#[test]
fn meta_from_downcast() {
    let m = InternalColumnMeta::BlockName("x".to_string());
    assert_eq!(InternalColumnMeta::from_meta(Some(&m)).unwrap(), &m);
    let err = InternalColumnMeta::from_meta(None).unwrap_err();
    assert_eq!(err.message(), "Cannot downcast from BlockMetaInfo to InternalColumnMeta.");
}

#[test]
fn meta_equality() {
    let a = InternalColumnMeta::RowId(RowIdMeta { segment_idx: 1, block_id: 2, offsets: Some(vec![1, 2]) });
    let b = InternalColumnMeta::RowId(RowIdMeta { segment_idx: 1, block_id: 2, offsets: Some(vec![1, 2]) });
    let c = InternalColumnMeta::RowId(RowIdMeta { segment_idx: 1, block_id: 2, offsets: Some(vec![1, 3]) });
    let d = InternalColumnMeta::RowId(RowIdMeta { segment_idx: 1, block_id: 2, offsets: None });
    assert!(a.equals(Some(&b)));
    assert!(!a.equals(Some(&c)));
    assert!(!a.equals(Some(&d)));
    assert!(!a.equals(None));
    let s1 = InternalColumnMeta::SegmentName("s".to_string());
    let s2 = InternalColumnMeta::SnapshotName("s".to_string());
    assert!(s1.equals(Some(&InternalColumnMeta::SegmentName("s".to_string()))));
    assert!(!s1.equals(Some(&s2)));
}
