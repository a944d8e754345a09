//! Internal columns (`_row_id`, `_block_name`, `_segment_name`,
//! `_snapshot_name`) and the block meta that carries what they are made of.
use vstd::prelude::*;
use vstd::string::StringExecFns;
use crate::error::ErrorCode;
use crate::expression::{
    BlockEntry, Column, ColumnId, DataType, NumberDataType, Scalar, TableDataType, Value,
    data_type_of, BLOCK_NAME_COLUMN_ID, ROW_ID_COLUMN_ID, SEGMENT_NAME_COLUMN_ID,
    SNAPSHOT_NAME_COLUMN_ID,
};
use crate::row_id::{
    block_id_space, compute_row_id, compute_row_id_prefix, prefix_space, reversed_segment, row_id_of,
    row_id_prefix_of, segment_id_space,
};
use crate::row_id_laws::{lemma_prefix_fits, lemma_split_prefix_of_compute, lemma_split_row_id_of_compute};

verus! {

/// Where the rows of a block sit: the segment, the block, and, when only some
/// rows are read, their offsets in the block.
#[derive(Clone, Debug, PartialEq, Eq)]
pub struct RowIdMeta {
    pub segment_idx: usize,
    pub block_id: usize,
    pub offsets: Option<Vec<usize>>,
}

/// What an internal column of a block is generated from.
#[derive(Clone, Debug, PartialEq, Eq)]
pub enum InternalColumnMeta {
    RowId(RowIdMeta),
    /// The block's location.
    BlockName(String),
    /// The segment's location.
    SegmentName(String),
    /// The snapshot's location.
    SnapshotName(String),
}

/// The mathematical value of a [`RowIdMeta`].
pub struct RowIdMetaView {
    pub segment_idx: usize,
    pub block_id: usize,
    pub offsets: Option<Seq<usize>>,
}

/// The mathematical value of an [`InternalColumnMeta`].
pub enum InternalColumnMetaView {
    RowId(RowIdMetaView),
    BlockName(Seq<char>),
    SegmentName(Seq<char>),
    SnapshotName(Seq<char>),
}

impl View for RowIdMeta {
    type V = RowIdMetaView;

    open spec fn view(&self) -> RowIdMetaView {
        RowIdMetaView {
            segment_idx: self.segment_idx,
            block_id: self.block_id,
            offsets: match self.offsets {
                Some(o) => Some(o@),
                None => None,
            },
        }
    }
}

impl View for InternalColumnMeta {
    type V = InternalColumnMetaView;

    open spec fn view(&self) -> InternalColumnMetaView {
        match self {
            InternalColumnMeta::RowId(m) => InternalColumnMetaView::RowId(m@),
            InternalColumnMeta::BlockName(s) => InternalColumnMetaView::BlockName(s@),
            InternalColumnMeta::SegmentName(s) => InternalColumnMetaView::SegmentName(s@),
            InternalColumnMeta::SnapshotName(s) => InternalColumnMetaView::SnapshotName(s@),
        }
    }
}

impl Default for RowIdMeta {
    fn default() -> (m: RowIdMeta)
        ensures
            m.segment_idx == 0,
            m.block_id == 0,
            m.offsets.is_none(),
    {
        RowIdMeta { segment_idx: 0, block_id: 0, offsets: None }
    }
}

fn same_offset_list(x: &Vec<usize>, y: &Vec<usize>) -> (r: bool)
    ensures
        r == (x@ == y@),
{
    if x.len() != y.len() {
        return false;
    }
    let mut i: usize = 0;
    while i < x.len()
        invariant
            x.len() == y.len(),
            i <= x.len(),
            forall|j: int| 0 <= j < i ==> x@[j] == y@[j],
        decreases x.len() - i,
    {
        if x[i] != y[i] {
            assert(x@[i as int] != y@[i as int]);
            return false;
        }
        i = i + 1;
    }
    assert(x@ =~= y@);
    true
}

fn same_offsets(a: &Option<Vec<usize>>, b: &Option<Vec<usize>>) -> (r: bool)
    ensures
        r == (match (a, b) {
            (Some(x), Some(y)) => x@ == y@,
            (None, None) => true,
            _ => false,
        }),
{
    match (a, b) {
        (Some(x), Some(y)) => same_offset_list(x, y),
        (None, None) => true,
        _ => false,
    }
}

impl InternalColumnMeta {
    /// Whether `self` equals the block meta `other`, where `other` is the
    /// meta downcast to an internal column meta (`None` when it is of
    /// another kind).
    pub fn equals(&self, other: Option<&InternalColumnMeta>) -> (r: bool)
        ensures
            r == (match other {
                Some(o) => self@ == o@,
                None => false,
            }),
    {
        match other {
            None => false,
            Some(o) => match (self, o) {
                (InternalColumnMeta::RowId(a), InternalColumnMeta::RowId(b)) => {
                    let same = same_offsets(&a.offsets, &b.offsets);
                    proof {
                        if same {
                            assert(a@.offsets == b@.offsets);
                        }
                    }
                    a.segment_idx == b.segment_idx && a.block_id == b.block_id && same
                },
                (InternalColumnMeta::BlockName(a), InternalColumnMeta::BlockName(b)) => *a == *b,
                (InternalColumnMeta::SegmentName(a), InternalColumnMeta::SegmentName(b)) => *a == *b,
                (InternalColumnMeta::SnapshotName(a), InternalColumnMeta::SnapshotName(b)) => {
                    *a == *b
                },
                _ => false,
            },
        }
    }
}


impl InternalColumnMeta {
    /// The internal column meta that a block's meta is, given the result of
    /// downcasting it (`None` when the meta is of another kind).
    pub fn from_meta(downcast: Option<&InternalColumnMeta>) -> (r: Result<&InternalColumnMeta, ErrorCode>)
        ensures
            match downcast {
                Some(m) => r == Ok::<&InternalColumnMeta, ErrorCode>(m),
                None => r matches Err(ErrorCode::Internal(msg))
                    && msg@ == "Cannot downcast from BlockMetaInfo to InternalColumnMeta."@,
            },
    {
        match downcast {
            Some(part_ref) => Ok(part_ref),
            None => Err(
                ErrorCode::Internal(
                    "Cannot downcast from BlockMetaInfo to InternalColumnMeta.".to_owned(),
                ),
            ),
        }
    }
}

/// The `Debug` rendering of a meta, as `std::format!("{:?}", ..)` produces it.
pub uninterp spec fn debug_text(meta: InternalColumnMetaView) -> Seq<char>;

/// Renders `meta` with `std::format!("{:?}", ..)` (its derived `Debug`).
/// The text is named by `debug_text`, as a function of the meta alone.
#[verifier::external_body]
fn debug_string(meta: &InternalColumnMeta) -> (s: String)
    ensures
        s@ == debug_text(meta@),
{
    format!("{:?}", meta)
}

/// The message of the error returned when `meta` cannot be converted to `target`.
pub open spec fn conversion_message_text(meta: InternalColumnMetaView, target: Seq<char>) -> Seq<char> {
    "Cannot convert "@ + debug_text(meta) + " to "@ + target + "."@
}

/// "Cannot convert {meta:?} to {target}."
fn conversion_message(meta: &InternalColumnMeta, target: &str) -> (m: String)
    ensures
        m@ == conversion_message_text(meta@, target@),
{
    proof {
        reveal_strlit("Cannot convert ");
        reveal_strlit(" to ");
        reveal_strlit(".");
    }
    let debug = debug_string(meta);
    let mut m = "Cannot convert ".to_owned();
    m.append(debug.as_str());
    m.append(" to ");
    m.append(target);
    m.append(".");
    m
}

impl RowIdMeta {
    /// The row-id meta that `value` holds; an internal error for a meta of
    /// another kind.
    pub fn try_from(value: InternalColumnMeta) -> (r: Result<RowIdMeta, ErrorCode>)
        ensures
            match value {
                InternalColumnMeta::RowId(m) => r == Ok::<RowIdMeta, ErrorCode>(m),
                _ => r matches Err(ErrorCode::Internal(msg)) && msg@ == conversion_message_text(
                    value@,
                    "RowIdMeta"@,
                ),
            },
    {
        match value {
            InternalColumnMeta::RowId(meta) => Ok(meta),
            _ => Err(ErrorCode::Internal(conversion_message(&value, "RowIdMeta"))),
        }
    }
}

impl InternalColumnMeta {
    /// The location that `self` holds (of a block, a segment or a snapshot);
    /// an internal error for a row-id meta.
    pub fn try_into_location(self) -> (r: Result<String, ErrorCode>)
        ensures
            match self {
                InternalColumnMeta::BlockName(s) => r == Ok::<String, ErrorCode>(s),
                InternalColumnMeta::SegmentName(s) => r == Ok::<String, ErrorCode>(s),
                InternalColumnMeta::SnapshotName(s) => r == Ok::<String, ErrorCode>(s),
                InternalColumnMeta::RowId(_) => r matches Err(ErrorCode::Internal(msg))
                    && msg@ == conversion_message_text(self@, "String"@),
            },
    {
        match self {
            InternalColumnMeta::BlockName(block_location) => Ok(block_location),
            InternalColumnMeta::SegmentName(segment_location) => Ok(segment_location),
            InternalColumnMeta::SnapshotName(snapshot_location) => Ok(snapshot_location),
            _ => Err(ErrorCode::Internal(conversion_message(&self, "String"))),
        }
    }
}

/// The kinds of internal columns.
#[derive(Clone, Copy, Debug, PartialEq, Eq, Structural)]
pub enum InternalColumnType {
    RowId,
    BlockName,
    SegmentName,
    SnapshotName,
}

/// An internal column: its name and its kind.
#[derive(Clone, Debug, PartialEq)]
pub struct InternalColumn {
    pub column_name: String,
    pub column_type: InternalColumnType,
}

/// The table type of an internal column of kind `t`.
pub open spec fn internal_table_data_type(t: InternalColumnType) -> TableDataType {
    match t {
        InternalColumnType::RowId => TableDataType::Number(NumberDataType::UInt64),
        _ => TableDataType::String,
    }
}

/// The column id of an internal column of kind `t`.
pub open spec fn internal_column_id(t: InternalColumnType) -> ColumnId {
    match t {
        InternalColumnType::RowId => ROW_ID_COLUMN_ID,
        InternalColumnType::BlockName => BLOCK_NAME_COLUMN_ID,
        InternalColumnType::SegmentName => SEGMENT_NAME_COLUMN_ID,
        InternalColumnType::SnapshotName => SNAPSHOT_NAME_COLUMN_ID,
    }
}

/// The row ids of a block read with `meta`: one per offset in `meta.offsets`
/// when it is given, else one for each of the first `num_rows` rows.
pub open spec fn row_ids_of(meta: RowIdMetaView, num_rows: nat) -> Seq<u64> {
    let prefix = row_id_prefix_of(meta.segment_idx as int, meta.block_id as int);
    match meta.offsets {
        Some(offsets) => offsets.map(|_i: int, o: usize| row_id_of(prefix, o as int) as u64),
        None => Seq::new(num_rows, |i: int| row_id_of(prefix, i) as u64),
    }
}

impl InternalColumn {
    /// The internal column `name` of kind `column_type`.
    pub fn new(name: &str, column_type: InternalColumnType) -> (c: InternalColumn)
        ensures
            c.column_name@ == name@,
            c.column_type == column_type,
    {
        InternalColumn { column_name: name.to_owned(), column_type }
    }

    /// The column's kind.
    pub fn column_type(&self) -> (t: &InternalColumnType)
        ensures
            *t == self.column_type,
    {
        &self.column_type
    }

    /// The column's type in a table: `UInt64` for row ids, `String` for locations.
    pub fn table_data_type(&self) -> (t: TableDataType)
        ensures
            t == internal_table_data_type(self.column_type),
    {
        match &self.column_type {
            InternalColumnType::RowId => TableDataType::Number(NumberDataType::UInt64),
            InternalColumnType::BlockName => TableDataType::String,
            InternalColumnType::SegmentName => TableDataType::String,
            InternalColumnType::SnapshotName => TableDataType::String,
        }
    }

    /// The column's type during execution.
    pub fn data_type(&self) -> (t: DataType)
        ensures
            t == data_type_of(internal_table_data_type(self.column_type)),
    {
        let t = &self.table_data_type();
        DataType::from_table_data_type(t)
    }

    /// The column's name.
    pub fn column_name(&self) -> (n: &String)
        ensures
            n == self.column_name,
    {
        &self.column_name
    }

    /// The column's id, one reserved id for each kind.
    pub fn column_id(&self) -> (id: ColumnId)
        ensures
            id == internal_column_id(self.column_type),
    {
        match &self.column_type {
            InternalColumnType::RowId => ROW_ID_COLUMN_ID,
            InternalColumnType::BlockName => BLOCK_NAME_COLUMN_ID,
            InternalColumnType::SegmentName => SEGMENT_NAME_COLUMN_ID,
            InternalColumnType::SnapshotName => SNAPSHOT_NAME_COLUMN_ID,
        }
    }

    /// The `_block_name` entry of a block at `block_location`: that location,
    /// one value for every row.
    pub fn generate_block_name_column_values(&self, block_location: &str) -> (e: BlockEntry)
        ensures
            e.data_type == DataType::String,
            e.value matches Value::Scalar(Scalar::String(s)) && s@ == block_location@,
    {
        location_entry(block_location)
    }

    /// The `_segment_name` entry of a block of the segment at `segment_location`.
    pub fn generate_segment_name_column_values(&self, segment_location: &str) -> (e: BlockEntry)
        ensures
            e.data_type == DataType::String,
            e.value matches Value::Scalar(Scalar::String(s)) && s@ == segment_location@,
    {
        location_entry(segment_location)
    }

    /// The `_snapshot_name` entry of a block of the snapshot at `snapshot_location`.
    pub fn generate_snapshot_name_column_values(&self, snapshot_location: &str) -> (e: BlockEntry)
        ensures
            e.data_type == DataType::String,
            e.value matches Value::Scalar(Scalar::String(s)) && s@ == snapshot_location@,
    {
        location_entry(snapshot_location)
    }

    /// The `_row_id` column of a block read with `meta`: the row id of each
    /// offset in `meta.offsets` when it is given, else of rows `0..num_rows`,
    /// all under the prefix of `meta`'s segment and block.
    pub fn generate_row_id_column_values(&self, meta: &RowIdMeta, num_rows: usize) -> (e: BlockEntry)
        ensures
            e.data_type == DataType::Number(NumberDataType::UInt64),
            e.value matches Value::Column(Column::UInt64(ids)) && ids@ == row_ids_of(
                meta@,
                num_rows as nat,
            ),
    {
        let block_id = meta.block_id as u64;
        let seg_id = meta.segment_idx as u64;
        let high_32bit = compute_row_id_prefix(seg_id, block_id);
        let mut row_ids: Vec<u64> = Vec::with_capacity(num_rows);
        let ghost prefix = row_id_prefix_of(meta.segment_idx as int, meta.block_id as int);
        if let Some(offsets) = &meta.offsets {
            let mut k: usize = 0;
            while k < offsets.len()
                invariant
                    high_32bit == prefix,
                    k <= offsets.len(),
                    row_ids@.len() == k,
                    forall|j: int|
                        0 <= j < k ==> row_ids@[j] == row_id_of(prefix, offsets@[j] as int),
                decreases offsets.len() - k,
            {
                let row_id = compute_row_id(high_32bit, offsets[k] as u64);
                row_ids.push(row_id);
                k = k + 1;
            }
            assert(row_ids@ =~= row_ids_of(meta@, num_rows as nat));
        } else {
            let mut i: usize = 0;
            while i < num_rows
                invariant
                    high_32bit == prefix,
                    i <= num_rows,
                    row_ids@.len() == i,
                    forall|j: int| 0 <= j < i ==> row_ids@[j] == row_id_of(prefix, j),
                decreases num_rows - i,
            {
                let row_id = compute_row_id(high_32bit, i as u64);
                row_ids.push(row_id);
                i = i + 1;
            }
            assert(row_ids@ =~= row_ids_of(meta@, num_rows as nat));
        }
        BlockEntry::new(
            DataType::Number(NumberDataType::UInt64),
            Value::Column(Column::UInt64(row_ids)),
        )
    }
}

/// The `_row_id` generated for row `j` of a block read without offsets
/// names the block's segment (its low 22 bits), the block (its low 10 bits)
/// and the row: splitting it gives them back.
pub proof fn lemma_generated_row_id_names_its_row(meta: RowIdMetaView, num_rows: nat, j: int)
    requires
        meta.offsets is None,
        0 <= j < num_rows,
        j < prefix_space(),
    ensures
        ({
            let id = row_ids_of(meta, num_rows)[j] as int;
            let prefix = id / prefix_space();
            &&& row_ids_of(meta, num_rows).len() == num_rows
            &&& id % prefix_space() == j
            &&& reversed_segment(prefix / block_id_space()) == meta.segment_idx as int
                % segment_id_space()
            &&& prefix % block_id_space() == meta.block_id as int % block_id_space()
        }),
{
    let seg = meta.segment_idx as u64;
    let blk = meta.block_id as u64;
    let prefix = row_id_prefix_of(seg as int, blk as int);
    lemma_prefix_fits(seg, blk);
    lemma_split_row_id_of_compute(prefix as u64, j as u64);
    lemma_split_prefix_of_compute(seg, blk);
    assert(row_id_of(prefix, j) < 0x1_0000_0000_0000_0000) by (nonlinear_arith)
        requires
            0 <= prefix < 0x1_0000_0000,
            0 <= j < 0x1_0000_0000,
            row_id_of(prefix, j) == (prefix % 0x1_0000_0000) * 0x1_0000_0000 + j % 0x1_0000_0000,
    ;
}

/// When the meta lists the offsets of the rows read, the `_row_id` column
/// holds one id per offset, in order, whatever the number of rows given:
/// id `j` names the block's segment and block, and the offset `offsets[j]`
/// (its low 32 bits).
pub proof fn lemma_row_ids_follow_offsets(meta: RowIdMetaView, num_rows: nat, j: int)
    requires
        meta.offsets is Some,
        0 <= j < meta.offsets->Some_0.len(),
    ensures
        ({
            let offsets = meta.offsets->Some_0;
            let ids = row_ids_of(meta, num_rows);
            let id = ids[j] as int;
            let prefix = id / prefix_space();
            &&& ids.len() == offsets.len()
            &&& id % prefix_space() == offsets[j] as int % prefix_space()
            &&& reversed_segment(prefix / block_id_space()) == meta.segment_idx as int
                % segment_id_space()
            &&& prefix % block_id_space() == meta.block_id as int % block_id_space()
        }),
{
    let offsets = meta.offsets->Some_0;
    let seg = meta.segment_idx as u64;
    let blk = meta.block_id as u64;
    let prefix = row_id_prefix_of(seg as int, blk as int);
    let o = offsets[j] as int % prefix_space();
    lemma_prefix_fits(seg, blk);
    lemma_split_prefix_of_compute(seg, blk);
    assert(row_id_of(prefix, offsets[j] as int) == prefix * prefix_space() + o) by {
        vstd::arithmetic::div_mod::lemma_small_mod(prefix as nat, prefix_space() as nat);
    }
    assert(0 <= o < prefix_space());
    assert(prefix * prefix_space() + o < 0x1_0000_0000_0000_0000) by (nonlinear_arith)
        requires
            0 <= prefix < 0x1_0000_0000,
            0 <= o < 0x1_0000_0000,
    ;
    assert(row_ids_of(meta, num_rows)[j] as int == prefix * prefix_space() + o);
    vstd::arithmetic::div_mod::lemma_fundamental_div_mod_converse(
        prefix * prefix_space() + o,
        prefix_space(),
        prefix,
        o,
    );
}

/// A string entry holding `location` for every row.
fn location_entry(location: &str) -> (e: BlockEntry)
    ensures
        e.data_type == DataType::String,
        e.value matches Value::Scalar(Scalar::String(s)) && s@ == location@,
{
    BlockEntry::new(DataType::String, Value::Scalar(Scalar::String(location.to_owned())))
}

} // verus!
