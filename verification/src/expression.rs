//! The values that the library's logic reads of the engine's expression layer:
//! data types, scalars, columns, block entries, blocks and schemas.
use vstd::prelude::*;
use crate::error::ErrorCode;

verus! {

/// Identifier of a column of a table.
pub type ColumnId = u32;

/// Position of a field in a schema.
pub type FieldIndex = usize;

/// Column id of the internal `_row_id` column.
pub const ROW_ID_COLUMN_ID: ColumnId = 0xFFFF_FFFF;

/// Column id of the internal `_block_name` column.
pub const BLOCK_NAME_COLUMN_ID: ColumnId = 0xFFFF_FFFE;

/// Column id of the internal `_segment_name` column.
pub const SEGMENT_NAME_COLUMN_ID: ColumnId = 0xFFFF_FFFD;

/// Column id of the internal `_snapshot_name` column.
pub const SNAPSHOT_NAME_COLUMN_ID: ColumnId = 0xFFFF_FFFC;

/// Integer types.
#[derive(Clone, Copy, Debug, PartialEq, Eq, Structural)]
pub enum NumberDataType {
    UInt8,
    UInt16,
    UInt32,
    UInt64,
    Int8,
    Int16,
    Int32,
    Int64,
}

/// Type of a column as stored in a table.
#[derive(Clone, Copy, Debug, PartialEq, Eq, Structural)]
pub enum TableDataType {
    Null,
    Boolean,
    String,
    Number(NumberDataType),
}

/// Type of a value during execution.
#[derive(Clone, Copy, Debug, PartialEq, Eq, Structural)]
pub enum DataType {
    Null,
    Boolean,
    String,
    Number(NumberDataType),
}

/// The execution type that a table type is read as.
pub open spec fn data_type_of(t: TableDataType) -> DataType {
    match t {
        TableDataType::Null => DataType::Null,
        TableDataType::Boolean => DataType::Boolean,
        TableDataType::String => DataType::String,
        TableDataType::Number(n) => DataType::Number(n),
    }
}

impl DataType {
    /// The execution type that the table type `t` is read as.
    pub fn from_table_data_type(t: &TableDataType) -> (d: DataType)
        ensures
            d == data_type_of(*t),
    {
        match t {
            TableDataType::Null => DataType::Null,
            TableDataType::Boolean => DataType::Boolean,
            TableDataType::String => DataType::String,
            TableDataType::Number(n) => DataType::Number(*n),
        }
    }
}

/// A single value.
#[derive(Clone, Debug, PartialEq, Eq)]
pub enum Scalar {
    Null,
    Boolean(bool),
    String(String),
    UInt64(u64),
    Int32(i32),
}

/// A column of values of one type.
#[derive(Clone, Debug, PartialEq, Eq)]
pub enum Column {
    UInt64(Vec<u64>),
    String(Vec<String>),
    Boolean(Vec<bool>),
}

/// The value of a block entry: one scalar for every row, or a column.
#[derive(Clone, Debug, PartialEq, Eq)]
pub enum Value {
    Scalar(Scalar),
    Column(Column),
}

/// One column of a data block: its type and its value.
#[derive(Clone, Debug, PartialEq, Eq)]
pub struct BlockEntry {
    pub data_type: DataType,
    pub value: Value,
}

impl BlockEntry {
    /// An entry of type `data_type` holding `value`.
    pub fn new(data_type: DataType, value: Value) -> (e: BlockEntry)
        ensures
            e.data_type == data_type,
            e.value == value,
    {
        BlockEntry { data_type, value }
    }
}

/// Where a block of a table sits: its segment and its position in it.
#[derive(Clone, Copy, Debug, PartialEq, Eq, Structural)]
pub struct BlockMetaIndex {
    pub segment_idx: usize,
    pub block_idx: usize,
}

/// What a block of row ids is for.
#[derive(Clone, Copy, Debug, PartialEq, Eq, Structural)]
pub enum RowIdKind {
    Update,
    Delete,
}

/// The meta attached to a data block.
#[derive(Clone, Copy, Debug, PartialEq, Eq, Structural)]
pub enum BlockMeta {
    /// The block is (part of) the stored block at this index.
    BlockIndex(BlockMetaIndex),
    /// The block holds the row ids of rows to update or to delete.
    RowIdKind(RowIdKind),
    /// A meta of another kind.
    Other,
}

/// A block of rows: its columns, how many rows it holds, and its meta.
#[derive(Clone, Debug, PartialEq, Eq)]
pub struct DataBlock {
    pub columns: Vec<BlockEntry>,
    pub num_rows: usize,
    pub meta: Option<BlockMeta>,
}

impl DataBlock {
    /// A block with no column and no row, carrying `meta`.
    pub fn empty_with_meta(meta: BlockMeta) -> (b: DataBlock)
        ensures
            b.columns@.len() == 0,
            b.num_rows == 0,
            b.meta == Some(meta),
    {
        DataBlock { columns: Vec::new(), num_rows: 0, meta: Some(meta) }
    }

    /// Whether the block holds no row.
    pub fn is_empty(&self) -> (r: bool)
        ensures
            r == (self.num_rows == 0),
    {
        self.num_rows == 0
    }
}

/// A named, typed field of a schema.
#[derive(Clone, Debug, PartialEq, Eq)]
pub struct DataField {
    pub name: String,
    pub data_type: DataType,
}

impl DataField {
    /// The field `name` of type `data_type`.
    pub fn new(name: &str, data_type: DataType) -> (f: DataField)
        ensures
            f.name@ == name@,
            f.data_type == data_type,
    {
        DataField { name: name.to_owned(), data_type }
    }
}

/// An ordered list of fields.
#[derive(Clone, Debug, PartialEq, Eq)]
pub struct DataSchema {
    pub fields: Vec<DataField>,
}


/// The mathematical value of a [`Scalar`].
pub enum ScalarView {
    Null,
    Boolean(bool),
    String(Seq<char>),
    UInt64(u64),
    Int32(i32),
}

/// The mathematical value of a [`Column`].
pub enum ColumnView {
    UInt64(Seq<u64>),
    String(Seq<Seq<char>>),
    Boolean(Seq<bool>),
}

/// The mathematical value of a [`Value`].
pub enum ValueView {
    Scalar(ScalarView),
    Column(ColumnView),
}

/// The mathematical value of a [`BlockEntry`].
pub struct BlockEntryView {
    pub data_type: DataType,
    pub value: ValueView,
}

/// The mathematical value of a [`DataBlock`].
pub struct DataBlockView {
    pub columns: Seq<BlockEntryView>,
    pub num_rows: usize,
    pub meta: Option<BlockMeta>,
}

impl View for Scalar {
    type V = ScalarView;

    open spec fn view(&self) -> ScalarView {
        match self {
            Scalar::Null => ScalarView::Null,
            Scalar::Boolean(b) => ScalarView::Boolean(*b),
            Scalar::String(s) => ScalarView::String(s@),
            Scalar::UInt64(n) => ScalarView::UInt64(*n),
            Scalar::Int32(n) => ScalarView::Int32(*n),
        }
    }
}

impl View for Column {
    type V = ColumnView;

    open spec fn view(&self) -> ColumnView {
        match self {
            Column::UInt64(v) => ColumnView::UInt64(v@),
            Column::String(v) => ColumnView::String(v@.map_values(|s: String| s@)),
            Column::Boolean(v) => ColumnView::Boolean(v@),
        }
    }
}

impl View for Value {
    type V = ValueView;

    open spec fn view(&self) -> ValueView {
        match self {
            Value::Scalar(s) => ValueView::Scalar(s@),
            Value::Column(c) => ValueView::Column(c@),
        }
    }
}

impl View for BlockEntry {
    type V = BlockEntryView;

    open spec fn view(&self) -> BlockEntryView {
        BlockEntryView { data_type: self.data_type, value: self.value@ }
    }
}

impl View for DataBlock {
    type V = DataBlockView;

    open spec fn view(&self) -> DataBlockView {
        DataBlockView {
            columns: self.columns@.map_values(|e: BlockEntry| e@),
            num_rows: self.num_rows,
            meta: self.meta,
        }
    }
}

/// The number of values of a column.
pub open spec fn column_len(c: ColumnView) -> nat {
    match c {
        ColumnView::UInt64(v) => v.len(),
        ColumnView::String(v) => v.len(),
        ColumnView::Boolean(v) => v.len(),
    }
}

/// The value of row `i`: the scalar itself, or the column's `i`-th value.
pub open spec fn value_at(v: ValueView, i: int) -> ScalarView {
    match v {
        ValueView::Scalar(s) => s,
        ValueView::Column(ColumnView::UInt64(xs)) => ScalarView::UInt64(xs[i]),
        ValueView::Column(ColumnView::String(xs)) => ScalarView::String(xs[i]),
        ValueView::Column(ColumnView::Boolean(xs)) => ScalarView::Boolean(xs[i]),
    }
}

/// Whether every column of the block holds one value per row (a scalar holds
/// one for every row).
pub open spec fn block_well_formed(b: DataBlockView) -> bool {
    forall|k: int|
        0 <= k < b.columns.len() ==> match (#[trigger] b.columns[k]).value {
            ValueView::Scalar(_) => true,
            ValueView::Column(c) => column_len(c) == b.num_rows,
        }
}

impl Scalar {
    /// A copy of the scalar.
    pub fn clone_scalar(&self) -> (r: Scalar)
        ensures
            r@ == self@,
    {
        match self {
            Scalar::Null => Scalar::Null,
            Scalar::Boolean(b) => Scalar::Boolean(*b),
            Scalar::String(s) => Scalar::String(s.clone()),
            Scalar::UInt64(n) => Scalar::UInt64(*n),
            Scalar::Int32(n) => Scalar::Int32(*n),
        }
    }
}

impl Value {
    /// The value of row `i`.
    pub fn index(&self, i: usize) -> (r: Scalar)
        requires
            self@ matches ValueView::Column(c) ==> i < column_len(c),
        ensures
            r@ == value_at(self@, i as int),
    {
        match self {
            Value::Scalar(s) => s.clone_scalar(),
            Value::Column(Column::UInt64(xs)) => Scalar::UInt64(xs[i]),
            Value::Column(Column::String(xs)) => Scalar::String(xs[i].clone()),
            Value::Column(Column::Boolean(xs)) => Scalar::Boolean(xs[i]),
        }
    }
}

fn clone_strings(v: &Vec<String>) -> (r: Vec<String>)
    ensures
        r@.map_values(|s: String| s@) == v@.map_values(|s: String| s@),
{
    let mut r: Vec<String> = Vec::new();
    let mut i: usize = 0;
    while i < v.len()
        invariant
            i <= v@.len(),
            r@.len() == i,
            forall|j: int| 0 <= j < i ==> r@[j]@ == v@[j]@,
        decreases v@.len() - i,
    {
        r.push(v[i].clone());
        i = i + 1;
    }
    assert(r@.map_values(|s: String| s@) =~= v@.map_values(|s: String| s@));
    r
}

fn clone_copies<T: Copy>(v: &Vec<T>) -> (r: Vec<T>)
    ensures
        r@ == v@,
{
    let mut r: Vec<T> = Vec::new();
    let mut i: usize = 0;
    while i < v.len()
        invariant
            i <= v@.len(),
            r@ == v@.take(i as int),
        decreases v@.len() - i,
    {
        r.push(v[i]);
        assert(v@.take(i + 1) =~= v@.take(i as int).push(v@[i as int]));
        i = i + 1;
    }
    assert(v@.take(i as int) =~= v@);
    r
}

impl BlockEntry {
    /// A copy of the entry.
    pub fn clone_entry(&self) -> (r: BlockEntry)
        ensures
            r@ == self@,
    {
        let value = match &self.value {
            Value::Scalar(s) => Value::Scalar(s.clone_scalar()),
            Value::Column(Column::UInt64(xs)) => Value::Column(Column::UInt64(clone_copies(xs))),
            Value::Column(Column::String(xs)) => Value::Column(Column::String(clone_strings(xs))),
            Value::Column(Column::Boolean(xs)) => Value::Column(Column::Boolean(clone_copies(xs))),
        };
        BlockEntry { data_type: self.data_type, value }
    }
}

impl DataBlock {
    /// A copy of the block.
    pub fn clone_block(&self) -> (r: DataBlock)
        ensures
            r@ == self@,
    {
        let mut columns: Vec<BlockEntry> = Vec::new();
        let mut i: usize = 0;
        while i < self.columns.len()
            invariant
                i <= self.columns@.len(),
                columns@.len() == i,
                forall|j: int| 0 <= j < i ==> columns@[j]@ == self.columns@[j]@,
            decreases self.columns@.len() - i,
        {
            columns.push(self.columns[i].clone_entry());
            i = i + 1;
        }
        let r = DataBlock { columns, num_rows: self.num_rows, meta: self.meta };
        assert(r@.columns =~= self@.columns);
        r
    }

    /// Appends the column `entry`.
    pub fn add_column(&mut self, entry: BlockEntry)
        ensures
            final(self)@ == (DataBlockView {
                columns: old(self)@.columns.push(entry@),
                ..old(self)@
            }),
    {
        self.columns.push(entry);
        assert(self@.columns =~= old(self)@.columns.push(entry@));
    }
}


/// The values of `s` at the positions where `keep` is true, in order.
pub open spec fn filter_seq<T>(s: Seq<T>, keep: Seq<bool>) -> Seq<T>
    decreases s.len(),
{
    if s.len() == 0 {
        Seq::empty()
    } else {
        let n = s.len() - 1;
        let earlier = filter_seq(s.take(n as int), keep);
        if keep[n as int] {
            earlier.push(s[n as int])
        } else {
            earlier
        }
    }
}

/// The column `c` keeping the rows where `keep` is true.
pub open spec fn filtered_column(c: ColumnView, keep: Seq<bool>) -> ColumnView {
    match c {
        ColumnView::UInt64(v) => ColumnView::UInt64(filter_seq(v, keep)),
        ColumnView::String(v) => ColumnView::String(filter_seq(v, keep)),
        ColumnView::Boolean(v) => ColumnView::Boolean(filter_seq(v, keep)),
    }
}

/// The entry `e` keeping the rows where `keep` is true (a scalar stays as it is).
pub open spec fn filtered_entry(e: BlockEntryView, keep: Seq<bool>) -> BlockEntryView {
    match e.value {
        ValueView::Scalar(_) => e,
        ValueView::Column(c) => BlockEntryView {
            data_type: e.data_type,
            value: ValueView::Column(filtered_column(c, keep)),
        },
    }
}

/// The block `b` keeping the rows where `keep` is true.
pub open spec fn filtered_block(b: DataBlockView, keep: Seq<bool>) -> DataBlockView {
    DataBlockView {
        columns: b.columns.map_values(|e: BlockEntryView| filtered_entry(e, keep)),
        num_rows: filter_seq(keep, keep).len() as usize,
        meta: b.meta,
    }
}

/// The rows a boolean filter keeps in a block of `n` rows: all or none for a
/// scalar, the column's values for a column.
pub open spec fn filter_keep(filter: ValueView, n: nat) -> Seq<bool> {
    match filter {
        ValueView::Column(ColumnView::Boolean(bits)) => bits,
        ValueView::Scalar(ScalarView::Boolean(b)) => Seq::new(n, |_i: int| b),
        _ => Seq::new(n, |_i: int| false),
    }
}

/// Whether `v` is a boolean filter for a block of `n` rows.
pub open spec fn is_boolean_filter(v: ValueView, n: nat) -> bool {
    match v {
        ValueView::Scalar(ScalarView::Boolean(_)) => true,
        ValueView::Column(ColumnView::Boolean(bits)) => bits.len() == n,
        _ => false,
    }
}

proof fn lemma_filter_seq_len<T>(s: Seq<T>, keep: Seq<bool>)
    ensures
        filter_seq(s, keep).len() <= s.len(),
    decreases s.len(),
{
    if s.len() > 0 {
        lemma_filter_seq_len(s.take(s.len() - 1), keep);
    }
}

fn filter_copies<T: Copy>(v: &Vec<T>, keep: &Vec<bool>) -> (r: Vec<T>)
    requires
        v@.len() == keep@.len(),
    ensures
        r@ == filter_seq(v@, keep@),
{
    let mut r: Vec<T> = Vec::new();
    let mut i: usize = 0;
    while i < v.len()
        invariant
            v@.len() == keep@.len(),
            i <= v@.len(),
            r@ == filter_seq(v@.take(i as int), keep@),
        decreases v@.len() - i,
    {
        assert(v@.take(i + 1).take(i as int) =~= v@.take(i as int));
        if keep[i] {
            r.push(v[i]);
        }
        i = i + 1;
    }
    assert(v@.take(i as int) =~= v@);
    r
}

fn filter_strings(v: &Vec<String>, keep: &Vec<bool>) -> (r: Vec<String>)
    requires
        v@.len() == keep@.len(),
    ensures
        r@.map_values(|s: String| s@) == filter_seq(v@.map_values(|s: String| s@), keep@),
{
    let ghost w = v@.map_values(|s: String| s@);
    let mut r: Vec<String> = Vec::new();
    let mut i: usize = 0;
    while i < v.len()
        invariant
            v@.len() == keep@.len(),
            w == v@.map_values(|s: String| s@),
            i <= v@.len(),
            r@.map_values(|s: String| s@) == filter_seq(w.take(i as int), keep@),
        decreases v@.len() - i,
    {
        assert(w.take(i + 1).take(i as int) =~= w.take(i as int));
        if keep[i] {
            let ghost before = r@;
            r.push(v[i].clone());
            assert(r@.map_values(|s: String| s@) =~= before.map_values(|s: String| s@).push(
                w[i as int],
            ));
        }
        i = i + 1;
    }
    assert(w.take(i as int) =~= w);
    r
}

impl BlockEntry {
    /// The entry keeping the rows where `keep` is true.
    pub fn filter(&self, keep: &Vec<bool>) -> (r: BlockEntry)
        requires
            self@.value matches ValueView::Column(c) ==> column_len(c) == keep@.len(),
        ensures
            r@ == filtered_entry(self@, keep@),
    {
        let value = match &self.value {
            Value::Scalar(s) => Value::Scalar(s.clone_scalar()),
            Value::Column(Column::UInt64(xs)) => Value::Column(Column::UInt64(filter_copies(xs, keep))),
            Value::Column(Column::String(xs)) => Value::Column(Column::String(filter_strings(xs, keep))),
            Value::Column(Column::Boolean(xs)) => Value::Column(Column::Boolean(filter_copies(xs, keep))),
        };
        BlockEntry { data_type: self.data_type, value }
    }
}

impl DataBlock {
    /// The block keeping the rows where `keep` is true.
    pub fn filter_rows(&self, keep: &Vec<bool>) -> (r: DataBlock)
        requires
            block_well_formed(self@),
            keep@.len() == self.num_rows,
        ensures
            r@ == filtered_block(self@, keep@),
            block_well_formed(r@),
    {
        let mut columns: Vec<BlockEntry> = Vec::new();
        let mut i: usize = 0;
        while i < self.columns.len()
            invariant
                block_well_formed(self@),
                keep@.len() == self.num_rows,
                i <= self.columns@.len(),
                columns@.len() == i,
                forall|j: int|
                    0 <= j < i ==> columns@[j]@ == filtered_entry(self@.columns[j], keep@),
            decreases self.columns@.len() - i,
        {
            assert(self@.columns[i as int] == self.columns@[i as int]@);
            columns.push(self.columns[i].filter(keep));
            i = i + 1;
        }
        let kept = filter_copies(keep, keep);
        proof {
            lemma_filter_seq_len(keep@, keep@);
        }
        let r = DataBlock { columns, num_rows: kept.len(), meta: self.meta };
        assert(r@.columns =~= filtered_block(self@, keep@).columns);
        assert forall|k: int| 0 <= k < r@.columns.len() implies match (#[trigger] r@.columns[k]).value {
            ValueView::Scalar(_) => true,
            ValueView::Column(c) => column_len(c) == r@.num_rows,
        } by {
            let e = self@.columns[k];
            match e.value {
                ValueView::Column(c) => {
                    match c {
                        ColumnView::UInt64(v) => lemma_filter_same_len(v, keep@),
                        ColumnView::String(v) => lemma_filter_same_len(v, keep@),
                        ColumnView::Boolean(v) => lemma_filter_same_len(v, keep@),
                    }
                },
                _ => {},
            }
        }
        r
    }

    /// The block keeping the rows that the boolean `filter` selects.
    pub fn filter_boolean_value(&self, filter: &Value) -> (r: DataBlock)
        requires
            block_well_formed(self@),
            is_boolean_filter(filter@, self.num_rows as nat),
        ensures
            r@ == filtered_block(self@, filter_keep(filter@, self.num_rows as nat)),
            block_well_formed(r@),
    {
        let keep = match filter {
            Value::Column(Column::Boolean(bits)) => clone_copies(bits),
            Value::Scalar(Scalar::Boolean(b)) => {
                let mut v: Vec<bool> = Vec::new();
                let mut i: usize = 0;
                while i < self.num_rows
                    invariant
                        i <= self.num_rows,
                        v@ == Seq::new(i as nat, |_i: int| *b),
                    decreases self.num_rows - i,
                {
                    v.push(*b);
                    assert(v@ =~= Seq::new((i + 1) as nat, |_i: int| *b));
                    i = i + 1;
                }
                v
            },
            _ => Vec::new(),
        };
        assert(keep@ =~= filter_keep(filter@, self.num_rows as nat));
        self.filter_rows(&keep)
    }

    /// The block whose columns are those of `self` at the positions
    /// `projection`, in that order, with no meta.
    pub fn project_columns(&self, projection: &Vec<usize>) -> (r: DataBlock)
        requires
            forall|i: int| 0 <= i < projection@.len() ==> #[trigger] projection@[i] < self.columns@.len(),
        ensures
            r@ == (DataBlockView {
                columns: projection@.map_values(|k: usize| self@.columns[k as int]),
                num_rows: self.num_rows,
                meta: None,
            }),
    {
        let mut columns: Vec<BlockEntry> = Vec::new();
        let mut i: usize = 0;
        while i < projection.len()
            invariant
                forall|i: int| 0 <= i < projection@.len() ==> #[trigger] projection@[i] < self.columns@.len(),
                i <= projection@.len(),
                columns@.len() == i,
                forall|j: int|
                    0 <= j < i ==> columns@[j]@ == self@.columns[projection@[j] as int],
            decreases projection@.len() - i,
        {
            let k = projection[i];
            assert(k < self.columns@.len());
            assert(self@.columns[k as int] == self.columns@[k as int]@);
            columns.push(self.columns[k].clone_entry());
            i = i + 1;
        }
        let r = DataBlock { columns, num_rows: self.num_rows, meta: None };
        assert(r@.columns =~= projection@.map_values(|k: usize| self@.columns[k as int]));
        r
    }

    /// The block with `meta` attached; an internal error when it already has one.
    pub fn add_meta(self, meta: Option<BlockMeta>) -> (r: Result<DataBlock, ErrorCode>)
        ensures
            self.meta is Some ==> (r matches Err(ErrorCode::Internal(m))
                && m@ == "Internal error, block meta data is already set."@),
            self.meta is None ==> (r matches Ok(b) && b@ == (DataBlockView { meta, ..self@ })),
    {
        proof {
            reveal_strlit("Internal error, block meta data is already set.");
        }
        if self.meta.is_some() {
            return Err(
                ErrorCode::Internal("Internal error, block meta data is already set.".to_owned()),
            );
        }
        Ok(DataBlock { columns: self.columns, num_rows: self.num_rows, meta })
    }
}

/// Filtering a sequence as long as the filter keeps as many values as the
/// filter keeps of itself.
proof fn lemma_filter_same_len<T>(s: Seq<T>, keep: Seq<bool>)
    requires
        s.len() == keep.len(),
    ensures
        filter_seq(s, keep).len() == filter_seq(keep, keep).len(),
    decreases s.len(),
{
    if s.len() > 0 {
        let n = s.len() - 1;
        lemma_filter_same_len(s.take(n as int), keep.take(n as int));
        lemma_filter_prefix_keep(s.take(n as int), keep, n as int);
        lemma_filter_prefix_keep(keep.take(n as int), keep, n as int);
        assert(keep.take(n as int) == keep.take(n as int));
    }
}

/// Filtering depends only on the filter's first `n` values for a sequence of length `n`.
proof fn lemma_filter_prefix_keep<T>(s: Seq<T>, keep: Seq<bool>, n: int)
    requires
        s.len() == n,
        n <= keep.len(),
    ensures
        filter_seq(s, keep) == filter_seq(s, keep.take(n)),
    decreases s.len(),
{
    if s.len() > 0 {
        lemma_filter_prefix_keep(s.take(n - 1), keep, n - 1);
        lemma_filter_prefix_keep(s.take(n - 1), keep.take(n), n - 1);
        assert(keep.take(n).take(n - 1) =~= keep.take(n - 1));
    }
}

} // verus!
