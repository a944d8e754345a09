//! The cross join of a hash join's probe side with its build side.
use std::collections::HashSet;
use vstd::prelude::*;
use crate::error::ErrorCode;
use crate::expression::{
    BlockEntry, BlockEntryView, DataBlock, DataBlockView, Value, ValueView, ColumnView,
    block_well_formed, column_len, value_at,
};

verus! {

/// The columns of `columns` among the first `n` whose position is in
/// `projections`, in order.
pub open spec fn projected_columns(columns: Seq<BlockEntryView>, projections: Set<usize>, n: int) -> Seq<
    BlockEntryView,
>
    decreases n,
{
    if n <= 0 {
        Seq::empty()
    } else {
        let earlier = projected_columns(columns, projections, n - 1);
        if projections.contains((n - 1) as usize) {
            earlier.push(columns[n - 1])
        } else {
            earlier
        }
    }
}

/// The block `b` keeping only the columns whose position is in `projections`.
pub open spec fn projected(b: DataBlockView, projections: Set<usize>) -> DataBlockView {
    DataBlockView {
        columns: projected_columns(b.columns, projections, b.columns.len() as int),
        ..b
    }
}

impl DataBlock {
    /// The block keeping only the columns whose position is in `projections`,
    /// in their order.
    pub fn project(self, projections: &HashSet<usize>) -> (r: DataBlock)
        ensures
            r@ == projected(self@, projections@),
    {
        broadcast use vstd::std_specs::hash::group_hash_axioms;
        let mut columns: Vec<BlockEntry> = Vec::new();
        let mut index: usize = 0;
        while index < self.columns.len()
            invariant
                index <= self.columns@.len(),
                columns@.map_values(|e: BlockEntry| e@) == projected_columns(
                    self@.columns,
                    projections@,
                    index as int,
                ),
            decreases self.columns@.len() - index,
        {
            if projections.contains(&index) {
                let ghost before = columns@;
                columns.push(self.columns[index].clone_entry());
                assert(columns@.map_values(|e: BlockEntry| e@) =~= before.map_values(
                    |e: BlockEntry| e@,
                ).push(self@.columns[index as int]));
            }
            index = index + 1;
        }
        let r = DataBlock { columns, num_rows: self.num_rows, meta: self.meta };
        r
    }
}

/// The build block's row `i` as one scalar entry per build column.
pub open spec fn constant_entries(build: DataBlockView, i: int) -> Seq<BlockEntryView> {
    build.columns.map_values(
        |e: BlockEntryView|
            BlockEntryView { data_type: e.data_type, value: ValueView::Scalar(value_at(e.value, i)) },
    )
}

/// The probe block with the build block's row `i` appended as constant columns.
pub open spec fn merged_with_row(probe: DataBlockView, build: DataBlockView, i: int) -> DataBlockView {
    DataBlockView { columns: probe.columns + constant_entries(build, i), ..probe }
}

/// Merging a build row into a probe block keeps the probe's columns, rows
/// and meta, then appends one constant column per build column, in the build
/// columns' order: appended column `k` has the type of build column `k` and
/// its value at row `i`.
pub proof fn lemma_merged_row_columns(probe: DataBlockView, build: DataBlockView, i: int)
    ensures
        ({
            let m = merged_with_row(probe, build, i);
            &&& m.columns.len() == probe.columns.len() + build.columns.len()
            &&& m.num_rows == probe.num_rows
            &&& m.meta == probe.meta
            &&& forall|k: int| 0 <= k < probe.columns.len() ==> #[trigger] m.columns[k] == probe.columns[k]
            &&& forall|k: int|
                0 <= k < build.columns.len() ==> #[trigger] m.columns[probe.columns.len() + k]
                    == (BlockEntryView {
                    data_type: build.columns[k].data_type,
                    value: ValueView::Scalar(value_at(build.columns[k].value, i)),
                })
        }),
{
    let m = merged_with_row(probe, build, i);
    assert forall|k: int| 0 <= k < build.columns.len() implies #[trigger] m.columns[probe.columns.len() + k]
        == (BlockEntryView {
        data_type: build.columns[k].data_type,
        value: ValueView::Scalar(value_at(build.columns[k].value, i)),
    }) by {
        assert(m.columns[probe.columns.len() + k] == constant_entries(build, i)[k]);
    }
}

/// The total number of rows of `blocks`.
pub open spec fn total_rows(blocks: Seq<DataBlock>) -> int
    decreases blocks.len(),
{
    if blocks.len() == 0 {
        0
    } else {
        total_rows(blocks.drop_last()) + blocks.last().num_rows
    }
}

/// What a hash join's probe reads of its state for a cross join: the probe
/// columns to keep.
#[derive(Debug)]
pub struct HashJoinProbeState {
    pub probe_projections: HashSet<usize>,
}

/// Appends row `take_index` of `build_block` to `probe_block` as constant columns.
fn append_constant_row(probe_block: &mut DataBlock, build_block: &DataBlock, take_index: usize)
    requires
        block_well_formed(build_block@),
        take_index < build_block.num_rows,
    ensures
        final(probe_block)@ == merged_with_row(old(probe_block)@, build_block@, take_index as int),
{
    let ghost probe_view = probe_block@;
    let mut k: usize = 0;
    while k < build_block.columns.len()
        invariant
            block_well_formed(build_block@),
            take_index < build_block.num_rows,
            k <= build_block.columns@.len(),
            probe_block@ == (DataBlockView {
                columns: probe_view.columns + constant_entries(build_block@, take_index as int).take(
                    k as int,
                ),
                ..probe_view
            }),
        decreases build_block.columns@.len() - k,
    {
        let col = &build_block.columns[k];
        assert(build_block@.columns[k as int] == col@);
        let scalar = col.value.index(take_index);
        probe_block.add_column(BlockEntry::new(col.data_type, Value::Scalar(scalar)));
        assert(constant_entries(build_block@, take_index as int).take(k + 1) =~= constant_entries(
            build_block@,
            take_index as int,
        ).take(k as int).push(constant_entries(build_block@, take_index as int)[k as int]));
        assert(probe_block@.columns =~= probe_view.columns + constant_entries(
            build_block@,
            take_index as int,
        ).take(k + 1));
        k = k + 1;
    }
    assert(constant_entries(build_block@, take_index as int).take(k as int) =~= constant_entries(
        build_block@,
        take_index as int,
    ));
}

impl HashJoinProbeState {
    /// The probe block with row `take_index` of the build block appended as
    /// constant columns.
    pub fn merge_with_constant_block(
        &self,
        build_block: &DataBlock,
        probe_block: &DataBlock,
        take_index: usize,
    ) -> (r: Result<DataBlock, ErrorCode>)
        requires
            block_well_formed(build_block@),
            take_index < build_block.num_rows,
        ensures
            r matches Ok(b) && b@ == merged_with_row(probe_block@, build_block@, take_index as int),
    {
        let mut probe_block = probe_block.clone_block();
        append_constant_row(&mut probe_block, build_block, take_index);
        Ok(probe_block)
    }
}


/// Whether `whole` holds the rows of `parts` one after the other: the rows
/// of part `b` start at the total rows of the parts before it, and each of
/// its columns has the type and the values of the same column of `whole`.
pub open spec fn is_concatenation(whole: DataBlockView, parts: Seq<DataBlock>) -> bool {
    &&& whole.num_rows == total_rows(parts)
    &&& forall|b: int|
        0 <= b < parts.len() ==> (#[trigger] parts[b])@.columns.len() == whole.columns.len()
    &&& forall|b: int, k: int|
        0 <= b < parts.len() && 0 <= k < whole.columns.len() ==> (#[trigger] parts[b]@.columns[k]).data_type
            == whole.columns[k].data_type
    &&& forall|b: int, k: int, r: int|
        0 <= b < parts.len() && 0 <= k < whole.columns.len() && 0 <= r < parts[b].num_rows
            ==> #[trigger] value_at(parts[b]@.columns[k].value, r) == value_at(
            whole.columns[k].value,
            total_rows(parts.take(b)) + r,
        )
}

/// The cross join of the probe block `probe` with the `n` rows of `build`:
/// one block per build row.
pub open spec fn cross_joined(probe: DataBlockView, build: DataBlockView, n: int) -> Seq<DataBlockView> {
    Seq::new(n as nat, |i: int| merged_with_row(probe, build, i))
}

impl HashJoinProbeState {
    /// The cross join of `input` with the build side's blocks `build_blocks`:
    /// for each build row, the input's projected columns with that row's
    /// values appended as constant columns; nothing when either side has no
    /// row.  `build_block` is the concatenation of `build_blocks` (or the
    /// error met making it), so row `i` of the build side is row `i` of it.
    pub fn cross_join(
        &self,
        input: DataBlock,
        build_blocks: &Vec<DataBlock>,
        build_block: Result<DataBlock, ErrorCode>,
    ) -> (r: Result<Vec<DataBlock>, ErrorCode>)
        requires
            total_rows(build_blocks@) <= usize::MAX,
            build_block matches Ok(b) ==> is_concatenation(b@, build_blocks@)
                && block_well_formed(b@),
        ensures
            ({
                let n = total_rows(build_blocks@);
                if n == 0 || input.num_rows == 0 {
                    r matches Ok(v) && v@.len() == 0
                } else {
                    match build_block {
                        Err(e) => r == Err::<Vec<DataBlock>, ErrorCode>(e),
                        Ok(b) => r matches Ok(v) && v@.map_values(|d: DataBlock| d@) == cross_joined(
                            projected(input@, self.probe_projections@),
                            b@,
                            n,
                        ),
                    }
                }
            }),
    {
        let mut build_num_rows: usize = 0;
        let mut j: usize = 0;
        while j < build_blocks.len()
            invariant
                j <= build_blocks@.len(),
                total_rows(build_blocks@) <= usize::MAX,
                build_num_rows == total_rows(build_blocks@.take(j as int)),
            decreases build_blocks@.len() - j,
        {
            proof {
                assert(build_blocks@.take(j + 1).drop_last() =~= build_blocks@.take(j as int));
                lemma_total_rows_prefix(build_blocks@, j + 1);
            }
            build_num_rows = build_num_rows + build_blocks[j].num_rows;
            j = j + 1;
        }
        assert(build_blocks@.take(j as int) =~= build_blocks@);
        let input_num_rows = input.num_rows;
        if build_num_rows == 0 || input_num_rows == 0 {
            return Ok(Vec::new());
        }
        let mut probe_block = input.project(&self.probe_projections);
        let build_block = match build_block {
            Ok(b) => b,
            Err(e) => return Err(e),
        };
        if build_num_rows == 1 {
            append_constant_row(&mut probe_block, &build_block, 0);
            let mut result: Vec<DataBlock> = Vec::new();
            result.push(probe_block);
            assert(result@.map_values(|d: DataBlock| d@) =~= cross_joined(
                projected(input@, self.probe_projections@),
                build_block@,
                1,
            ));
            return Ok(result);
        }
        let mut result_blocks: Vec<DataBlock> = Vec::with_capacity(input_num_rows);
        let mut i: usize = 0;
        while i < build_num_rows
            invariant
                i <= build_num_rows,
                build_num_rows == build_block.num_rows,
                block_well_formed(build_block@),
                probe_block@ == projected(input@, self.probe_projections@),
                result_blocks@.map_values(|d: DataBlock| d@) == cross_joined(
                    probe_block@,
                    build_block@,
                    i as int,
                ),
            decreases build_num_rows - i,
        {
            let merged = self.merge_with_constant_block(&build_block, &probe_block, i);
            let block = match merged {
                Ok(b) => b,
                Err(e) => return Err(e),
            };
            let ghost before = result_blocks@;
            assert(block@ == merged_with_row(probe_block@, build_block@, i as int));
            assert(before.map_values(|d: DataBlock| d@).len() == i);
            assert(before.len() == i);
            result_blocks.push(block);
            assert forall|k: int| 0 <= k < i implies #[trigger] result_blocks@[k]@ == merged_with_row(
                probe_block@,
                build_block@,
                k,
            ) by {
                assert(result_blocks@[k] == before[k]);
                assert(before.map_values(|d: DataBlock| d@)[k] == cross_joined(
                    probe_block@,
                    build_block@,
                    i as int,
                )[k]);
            }
            assert(result_blocks@.map_values(|d: DataBlock| d@) =~= cross_joined(
                probe_block@,
                build_block@,
                i + 1,
            ));
            i = i + 1;
        }
        Ok(result_blocks)
    }
}

/// The rows of a prefix of blocks are at most the rows of all of them.
proof fn lemma_total_rows_prefix(blocks: Seq<DataBlock>, k: int)
    requires
        0 <= k <= blocks.len(),
    ensures
        total_rows(blocks.take(k)) <= total_rows(blocks),
        0 <= total_rows(blocks.take(k)),
    decreases blocks.len(),
{
    if blocks.len() == 0 {
        assert(blocks.take(k) =~= blocks);
    } else if k == blocks.len() {
        assert(blocks.take(k) =~= blocks);
        lemma_total_rows_nonnegative(blocks);
    } else {
        lemma_total_rows_prefix(blocks.drop_last(), k);
        assert(blocks.drop_last().take(k) =~= blocks.take(k));
    }
}

proof fn lemma_total_rows_nonnegative(blocks: Seq<DataBlock>)
    ensures
        0 <= total_rows(blocks),
    decreases blocks.len(),
{
    if blocks.len() > 0 {
        lemma_total_rows_nonnegative(blocks.drop_last());
    }
}

} // verus!
