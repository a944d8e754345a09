//! The processor that splits the output of a `MERGE INTO` join into the rows
//! to update, the rows to delete and the rows to insert.
//!
//! The processor is driven by the pipeline executor: [`MergeIntoSplitProcessor::event`]
//! decides, from the state of the ports, what to move where, and the executor
//! performs it.  [`MergeIntoSplitProcessor::process`] routes the block taken
//! from the input; the matched rows of a split block then go through the
//! clauses' mutators one after the other ([`MergeIntoSplitProcessor::apply_mutation_result`]),
//! which yields the blocks of row ids to delete, and the rows left are filtered,
//! projected on the target table's fields and cast to its types
//! ([`MergeIntoSplitProcessor::finish_update`]) to become the update block.
use std::collections::HashMap;
use std::sync::Arc;
use vstd::prelude::*;
use crate::error::ErrorCode;
use crate::expression::{
    BlockMeta, ColumnView, DataBlock, DataBlockView, DataSchema, DataType, FieldIndex, RowIdKind,
    ScalarView, ValueView, block_well_formed, filter_keep, filtered_block, is_boolean_filter,
};
use crate::merge_into::MergeIntoType;
use crate::scalar_expr::{ScalarExpr, ScalarExprView};

verus! {

/// What the executor does next with a processor.
#[derive(Clone, Copy, Debug, PartialEq, Eq, Structural)]
pub enum Event {
    NeedData,
    NeedConsume,
    Sync,
    Async,
    Finished,
}

/// The state of the processor's ports when the executor asks for an event.
#[derive(Clone, Copy, Debug, PartialEq, Eq, Structural)]
pub struct PortStatus {
    pub input_finished: bool,
    pub input_has_data: bool,
    pub update_can_push: bool,
    pub delete_can_push: bool,
    pub insert_can_push: bool,
}

/// What the executor does to the ports for an event.
#[derive(Debug)]
pub struct PortActions {
    /// Finish the three output ports.
    pub finish_outputs: bool,
    /// Push this block to the update port.
    pub push_update: Option<DataBlock>,
    /// Push this block to the delete port.
    pub push_delete: Option<DataBlock>,
    /// Push this block to the insert port.
    pub push_insert: Option<DataBlock>,
    /// Pull the input port's block and hand it to [`MergeIntoSplitProcessor::receive_input`].
    pub pull_input: bool,
    /// Ask the input port for data.
    pub set_need_data: bool,
}

/// A `WHEN MATCHED` clause as the split runs it: the rows it applies to (all
/// when there is no filter), and what it does to them.
#[derive(Debug)]
pub enum MutationOperation {
    /// Set the listed fields (by index in the target table) of the filtered rows.
    Update { filter: Option<ScalarExpr>, updates: Vec<(FieldIndex, ScalarExpr)> },
    /// Delete the filtered rows, known by their row ids in column `row_id_idx`.
    Delete { filter: Option<ScalarExpr>, row_id_idx: usize },
}

/// The mathematical value of a [`MutationOperation`].
pub enum MutationView {
    Update { filter: Option<ScalarExprView>, updates: Seq<(FieldIndex, ScalarExprView)> },
    Delete { filter: Option<ScalarExprView>, row_id_idx: usize },
}

/// The value of an optional filter.
pub open spec fn filter_view(f: Option<ScalarExpr>) -> Option<ScalarExprView> {
    match f {
        Some(e) => Some(e@),
        None => None,
    }
}

/// The value of an update list.
pub open spec fn updates_view(u: Seq<(FieldIndex, ScalarExpr)>) -> Seq<(FieldIndex, ScalarExprView)> {
    u.map_values(|p: (FieldIndex, ScalarExpr)| (p.0, p.1@))
}

impl View for MutationOperation {
    type V = MutationView;

    open spec fn view(&self) -> MutationView {
        match self {
            MutationOperation::Update { filter, updates } => MutationView::Update {
                filter: filter_view(*filter),
                updates: updates_view(updates@),
            },
            MutationOperation::Delete { filter, row_id_idx } => MutationView::Delete {
                filter: filter_view(*filter),
                row_id_idx: *row_id_idx,
            },
        }
    }
}

/// The `WHEN MATCHED` clauses of a statement: each an optional condition and,
/// for an update, the assignments by field index (none for a delete).
pub type MatchExpr = Vec<(Option<ScalarExpr>, Option<Vec<(FieldIndex, ScalarExpr)>>)>;

/// The operation the clause `item` runs: a delete by the row ids in column
/// `row_id_idx` when it has no assignment, else an update with its assignments;
/// either with the clause's condition as its filter.
pub open spec fn mutation_of(
    item: (Option<ScalarExpr>, Option<Vec<(FieldIndex, ScalarExpr)>>),
    row_id_idx: usize,
) -> MutationView {
    match item.1 {
        None => MutationView::Delete { filter: filter_view(item.0), row_id_idx },
        Some(u) => MutationView::Update { filter: filter_view(item.0), updates: updates_view(u@) },
    }
}

/// Whether `ops` are the operations of the clauses `match_expr`, in order.
pub open spec fn are_mutations_of(
    ops: Seq<MutationOperation>,
    match_expr: Seq<(Option<ScalarExpr>, Option<Vec<(FieldIndex, ScalarExpr)>>)>,
    row_id_idx: usize,
) -> bool {
    &&& ops.len() == match_expr.len()
    &&& forall|i: int| 0 <= i < ops.len() ==> #[trigger] ops[i]@ == mutation_of(match_expr[i], row_id_idx)
}

/// The operations built for the clauses keep, clause by clause and in order,
/// each clause's condition as their filter: a clause without assignments
/// deletes by the row ids in column `row_id_idx`, and a clause with
/// assignments updates exactly those fields with exactly those expressions.
pub proof fn lemma_operations_follow_clauses(
    ops: Seq<MutationOperation>,
    match_expr: Seq<(Option<ScalarExpr>, Option<Vec<(FieldIndex, ScalarExpr)>>)>,
    row_id_idx: usize,
    i: int,
)
    requires
        are_mutations_of(ops, match_expr, row_id_idx),
        0 <= i < match_expr.len(),
    ensures
        ops.len() == match_expr.len(),
        ({
            let clause = match_expr[i];
            let condition = match clause.0 {
                Some(e) => Some(e@),
                None => None,
            };
            match ops[i]@ {
                MutationView::Update { filter, updates } => {
                    &&& clause.1 is Some
                    &&& filter == condition
                    &&& updates.len() == clause.1->Some_0@.len()
                    &&& forall|k: int|
                        0 <= k < updates.len() ==> #[trigger] updates[k] == (
                            clause.1->Some_0@[k].0,
                            clause.1->Some_0@[k].1@,
                        )
                },
                MutationView::Delete { filter, row_id_idx: column } => {
                    &&& clause.1 is None
                    &&& filter == condition
                    &&& column == row_id_idx
                },
            }
        }),
{
    assert(ops[i]@ == mutation_of(match_expr[i], row_id_idx));
}

/// The settings functions are evaluated with.
#[derive(Clone, Debug)]
pub struct FunctionContext {
    pub tz: String,
    pub rounding_mode: bool,
}

/// Splits blocks of matched and unmatched rows into updates, deletes and inserts.
#[derive(Debug)]
pub struct MergeIntoSplitProcessor {
    pub split_idx: u32,
    pub input_data: Option<DataBlock>,
    pub output_data_update: Option<DataBlock>,
    /// Blocks of row ids to delete (and deletions of whole stored blocks),
    /// sent first in, first out.
    pub output_data_delete: Vec<DataBlock>,
    pub output_data_insert: Option<DataBlock>,
    /// The unmatched rows of the block being split: they go to the insert
    /// output once its matched rows are split without error, and are
    /// dropped when an error stops the split.
    pub pending_insert: Option<DataBlock>,
    pub merge_into_type: MergeIntoType,
    pub mutation_ops: Vec<MutationOperation>,
    /// The input column of each field of the target table, by field index.
    pub field_index_of_input_schema: HashMap<FieldIndex, usize>,
    pub update_projections: Vec<usize>,
    pub target_table_schema: Arc<DataSchema>,
}

/// Whether `m` maps every index below its size (the target table's fields).
pub open spec fn covers_field_indexes(m: Map<FieldIndex, usize>) -> bool {
    forall|i: FieldIndex| 0 <= i < m.len() ==> #[trigger] m.contains_key(i)
}

/// Whether the processor holds no block to send.
pub open spec fn outputs_empty(p: MergeIntoSplitProcessor) -> bool {
    p.output_data_update is None && p.output_data_delete@.len() == 0 && p.output_data_insert is None
}

/// Whether something is pushed at an event: an output port that can take a
/// block while the processor holds one for it.
pub open spec fn can_push_something(p: MergeIntoSplitProcessor, ports: PortStatus) -> bool {
    (ports.update_can_push && p.output_data_update is Some) || (ports.delete_can_push
        && p.output_data_delete@.len() > 0) || (ports.insert_can_push && p.output_data_insert is Some)
}

/// The insert output once a split ends without error: the unmatched rows
/// of the split block when there are any, else the insert output as it was.
pub open spec fn released_insert(p: MergeIntoSplitProcessor) -> Option<DataBlock> {
    if p.pending_insert is Some {
        p.pending_insert
    } else {
        p.output_data_insert
    }
}

/// Whether `p` and `q` have the same configuration (all but their buffers).
pub open spec fn same_config(p: MergeIntoSplitProcessor, q: MergeIntoSplitProcessor) -> bool {
    &&& p.split_idx == q.split_idx
    &&& p.merge_into_type == q.merge_into_type
    &&& p.mutation_ops == q.mutation_ops
    &&& p.field_index_of_input_schema == q.field_index_of_input_schema
    &&& p.update_projections == q.update_projections
    &&& p.target_table_schema == q.target_table_schema
}

fn clone_filter(f: &Option<ScalarExpr>) -> (r: Option<ScalarExpr>)
    ensures
        filter_view(r) == filter_view(*f),
{
    match f {
        Some(e) => Some(e.clone_expr()),
        None => None,
    }
}

fn clone_updates(u: &Vec<(FieldIndex, ScalarExpr)>) -> (r: Vec<(FieldIndex, ScalarExpr)>)
    ensures
        updates_view(r@) == updates_view(u@),
{
    let mut r: Vec<(FieldIndex, ScalarExpr)> = Vec::new();
    let mut i: usize = 0;
    while i < u.len()
        invariant
            i <= u@.len(),
            r@.len() == i,
            forall|j: int| 0 <= j < i ==> r@[j].0 == u@[j].0 && r@[j].1@ == u@[j].1@,
        decreases u@.len() - i,
    {
        let e = u[i].1.clone_expr();
        r.push((u[i].0, e));
        i = i + 1;
    }
    assert(updates_view(r@) =~= updates_view(u@));
    r
}

impl MergeIntoSplitProcessor {
    /// A processor for the clauses `match_expr`, projecting updated rows on
    /// `field_index_of_input_schema` (the input column of each field of the
    /// target table, by field index), deleting by the row ids in column
    /// `row_id_idx`.  The clauses' mutators need the function context: when
    /// there is a clause and the context could not be had, its error.
    pub fn create(
        split_idx: u32,
        merge_into_type: MergeIntoType,
        match_expr: &MatchExpr,
        field_index_of_input_schema: &HashMap<FieldIndex, usize>,
        row_id_idx: usize,
        target_table_schema: Arc<DataSchema>,
        function_context: &Result<FunctionContext, ErrorCode>,
    ) -> (r: Result<MergeIntoSplitProcessor, ErrorCode>)
        requires
            covers_field_indexes(field_index_of_input_schema@),
        ensures
            match_expr@.len() > 0 && function_context is Err ==> r == Err::<MergeIntoSplitProcessor, ErrorCode>(function_context->Err_0),
            !(match_expr@.len() > 0 && function_context is Err) ==> (r matches Ok(p) && {
                &&& p.split_idx == split_idx
                &&& p.merge_into_type == merge_into_type
                &&& are_mutations_of(p.mutation_ops@, match_expr@, row_id_idx)
                &&& p.field_index_of_input_schema@ == field_index_of_input_schema@
                &&& p.update_projections@ == Seq::new(
                    field_index_of_input_schema@.len(),
                    |i: int| field_index_of_input_schema@[i as FieldIndex],
                )
                &&& p.target_table_schema == target_table_schema
                &&& p.input_data is None
                &&& p.pending_insert is None
                &&& outputs_empty(p)
            }),
    {
        broadcast use vstd::std_specs::hash::group_hash_axioms;
        if match_expr.len() > 0 {
            if let Err(e) = function_context {
                return Err(e.clone_error());
            }
        }
        let mut mutation_ops: Vec<MutationOperation> = Vec::new();
        let mut k: usize = 0;
        while k < match_expr.len()
            invariant
                k <= match_expr@.len(),
                mutation_ops@.len() == k,
                forall|i: int|
                    0 <= i < k ==> #[trigger] mutation_ops@[i]@ == mutation_of(match_expr@[i], row_id_idx),
            decreases match_expr@.len() - k,
        {
            let filter = clone_filter(&match_expr[k].0);
            match &match_expr[k].1 {
                None => {
                    mutation_ops.push(MutationOperation::Delete { filter, row_id_idx });
                },
                Some(update_lists) => {
                    let updates = clone_updates(update_lists);
                    mutation_ops.push(MutationOperation::Update { filter, updates });
                },
            }
            k = k + 1;
        }
        let n = field_index_of_input_schema.len();
        let mut update_projections: Vec<usize> = Vec::with_capacity(n);
        let mut field_index: usize = 0;
        while field_index < n
            invariant
                n == field_index_of_input_schema@.len(),
                covers_field_indexes(field_index_of_input_schema@),
                field_index <= n,
                update_projections@.len() == field_index,
                forall|j: int|
                    0 <= j < field_index ==> update_projections@[j]
                        == field_index_of_input_schema@[j as FieldIndex],
            decreases n - field_index,
        {
            assert(field_index_of_input_schema@.contains_key(field_index));
            let column = *field_index_of_input_schema.get(&field_index).unwrap();
            update_projections.push(column);
            field_index = field_index + 1;
        }
        assert(update_projections@ =~= Seq::new(
            field_index_of_input_schema@.len(),
            |i: int| field_index_of_input_schema@[i as FieldIndex],
        ));
        Ok(
            MergeIntoSplitProcessor {
                split_idx,
                input_data: None,
                output_data_update: None,
                output_data_delete: Vec::new(),
                output_data_insert: None,
                pending_insert: None,
                merge_into_type,
                mutation_ops,
                field_index_of_input_schema: field_index_of_input_schema.clone(),
                update_projections,
                target_table_schema,
            },
        )
    }

    /// The processor's name.
    pub fn name(&self) -> (n: String)
        ensures
            n@ == "MergeIntoSplit"@,
    {
        proof {
            reveal_strlit("MergeIntoSplit");
        }
        "MergeIntoSplit".to_owned()
    }
}


impl MergeIntoSplitProcessor {
    /// Decides the next step from the state of the ports.
    ///
    /// When the input is finished and nothing is left to send, the outputs
    /// are finished.  Otherwise each port that can take a block gets the one
    /// held for it (the oldest, for deletes); if nothing was pushed, the
    /// input's block is pulled when the processor holds nothing, and data is
    /// asked for when the input has none.
    pub fn event(&mut self, ports: &PortStatus) -> (r: (Event, PortActions))
        ensures
            same_config(*final(self), *old(self)),
            final(self).pending_insert == old(self).pending_insert,
            final(self).input_data == old(self).input_data,
            if ports.input_finished && outputs_empty(*old(self)) {
                &&& r.0 == Event::Finished
                &&& r.1.finish_outputs
                &&& r.1.push_update is None && r.1.push_delete is None && r.1.push_insert is None
                &&& !r.1.pull_input && !r.1.set_need_data
                &&& outputs_empty(*final(self))
            } else {
                &&& !r.1.finish_outputs
                // A held block goes out exactly when its port can take it.
                &&& if ports.update_can_push && old(self).output_data_update is Some {
                    r.1.push_update == old(self).output_data_update
                        && final(self).output_data_update is None
                } else {
                    r.1.push_update is None && final(self).output_data_update
                        == old(self).output_data_update
                }
                &&& if ports.delete_can_push && old(self).output_data_delete@.len() > 0 {
                    r.1.push_delete == Some(old(self).output_data_delete@[0])
                        && final(self).output_data_delete@ == old(self).output_data_delete@.drop_first()
                } else {
                    r.1.push_delete is None && final(self).output_data_delete@
                        == old(self).output_data_delete@
                }
                &&& if ports.insert_can_push && old(self).output_data_insert is Some {
                    r.1.push_insert == old(self).output_data_insert
                        && final(self).output_data_insert is None
                } else {
                    r.1.push_insert is None && final(self).output_data_insert
                        == old(self).output_data_insert
                }
                &&& if can_push_something(*old(self), *ports) {
                    r.0 == Event::NeedConsume && !r.1.pull_input && !r.1.set_need_data
                } else if ports.input_has_data {
                    if outputs_empty(*old(self)) {
                        r.0 == Event::Sync && r.1.pull_input && !r.1.set_need_data
                    } else {
                        r.0 == Event::NeedConsume && !r.1.pull_input && !r.1.set_need_data
                    }
                } else {
                    r.0 == Event::NeedData && !r.1.pull_input && r.1.set_need_data
                }
            },
    {
        let finished = ports.input_finished && self.output_data_update.is_none()
            && self.output_data_delete.len() == 0 && self.output_data_insert.is_none();
        let mut actions = PortActions {
            finish_outputs: false,
            push_update: None,
            push_delete: None,
            push_insert: None,
            pull_input: false,
            set_need_data: false,
        };
        if finished {
            actions.finish_outputs = true;
            return (Event::Finished, actions);
        }
        let mut pushed_something = false;
        if ports.update_can_push {
            if let Some(update_data) = self.output_data_update.take() {
                actions.push_update = Some(update_data);
                pushed_something = true;
            }
        }
        if ports.delete_can_push {
            if self.output_data_delete.len() > 0 {
                let delete_data = self.output_data_delete.remove(0);
                assert(self.output_data_delete@ =~= old(self).output_data_delete@.drop_first());
                actions.push_delete = Some(delete_data);
                pushed_something = true;
            }
        }
        if ports.insert_can_push {
            if let Some(insert_data) = self.output_data_insert.take() {
                actions.push_insert = Some(insert_data);
                pushed_something = true;
            }
        }
        if pushed_something {
            (Event::NeedConsume, actions)
        } else {
            if ports.input_has_data {
                if self.output_data_update.is_none() && self.output_data_insert.is_none()
                    && self.output_data_delete.len() == 0 {
                    actions.pull_input = true;
                    (Event::Sync, actions)
                } else {
                    (Event::NeedConsume, actions)
                }
            } else {
                actions.set_need_data = true;
                (Event::NeedData, actions)
            }
        }
    }

    /// Takes the block pulled from the input port, to be routed by the next
    /// call of `process`.
    pub fn receive_input(&mut self, data: DataBlock)
        ensures
            same_config(*final(self), *old(self)),
            final(self).pending_insert == old(self).pending_insert,
            final(self).input_data == Some(data),
            final(self).output_data_update == old(self).output_data_update,
            final(self).output_data_delete == old(self).output_data_delete,
            final(self).output_data_insert == old(self).output_data_insert,
    {
        self.input_data = Some(data);
    }
}

/// What `process` leaves to the executor.
#[derive(Debug)]
pub enum ProcessStep {
    /// Nothing: no block was waiting, or the block was routed whole.
    Done,
    /// Split this block into matched and unmatched rows with the split
    /// mutator, and hand both parts to [`MergeIntoSplitProcessor::accept_split`].
    Split(DataBlock),
}

/// The next step of splitting matched rows.
#[derive(Debug)]
pub enum SplitStep {
    /// Run the mutator of clause `op_index` on `block` (`is_first` when it is
    /// the first clause), and hand its result to
    /// [`MergeIntoSplitProcessor::apply_mutation_result`].
    Apply { op_index: usize, is_first: bool, block: DataBlock },
    /// Every clause ran: hand the rows left to [`MergeIntoSplitProcessor::finish_update`].
    Finish(DataBlock),
    /// Nothing is left to update.
    Stop,
}

/// What a clause's mutator returns: for an update, the block with the
/// updated values; for a delete, the rows it leaves and the row ids of the
/// rows it deletes.
#[derive(Debug)]
pub enum MutationResult {
    Updated(DataBlock),
    Deleted { stage: DataBlock, row_ids: DataBlock },
}

/// Whether `step` goes on with `block` at clause `next` of `n_ops` clauses:
/// applying that clause, or finishing when there is none left.
pub open spec fn continues_at(step: SplitStep, next: int, n_ops: int, block: DataBlock) -> bool {
    if next < n_ops {
        step matches SplitStep::Apply { op_index, is_first, block: b } && op_index == next
            && is_first == (next == 0) && b == block
    } else {
        step matches SplitStep::Finish(b) && b == block
    }
}

/// Whether `r` is the kind of result the operation `op` gives.
pub open spec fn fits_operation(r: MutationResult, op: MutationOperation) -> bool {
    match (r, op) {
        (MutationResult::Updated(_), MutationOperation::Update { .. }) => true,
        (MutationResult::Deleted { .. }, MutationOperation::Delete { .. }) => true,
        _ => false,
    }
}

impl MergeIntoSplitProcessor {
    /// Routes the block taken from the input.
    ///
    /// A block that carries the index of a stored block is the unmodified
    /// part of that block, sent when the target table is the build side of
    /// the join: its rows, keeping their meta, go on to the insert output
    /// (the downstream tells them from inserted rows by that meta), and the
    /// stored block is deleted (an empty block carrying the same index).  Any
    /// other block is to be split.
    pub fn process(&mut self) -> (step: ProcessStep)
        ensures
            same_config(*final(self), *old(self)),
            final(self).pending_insert == old(self).pending_insert,
            final(self).input_data is None,
            final(self).output_data_update == old(self).output_data_update,
            match old(self).input_data {
                None => step is Done && final(self).output_data_delete == old(self).output_data_delete && final(self).output_data_insert == old(self).output_data_insert,
                Some(block) => match block.meta {
                    Some(BlockMeta::BlockIndex(index)) => {
                        &&& step is Done
                        &&& final(self).output_data_delete@.len() == old(self).output_data_delete@.len() + 1
                        &&& final(self).output_data_delete@.drop_last() == old(self).output_data_delete@
                        &&& final(self).output_data_delete@.last()@ == (DataBlockView {
                            columns: Seq::empty(),
                            num_rows: 0,
                            meta: Some(BlockMeta::BlockIndex(index)),
                        })
                        &&& block.num_rows != 0 ==> final(self).output_data_insert == Some(block)
                        &&& block.num_rows == 0 ==> final(self).output_data_insert == old(self).output_data_insert
                    },
                    _ => (step matches ProcessStep::Split(b) && b == block) && final(self).output_data_delete == old(self).output_data_delete && final(self).output_data_insert == old(self).output_data_insert,
                },
            },
    {
        if let Some(data_block) = self.input_data.take() {
            if let Some(BlockMeta::BlockIndex(meta_index)) = data_block.meta {
                let deleted = DataBlock::empty_with_meta(BlockMeta::BlockIndex(meta_index));
                let ghost before = self.output_data_delete@;
                self.output_data_delete.push(deleted);
                assert(self.output_data_delete@.drop_last() =~= before);
                assert(deleted@.columns =~= Seq::<crate::expression::BlockEntryView>::empty());
                if !data_block.is_empty() {
                    self.output_data_insert = Some(data_block);
                }
                return ProcessStep::Done;
            }
            return ProcessStep::Split(data_block);
        }
        ProcessStep::Done
    }

    /// Takes the two parts of a split block.  With no matched row, the
    /// unmatched rows (when there are any) go to the insert output at once.
    /// Otherwise they wait, as the pending insert, for the matched rows to be
    /// split through the clauses, which starts here.
    pub fn accept_split(&mut self, matched_block: DataBlock, insert_block: DataBlock) -> (step: SplitStep)
        ensures
            same_config(*final(self), *old(self)),
            final(self).input_data == old(self).input_data,
            final(self).output_data_update == old(self).output_data_update,
            final(self).output_data_delete == old(self).output_data_delete,
            matched_block.num_rows == 0 ==> {
                &&& step is Stop
                &&& final(self).pending_insert == old(self).pending_insert
                &&& insert_block.num_rows != 0 ==> final(self).output_data_insert == Some(insert_block)
                &&& insert_block.num_rows == 0 ==> final(self).output_data_insert == old(self).output_data_insert
            },
            matched_block.num_rows != 0 ==> {
                &&& continues_at(step, 0, old(self).mutation_ops@.len() as int, matched_block)
                &&& final(self).output_data_insert == old(self).output_data_insert
                &&& insert_block.num_rows != 0 ==> final(self).pending_insert == Some(insert_block)
                &&& insert_block.num_rows == 0 ==> final(self).pending_insert is None
            },
    {
        if matched_block.is_empty() {
            if !insert_block.is_empty() {
                self.output_data_insert = Some(insert_block);
            }
            return SplitStep::Stop;
        }
        if !insert_block.is_empty() {
            self.pending_insert = Some(insert_block);
        } else {
            self.pending_insert = None;
        }
        self.step_from(0, matched_block)
    }

    /// Ends a split without error: the pending insert goes to the insert output.
    fn release_insert(&mut self)
        ensures
            same_config(*final(self), *old(self)),
            final(self).input_data == old(self).input_data,
            final(self).output_data_update == old(self).output_data_update,
            final(self).output_data_delete == old(self).output_data_delete,
            final(self).output_data_insert == released_insert(*old(self)),
            final(self).pending_insert is None,
    {
        if let Some(b) = self.pending_insert.take() {
            self.output_data_insert = Some(b);
        }
    }

    fn step_from(&self, next: usize, block: DataBlock) -> (step: SplitStep)
        requires
            next <= self.mutation_ops@.len(),
        ensures
            continues_at(step, next as int, self.mutation_ops@.len() as int, block),
    {
        if next < self.mutation_ops.len() {
            SplitStep::Apply { op_index: next, is_first: next == 0, block }
        } else {
            SplitStep::Finish(block)
        }
    }

    /// Takes the result of the mutator of clause `op_index` (or its error).
    ///
    /// A delete's row ids, when there are any, are marked as deletes and
    /// queued for the delete output; when a delete leaves no row, nothing is
    /// left to update and the split ends (the pending insert goes out).
    /// Otherwise the rows left go on to the next clause.  An error stops the
    /// split and drops the pending insert.
    pub fn apply_mutation_result(
        &mut self,
        op_index: usize,
        result: Result<MutationResult, ErrorCode>,
    ) -> (r: Result<SplitStep, ErrorCode>)
        requires
            op_index < old(self).mutation_ops@.len(),
            result matches Ok(m) ==> fits_operation(m, old(self).mutation_ops@[op_index as int]),
        ensures
            same_config(*final(self), *old(self)),
            final(self).input_data == old(self).input_data,
            final(self).output_data_update == old(self).output_data_update,
            // An error drops the pending insert; the end of the split sends
            // it; going on to the next clause keeps it.
            r is Err ==> final(self).pending_insert is None && final(self).output_data_insert
                == old(self).output_data_insert,
            (r matches Ok(step) && step is Stop) ==> final(self).pending_insert is None
                && final(self).output_data_insert == released_insert(*old(self)),
            (r matches Ok(step) && !(step is Stop)) ==> final(self).pending_insert == old(
                self).pending_insert && final(self).output_data_insert == old(self).output_data_insert,
            match result {
                Err(e) => r == Err::<SplitStep, ErrorCode>(e) && final(self).output_data_delete
                    == old(self).output_data_delete,
                Ok(MutationResult::Updated(stage)) => (r matches Ok(step) && continues_at(
                    step,
                    op_index + 1,
                    old(self).mutation_ops@.len() as int,
                    stage,
                )) && final(self).output_data_delete == old(self).output_data_delete,
                Ok(MutationResult::Deleted { stage, row_ids }) => if row_ids.num_rows != 0
                    && row_ids.meta is Some {
                    (r matches Err(ErrorCode::Internal(m))
                        && m@ == "Internal error, block meta data is already set."@)
                        && final(self).output_data_delete == old(self).output_data_delete
                } else {
                    &&& row_ids.num_rows != 0 ==> {
                        &&& final(self).output_data_delete@.len() == old(self).output_data_delete@.len() + 1
                        &&& final(self).output_data_delete@.drop_last() == old(self).output_data_delete@
                        &&& final(self).output_data_delete@.last()@ == (DataBlockView {
                            meta: Some(BlockMeta::RowIdKind(RowIdKind::Delete)),
                            ..row_ids@
                        })
                    }
                    &&& row_ids.num_rows == 0 ==> final(self).output_data_delete
                        == old(self).output_data_delete
                    &&& stage.num_rows == 0 ==> (r matches Ok(step) && step is Stop)
                    &&& stage.num_rows != 0 ==> (r matches Ok(step) && continues_at(
                        step,
                        op_index + 1,
                        old(self).mutation_ops@.len() as int,
                        stage,
                    ))
                },
            },
    {
        let n_ops = self.mutation_ops.len();
        assert(op_index + 1 <= n_ops);
        match result {
            Err(e) => {
                self.pending_insert = None;
                Err(e)
            },
            Ok(MutationResult::Updated(stage)) => Ok(self.step_from(op_index + 1, stage)),
            Ok(MutationResult::Deleted { stage, row_ids }) => {
                if !row_ids.is_empty() {
                    let marked = row_ids.add_meta(Some(BlockMeta::RowIdKind(RowIdKind::Delete)));
                    match marked {
                        Err(e) => {
                            self.pending_insert = None;
                            return Err(e);
                        },
                        Ok(b) => {
                            let ghost before = self.output_data_delete@;
                            self.output_data_delete.push(b);
                            assert(self.output_data_delete@.drop_last() =~= before);
                        },
                    }
                }
                if stage.is_empty() {
                    self.release_insert();
                    return Ok(SplitStep::Stop);
                }
                Ok(self.step_from(op_index + 1, stage))
            },
        }
    }

}

/// A cast of column `column`, of type `from`, to type `to`.
#[derive(Clone, Copy, Debug, PartialEq, Eq, Structural)]
pub struct CastExpr {
    pub column: usize,
    pub from: DataType,
    pub to: DataType,
}

/// A map of a block: the expressions appended as new columns, then the
/// columns kept, by position.
#[derive(Debug)]
pub struct CastPlan {
    pub exprs: Vec<CastExpr>,
    pub projections: Vec<usize>,
}

/// Whether `plan` casts each of the `n` columns of `block` to the type of the
/// same field of `schema`, and keeps only the cast columns.
pub open spec fn casts_to_schema(plan: CastPlan, block: DataBlockView, schema: DataSchema) -> bool {
    let n = block.columns.len();
    &&& plan.exprs@.len() == n
    &&& forall|i: int|
        0 <= i < n ==> #[trigger] plan.exprs@[i] == (CastExpr {
            column: i as usize,
            from: block.columns[i].data_type,
            to: schema.fields@[i].data_type,
        })
    &&& plan.projections@ == Seq::new(n, |i: int| (n + i) as usize)
}

/// What finishing an update leaves to the executor.
#[derive(Debug)]
pub enum UpdateStep {
    /// No row is left to update.
    Empty,
    /// Record `update_rows` updated rows, evaluate `plan` on `block`, and hand
    /// the result to [`MergeIntoSplitProcessor::accept_update`].
    Cast { block: DataBlock, plan: CastPlan, update_rows: usize },
}

/// The value of the last column of a block.
pub open spec fn last_value(b: DataBlockView) -> ValueView {
    b.columns.last().value
}

impl MergeIntoSplitProcessor {
    /// The casts that bring each column of `current_block` back to the type of
    /// the same field of the target table (the hash table may have made a
    /// non-nullable column nullable), keeping only the cast columns.
    pub fn cast_data_type_for_merge(&self, current_block: &DataBlock) -> (plan: CastPlan)
        requires
            self.target_table_schema.fields@.len() == current_block.columns@.len(),
            current_block.columns@.len() * 2 <= usize::MAX,
        ensures
            casts_to_schema(plan, current_block@, *self.target_table_schema),
    {
        let n = current_block.columns.len();
        let mut exprs: Vec<CastExpr> = Vec::new();
        let mut i: usize = 0;
        while i < n
            invariant
                n == current_block.columns@.len(),
                self.target_table_schema.fields@.len() == n,
                i <= n,
                exprs@.len() == i,
                forall|j: int|
                    0 <= j < i ==> #[trigger] exprs@[j] == (CastExpr {
                        column: j as usize,
                        from: current_block@.columns[j].data_type,
                        to: self.target_table_schema.fields@[j].data_type,
                    }),
            decreases n - i,
        {
            assert(current_block@.columns[i as int] == current_block.columns@[i as int]@);
            exprs.push(
                CastExpr {
                    column: i,
                    from: current_block.columns[i].data_type,
                    to: self.target_table_schema.fields[i].data_type,
                },
            );
            i = i + 1;
        }
        let mut projections: Vec<usize> = Vec::new();
        let mut k: usize = n;
        while k < n * 2
            invariant
                n * 2 <= usize::MAX,
                n <= k <= n * 2,
                projections@ == Seq::new((k - n) as nat, |i: int| (n + i) as usize),
            decreases n * 2 - k,
        {
            projections.push(k);
            assert(projections@ =~= Seq::new((k + 1 - n) as nat, |i: int| (n + i) as usize));
            k = k + 1;
        }
        CastPlan { exprs, projections }
    }

    /// Finishes the matched rows left after every clause: keeps the rows the
    /// last column (the clauses' combined condition) selects; when any is
    /// left, projects them on the target table's fields and plans the casts
    /// to its types.  When no row is left, the split ends here (the pending
    /// insert goes out).
    pub fn finish_update(&mut self, block: DataBlock) -> (step: UpdateStep)
        requires
            block_well_formed(block@),
            block.columns@.len() > 0,
            is_boolean_filter(last_value(block@), block.num_rows as nat),
            forall|i: int|
                0 <= i < old(self).update_projections@.len() ==> #[trigger] old(
                    self).update_projections@[i] < block.columns@.len(),
            old(self).target_table_schema.fields@.len() == old(self).update_projections@.len(),
            old(self).update_projections@.len() * 2 <= usize::MAX,
        ensures
            same_config(*final(self), *old(self)),
            final(self).input_data == old(self).input_data,
            final(self).output_data_update == old(self).output_data_update,
            final(self).output_data_delete == old(self).output_data_delete,
            ({
                let kept = filtered_block(
                    block@,
                    filter_keep(last_value(block@), block.num_rows as nat),
                );
                if kept.num_rows == 0 {
                    &&& step is Empty
                    &&& final(self).pending_insert is None
                    &&& final(self).output_data_insert == released_insert(*old(self))
                } else {
                    &&& step matches UpdateStep::Cast { block: b, plan, update_rows } && update_rows
                        == kept.num_rows && b@ == (DataBlockView {
                        columns: old(self).update_projections@.map_values(
                            |k: usize| kept.columns[k as int],
                        ),
                        num_rows: kept.num_rows,
                        meta: None,
                    }) && casts_to_schema(plan, b@, *old(self).target_table_schema)
                    &&& final(self).pending_insert == old(self).pending_insert
                    &&& final(self).output_data_insert == old(self).output_data_insert
                }
            }),
    {
        let last = block.columns.len() - 1;
        assert(block@.columns[last as int] == block.columns@[last as int]@);
        let filtered = block.filter_boolean_value(&block.columns[last].value);
        if filtered.is_empty() {
            self.release_insert();
            return UpdateStep::Empty;
        }
        let update_rows = filtered.num_rows;
        assert(filtered.columns@.len() == filtered@.columns.len());
        assert(filtered.columns@.len() == block.columns@.len());
        let projected = filtered.project_columns(&self.update_projections);
        assert(projected.columns@.len() == projected@.columns.len());
        assert(projected.columns@.len() == self.update_projections@.len());
        let plan = self.cast_data_type_for_merge(&projected);
        UpdateStep::Cast { block: projected, plan, update_rows }
    }

    /// Takes the update block cast to the target table's types (or the error
    /// met evaluating the casts).  The block goes to the update output and
    /// the split ends (the pending insert goes out); an error drops the
    /// pending insert.
    pub fn accept_update(&mut self, updated: Result<DataBlock, ErrorCode>) -> (r: Result<(), ErrorCode>)
        ensures
            same_config(*final(self), *old(self)),
            final(self).input_data == old(self).input_data,
            final(self).output_data_delete == old(self).output_data_delete,
            final(self).pending_insert is None,
            match updated {
                Ok(b) => r is Ok && final(self).output_data_update == Some(b)
                    && final(self).output_data_insert == released_insert(*old(self)),
                Err(e) => r == Err::<(), ErrorCode>(e) && final(self).output_data_update == old(
                    self).output_data_update && final(self).output_data_insert == old(
                    self).output_data_insert,
            },
    {
        match updated {
            Ok(b) => {
                self.output_data_update = Some(b);
                self.release_insert();
                Ok(())
            },
            Err(e) => {
                self.pending_insert = None;
                Err(e)
            },
        }
    }
}

} // verus!
