//! The pipe that splits a `MERGE INTO` join's output into updates, deletes
//! and inserts: one split processor per output of the pipeline.
use std::collections::HashMap;
use std::sync::Arc;
use vstd::prelude::*;
use crate::error::ErrorCode;
use crate::expression::{DataSchema, FieldIndex};
use crate::merge_into::{ExecutionMode, IndexType, MergeIntoType};
use crate::merge_into_split::{
    FunctionContext, MatchExpr, MergeIntoSplitProcessor, are_mutations_of, covers_field_indexes,
    outputs_empty,
};

verus! {

/// What the pipeline builder reads of a physical `MERGE INTO`.
#[derive(Debug)]
pub struct PhysicalMergeInto {
    pub matched: MatchExpr,
    pub field_index_of_input_schema: HashMap<FieldIndex, usize>,
    pub row_id_idx: usize,
    pub execution_mode: ExecutionMode,
    pub merge_type: MergeIntoType,
    pub can_try_update_column_only: bool,
    /// The column that tells matched rows from unmatched ones, when the
    /// output is to be split.
    pub merge_into_split_idx: Option<IndexType>,
}

/// The outputs of a split processor.
#[derive(Clone, Copy, Debug, PartialEq, Eq, Structural)]
pub enum SplitOutput {
    Update,
    Delete,
    Insert,
}

/// A processor placed in a pipe, with its number of input ports and its
/// output ports in the order the pipe wires them.
#[derive(Debug)]
pub struct PipeItem {
    pub processor: MergeIntoSplitProcessor,
    pub inputs_port: usize,
    pub outputs_port: Vec<SplitOutput>,
}

/// A stage of a pipeline: its processors and its total numbers of inputs and outputs.
#[derive(Debug)]
pub struct Pipe {
    pub input_length: usize,
    pub output_length: usize,
    pub items: Vec<PipeItem>,
}

/// The output ports of a split processor, in order.
pub open spec fn split_outputs() -> Seq<SplitOutput> {
    seq![SplitOutput::Update, SplitOutput::Delete, SplitOutput::Insert]
}

impl MergeIntoSplitProcessor {
    /// The processor as a pipe item: one input port, then the update, delete
    /// and insert output ports, in that order.
    pub fn into_pipe_item(self) -> (item: PipeItem)
        ensures
            item.processor == self,
            item.inputs_port == 1,
            item.outputs_port@ == split_outputs(),
    {
        let mut outputs: Vec<SplitOutput> = Vec::new();
        outputs.push(SplitOutput::Update);
        outputs.push(SplitOutput::Delete);
        outputs.push(SplitOutput::Insert);
        assert(outputs@ =~= split_outputs());
        PipeItem { processor: self, inputs_port: 1, outputs_port: outputs }
    }
}

/// Calls `Arc::clone`: another pointer to the same schema.
#[verifier::external_body]
fn share_schema(schema: &Arc<DataSchema>) -> (r: Arc<DataSchema>)
    ensures
        r == *schema,
{
    Arc::clone(schema)
}

/// Whether `item` holds a fresh split processor of `merge_into` writing to
/// `table_schema`.
pub open spec fn is_split_item(
    item: PipeItem,
    merge_into: PhysicalMergeInto,
    split_idx: IndexType,
    table_schema: Arc<DataSchema>,
) -> bool {
    &&& item.inputs_port == 1
    &&& item.outputs_port@ == split_outputs()
    &&& item.processor.split_idx == split_idx as u32
    &&& item.processor.merge_into_type == merge_into.merge_type
    &&& are_mutations_of(item.processor.mutation_ops@, merge_into.matched@, merge_into.row_id_idx)
    &&& item.processor.field_index_of_input_schema@ == merge_into.field_index_of_input_schema@
    &&& item.processor.update_projections@ == Seq::new(
        merge_into.field_index_of_input_schema@.len(),
        |k: int| merge_into.field_index_of_input_schema@[k as FieldIndex],
    )
    &&& item.processor.target_table_schema == table_schema
    &&& item.processor.input_data is None
    &&& item.processor.pending_insert is None
    &&& outputs_empty(item.processor)
}

/// The split pipe of `merge_into` on a pipeline with `output_len` outputs,
/// when the statement's output is to be split: one split processor per
/// output, each with one input and three outputs.  The processors' mutators
/// need the function context: when there are processors and clauses and the
/// context could not be had, its error.
pub fn build_merge_into_split_pipe(
    merge_into: &PhysicalMergeInto,
    output_len: usize,
    table_schema: Arc<DataSchema>,
    function_context: &Result<FunctionContext, ErrorCode>,
) -> (r: Result<Option<Pipe>, ErrorCode>)
    requires
        output_len * 3 <= usize::MAX,
        covers_field_indexes(merge_into.field_index_of_input_schema@),
    ensures
        merge_into.merge_into_split_idx is None ==> r matches Ok(None),
        merge_into.merge_into_split_idx is Some && output_len > 0 && merge_into.matched@.len() > 0
            && function_context is Err ==> r == Err::<Option<Pipe>, ErrorCode>(function_context->Err_0),
        merge_into.merge_into_split_idx is Some && !(output_len > 0
            && merge_into.matched@.len() > 0 && function_context is Err) ==> (r matches Ok(Some(pipe)) && {
            &&& pipe.input_length == output_len
            &&& pipe.output_length == output_len * 3
            &&& pipe.items@.len() == output_len
            &&& forall|i: int|
                0 <= i < output_len ==> is_split_item(
                    #[trigger] pipe.items@[i],
                    *merge_into,
                    merge_into.merge_into_split_idx->Some_0,
                    table_schema,
                )
        }),
{
    if let Some(split_idx) = merge_into.merge_into_split_idx {
        let mut items: Vec<PipeItem> = Vec::with_capacity(output_len);
        let mut i: usize = 0;
        while i < output_len
            invariant
                i <= output_len,
                merge_into.merge_into_split_idx == Some(split_idx),
                covers_field_indexes(merge_into.field_index_of_input_schema@),
                i > 0 ==> !(merge_into.matched@.len() > 0 && function_context is Err),
                items@.len() == i,
                forall|j: int|
                    0 <= j < i ==> is_split_item(#[trigger] items@[j], *merge_into, split_idx, table_schema),
            decreases output_len - i,
        {
            let processor = match MergeIntoSplitProcessor::create(
                split_idx as u32,
                merge_into.merge_type,
                &merge_into.matched,
                &merge_into.field_index_of_input_schema,
                merge_into.row_id_idx,
                share_schema(&table_schema),
                function_context,
            ) {
                Ok(p) => p,
                Err(e) => return Err(e),
            };
            items.push(processor.into_pipe_item());
            i = i + 1;
        }
        Ok(Some(Pipe { input_length: output_len, output_length: output_len * 3, items }))
    } else {
        Ok(None)
    }
}

} // verus!
