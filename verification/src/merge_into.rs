//! The `MERGE INTO` plan: its clauses, its execution mode, and the schema of
//! the counts it reports.
use std::collections::HashMap;
use std::collections::HashSet;
use std::sync::Arc;
use vstd::prelude::*;
use crate::error::ErrorCode;
use crate::expression::{DataField, DataSchema, DataType, FieldIndex, NumberDataType};
use crate::scalar_expr::ScalarExpr;

verus! {

/// Index of a column in a plan.
pub type IndexType = usize;

/// Identifier of a table in the meta service.
pub type MetaId = u64;

/// What a `WHEN NOT MATCHED` clause inserts.
#[derive(Debug)]
pub struct UnmatchedEvaluator {
    pub source_schema: Arc<DataSchema>,
    pub condition: Option<ScalarExpr>,
    pub values: Vec<ScalarExpr>,
}

/// What a `WHEN MATCHED` clause does: with `update`, set the listed fields
/// (by their index in the table's schema); without, delete the row.
#[derive(Debug)]
pub struct MatchedEvaluator {
    pub condition: Option<ScalarExpr>,
    pub update: Option<HashMap<FieldIndex, ScalarExpr>>,
}

/// How the join of a `MERGE INTO` is run.
#[derive(Clone, Copy, Debug, PartialEq, Eq, Structural)]
pub enum ExecutionMode {
    SingleNode,
    /// A right (anti) join with the source broadcast; it needs special
    /// handling at run time.
    RightJoinBroadcast,
    OtherDistributed,
}

/// Which clauses a `MERGE INTO` has.
#[derive(Clone, Copy, Debug, PartialEq, Eq, Structural)]
pub enum MergeIntoType {
    MatchedOnly,
    FullOperation,
    InsertOnly,
}

/// The name that `to_string` gives each execution mode.
pub open spec fn execution_mode_name(m: ExecutionMode) -> Seq<char> {
    match m {
        ExecutionMode::SingleNode => "SingleNode"@,
        ExecutionMode::RightJoinBroadcast => "RightJoinBroadcast"@,
        ExecutionMode::OtherDistributed => "OtherDistributed"@,
    }
}

impl Default for ExecutionMode {
    fn default() -> (m: ExecutionMode)
        ensures
            m == ExecutionMode::SingleNode,
    {
        ExecutionMode::SingleNode
    }
}

impl ExecutionMode {
    /// The mode's name.
    pub fn to_string(&self) -> (s: String)
        ensures
            s@ == execution_mode_name(*self),
    {
        proof {
            reveal_strlit("SingleNode");
            reveal_strlit("RightJoinBroadcast");
            reveal_strlit("OtherDistributed");
        }
        match self {
            ExecutionMode::SingleNode => "SingleNode".to_owned(),
            ExecutionMode::RightJoinBroadcast => "RightJoinBroadcast".to_owned(),
            ExecutionMode::OtherDistributed => "OtherDistributed".to_owned(),
        }
    }
}

/// A `MERGE INTO` statement, planned.
#[derive(Debug)]
pub struct MergeInto {
    pub catalog: String,
    pub database: String,
    pub table: String,
    pub table_id: MetaId,
    pub columns_set: HashSet<IndexType>,
    pub matched_evaluators: Vec<MatchedEvaluator>,
    pub unmatched_evaluators: Vec<UnmatchedEvaluator>,
    pub target_table_idx: usize,
    pub field_index_map: HashMap<FieldIndex, String>,
    pub merge_type: MergeIntoType,
    pub execution_mode: ExecutionMode,
    /// Dropped when the target table is the build side, or for insert-only statements.
    pub row_id_index: IndexType,
    pub split_idx: IndexType,
    /// Whether the statement is a single unconditional update that copies
    /// columns (`update *`, or `update set t1.a = t2.a, ...`), so that a
    /// projection can replace the evaluator.
    pub can_try_update_column_only: bool,
}

/// Name of the count of inserted rows.
pub const INSERT_NAME: &'static str = "number of rows inserted";

/// Name of the count of updated rows.
pub const UPDATE_NAME: &'static str = "number of rows updated";

/// Name of the count of deleted rows.
pub const DELETE_NAME: &'static str = "number of rows deleted";

/// Whether a statement of kind `t` inserts rows.
pub open spec fn inserts(t: MergeIntoType) -> bool {
    t == MergeIntoType::FullOperation || t == MergeIntoType::InsertOnly
}

/// Whether one of the matched clauses updates rows.
pub open spec fn updates(matched: Seq<MatchedEvaluator>) -> bool {
    exists|i: int| 0 <= i < matched.len() && (#[trigger] matched[i]).update is Some
}

/// Whether one of the matched clauses deletes rows.
pub open spec fn deletes(matched: Seq<MatchedEvaluator>) -> bool {
    exists|i: int| 0 <= i < matched.len() && (#[trigger] matched[i]).update is None
}

/// The names of the counts reported for the given mutations, in the order
/// insert, update, delete.
pub open spec fn count_names(insert: bool, update: bool, delete: bool) -> Seq<Seq<char>> {
    (if insert { seq!["number of rows inserted"@] } else { Seq::empty() }) + (if update {
        seq!["number of rows updated"@]
    } else {
        Seq::empty()
    }) + (if delete { seq!["number of rows deleted"@] } else { Seq::empty() })
}

/// Whether `schema` has one `Int32` field for each name of `names`, in order.
pub open spec fn is_count_schema(schema: DataSchema, names: Seq<Seq<char>>) -> bool {
    &&& schema.fields@.len() == names.len()
    &&& forall|k: int|
        0 <= k < names.len() ==> (#[trigger] schema.fields@[k]).name@ == names[k]
            && schema.fields@[k].data_type == DataType::Number(NumberDataType::Int32)
}

/// The statement reports a count of updated rows exactly when some
/// `WHEN MATCHED` clause has assignments (with or without a condition), of
/// deleted rows exactly when some has none, and of inserted rows exactly
/// when it has `WHEN NOT MATCHED` clauses.
pub proof fn lemma_counts_follow_clauses(t: MergeIntoType, matched: Seq<MatchedEvaluator>)
    ensures
        ({
            let names = count_names(inserts(t), updates(matched), deletes(matched));
            &&& names.contains("number of rows updated"@) <==> exists|i: int|
                0 <= i < matched.len() && (#[trigger] matched[i]).update is Some
            &&& names.contains("number of rows deleted"@) <==> exists|i: int|
                0 <= i < matched.len() && (#[trigger] matched[i]).update is None
            &&& names.contains("number of rows inserted"@) <==> (t == MergeIntoType::FullOperation
                || t == MergeIntoType::InsertOnly)
        }),
{
    reveal_strlit("number of rows inserted");
    reveal_strlit("number of rows updated");
    reveal_strlit("number of rows deleted");
    let i = "number of rows inserted"@;
    let u = "number of rows updated"@;
    let d = "number of rows deleted"@;
    assert(i != u && i != d && u != d) by {
        assert(i[16] != u[16] && i[16] != d[16] && u[16] != d[16]);
    }
    let names = count_names(inserts(t), updates(matched), deletes(matched));
    assert(names.contains(u) == updates(matched)) by {
        if updates(matched) {
            let k = if inserts(t) { 1int } else { 0int };
            assert(names[k] == u);
        }
    }
    assert(names.contains(d) == deletes(matched)) by {
        if deletes(matched) {
            assert(names[names.len() - 1] == d);
        }
    }
    assert(names.contains(i) == inserts(t)) by {
        if inserts(t) {
            assert(names[0] == i);
        }
    }
}

impl MergeInto {
    /// Whether the statement inserts, updates and deletes rows, in that order.
    pub fn merge_into_mutations(&self) -> (r: (bool, bool, bool))
        ensures
            r == (
                inserts(self.merge_type),
                updates(self.matched_evaluators@),
                deletes(self.matched_evaluators@),
            ),
    {
        let insert = match self.merge_type {
            MergeIntoType::FullOperation | MergeIntoType::InsertOnly => true,
            MergeIntoType::MatchedOnly => false,
        };
        let mut update = false;
        let mut delete = false;
        let mut i: usize = 0;
        while i < self.matched_evaluators.len()
            invariant
                i <= self.matched_evaluators@.len(),
                update == (exists|j: int|
                    0 <= j < i && (#[trigger] self.matched_evaluators@[j]).update is Some),
                delete == (exists|j: int|
                    0 <= j < i && (#[trigger] self.matched_evaluators@[j]).update is None),
            decreases self.matched_evaluators@.len() - i,
        {
            if self.matched_evaluators[i].update.is_none() {
                delete = true;
            } else {
                update = true;
            }
            i = i + 1;
        }
        (insert, update, delete)
    }

    /// The schema of the counts the statement reports: one `Int32` field for
    /// each kind of mutation it makes, in the order insert, update, delete;
    /// an error when it makes none.
    pub fn merge_into_table_schema(&self) -> (r: Result<Arc<DataSchema>, ErrorCode>)
        ensures
            ({
                let (insert, update, delete) = (
                    inserts(self.merge_type),
                    updates(self.matched_evaluators@),
                    deletes(self.matched_evaluators@),
                );
                if insert || update || delete {
                    r matches Ok(s) && is_count_schema(*s, count_names(insert, update, delete))
                } else {
                    r matches Err(ErrorCode::BadArguments(msg))
                        && msg@ == "at least one matched or unmatched clause for merge into"@
                }
            }),
    {
        proof {
            reveal_strlit("number of rows inserted");
            reveal_strlit("number of rows updated");
            reveal_strlit("number of rows deleted");
            reveal_strlit("at least one matched or unmatched clause for merge into");
        }
        let (insert, update, delete) = self.merge_into_mutations();
        let mut schema_fields: Vec<DataField> = Vec::new();
        if insert {
            schema_fields.push(DataField::new(INSERT_NAME, DataType::Number(NumberDataType::Int32)));
        }
        if update {
            schema_fields.push(DataField::new(UPDATE_NAME, DataType::Number(NumberDataType::Int32)));
        }
        if delete {
            schema_fields.push(DataField::new(DELETE_NAME, DataType::Number(NumberDataType::Int32)));
        }
        if schema_fields.len() == 0 {
            Err(
                ErrorCode::BadArguments(
                    "at least one matched or unmatched clause for merge into".to_owned(),
                ),
            )
        } else {
            let schema = DataSchema { fields: schema_fields };
            assert(is_count_schema(schema, count_names(insert, update, delete)));
            Ok(Arc::new(schema))
        }
    }

    /// The schema of the counts the statement reports.
    pub fn schema(&self) -> (s: Arc<DataSchema>)
        requires
            inserts(self.merge_type) || updates(self.matched_evaluators@) || deletes(
                self.matched_evaluators@,
            ),
        ensures
            is_count_schema(
                *s,
                count_names(
                    inserts(self.merge_type),
                    updates(self.matched_evaluators@),
                    deletes(self.matched_evaluators@),
                ),
            ),
    {
        match self.merge_into_table_schema() {
            Ok(s) => s,
            Err(_) => {
                proof {
                    assert(false);
                }
                Arc::new(DataSchema { fields: Vec::new() })
            },
        }
    }
}

} // verus!
