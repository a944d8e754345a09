//! Verified pieces of a query engine: the encoding of row ids and the
//! internal columns built on it, the choice of physical joins and the pruning
//! of their columns, the cross join, the `MERGE INTO` plan and its split
//! processor, the spiller's state, and the binding of view statements.

pub mod error;
pub mod expression;
pub mod scalar_expr;
pub mod column_set;

pub mod row_id;
pub mod row_id_laws;
pub mod internal_column;

pub mod physical_join;
pub mod hash_join;
pub mod spiller;

pub mod merge_into;
pub mod merge_into_split;

pub mod view_binder;
pub mod merge_into_pipeline;
