# databend_query

Verified pieces of a query engine, written in Verus.

- `row_id`, `row_id_laws`: the 64-bit `_row_id` encoding (reversed segment id,
  block id, row offset), with the laws that splitting undoes building and that
  row ids order rows by segment age, block and offset.
- `internal_column`: the internal columns (`_row_id`, `_block_name`,
  `_segment_name`, `_snapshot_name`), their types, ids and generated values.
- `physical_join`: hash join or range join, and the columns each side of a join
  must produce.
- `hash_join`: the cross join of a probe block with the build side.
- `merge_into`, `merge_into_split`, `merge_into_pipeline`: the `MERGE INTO` plan,
  the schema of its counts, and the processor that splits its join output into
  updates, deletes and inserts: a state machine driven by the executor, which
  runs the clauses' mutators and the casts and hands their results back.
- `spiller`, `view_binder`: the spiller's state, and `CREATE/ALTER/DROP VIEW` binding.

`app/` holds the serializable copies of the internal-column types, the hash
join state trait, and the driver that performs the split processor's port
actions and runs its split of matched rows.
