//! Encoding of the internal `_row_id` column.
//!
//! A row id is a `u64` whose high 32 bits are a *prefix* built from the
//! segment and block a row lives in, and whose low 32 bits are the row's
//! offset inside its block.  The segment id is stored bit-reversed so that
//! newer segments (smaller offsets in the snapshot's segment list) get larger
//! row ids.
use vstd::prelude::*;

verus! {

/// Bits of the prefix that hold the block id.
pub const NUM_BLOCK_ID_BITS: usize = 10;

/// Bits of the prefix that hold the (reversed) segment id.
pub const NUM_SEGMENT_ID_BITS: usize = 22;

/// Bits of a row id that hold the prefix (and, below it, the row offset).
pub const NUM_ROW_ID_PREFIX_BITS: usize = NUM_BLOCK_ID_BITS + NUM_SEGMENT_ID_BITS;

/// Number of distinct block ids: `2^NUM_BLOCK_ID_BITS`.
pub open spec fn block_id_space() -> int {
    0x400
}

/// Number of distinct segment ids: `2^NUM_SEGMENT_ID_BITS`.
pub open spec fn segment_id_space() -> int {
    0x40_0000
}

/// Number of distinct prefixes and of distinct in-block offsets: `2^32`.
pub open spec fn prefix_space() -> int {
    0x1_0000_0000
}

/// The segment id as stored in a prefix: its low 22 bits, reversed.
pub open spec fn reversed_segment(seg_id: int) -> int {
    (segment_id_space() - 1) - seg_id % segment_id_space()
}

/// The prefix of segment `seg_id` and block `block_id`.
pub open spec fn row_id_prefix_of(seg_id: int, block_id: int) -> int {
    reversed_segment(seg_id) * block_id_space() + block_id % block_id_space()
}

/// The row id of the row at offset `idx` under `prefix`.
pub open spec fn row_id_of(prefix: int, idx: int) -> int {
    (prefix % prefix_space()) * prefix_space() + idx % prefix_space()
}

proof fn lemma_prefix_bits(seg_id: u64, block_id: u64)
    by (bit_vector)
    ensures
        ((((!seg_id) & 0x3f_ffffu64) << 10u64) | (block_id & 0x3ffu64)) & 0xffff_ffffu64
            == (((!seg_id) & 0x3f_ffffu64) << 10u64) | (block_id & 0x3ffu64),
        (((!seg_id) & 0x3f_ffffu64) << 10u64) | (block_id & 0x3ffu64)
            == ((!seg_id) & 0x3f_ffffu64) * 0x400u64 + (block_id & 0x3ffu64),
        (!seg_id) & 0x3f_ffffu64 == 0x3f_ffffu64 - seg_id % 0x40_0000u64,
        block_id & 0x3ffu64 == block_id % 0x400u64,
{
}

proof fn lemma_masks()
    ensures
        1u64 << NUM_BLOCK_ID_BITS == 0x400u64,
        1u64 << NUM_SEGMENT_ID_BITS == 0x40_0000u64,
        1u64 << NUM_ROW_ID_PREFIX_BITS == 0x1_0000_0000u64,
{
    assert(1u64 << 10usize == 0x400u64) by (bit_vector);
    assert(1u64 << 22usize == 0x40_0000u64) by (bit_vector);
    assert(1u64 << 32usize == 0x1_0000_0000u64) by (bit_vector);
}

/// The prefix of the row ids of block `block_id` of segment `seg_id`.
///
/// `seg_id` is the segment's offset in the snapshot's segment list (a larger
/// offset is an older segment), so it is reversed to keep row ids growing
/// with the age of the data.
pub fn compute_row_id_prefix(seg_id: u64, block_id: u64) -> (prefix: u64)
    ensures
        prefix == row_id_prefix_of(seg_id as int, block_id as int),
        prefix < prefix_space(),
{
    proof {
        lemma_prefix_bits(seg_id, block_id);
        lemma_masks();
    }
    let seg_id = (!seg_id) & ((1u64 << NUM_SEGMENT_ID_BITS) - 1);
    let block_id = block_id & ((1u64 << NUM_BLOCK_ID_BITS) - 1);
    ((seg_id << NUM_BLOCK_ID_BITS) | block_id) & ((1u64 << NUM_ROW_ID_PREFIX_BITS) - 1)
}


proof fn lemma_row_id_bits(prefix: u64, idx: u64)
    by (bit_vector)
    ensures
        (prefix << 32u64) | (idx & 0xffff_ffffu64)
            == (prefix % 0x1_0000_0000u64) * 0x1_0000_0000u64 + idx % 0x1_0000_0000u64,
{
}

/// The row id of the row at offset `idx` of the block whose prefix is `prefix`.
///
/// Only the low 32 bits of `prefix` and of `idx` are kept.
pub fn compute_row_id(prefix: u64, idx: u64) -> (id: u64)
    ensures
        id == row_id_of(prefix as int, idx as int),
{
    proof {
        lemma_row_id_bits(prefix, idx);
        lemma_masks();
    }
    (prefix << NUM_ROW_ID_PREFIX_BITS) | (idx & ((1u64 << NUM_ROW_ID_PREFIX_BITS) - 1))
}

proof fn lemma_split_bits(id: u64)
    by (bit_vector)
    ensures
        id >> 32u64 == id / 0x1_0000_0000u64,
        id & 0xffff_ffffu64 == id % 0x1_0000_0000u64,
{
}

/// Splits a row id into its prefix (high 32 bits) and in-block offset (low 32 bits).
pub fn split_row_id(id: u64) -> (parts: (u64, u64))
    ensures
        parts.0 == id as int / prefix_space(),
        parts.1 == id as int % prefix_space(),
{
    proof {
        lemma_split_bits(id);
        lemma_masks();
    }
    let prefix = id >> NUM_ROW_ID_PREFIX_BITS;
    let idx = id & ((1u64 << NUM_ROW_ID_PREFIX_BITS) - 1);
    (prefix, idx)
}

proof fn lemma_split_prefix_bits(id: u64)
    by (bit_vector)
    ensures
        id & 0x3ffu64 == id % 0x400u64,
        (!(id >> 10u64)) & 0x3f_ffffu64 == 0x3f_ffffu64 - (id / 0x400u64) % 0x40_0000u64,
{
}

/// Splits a prefix into the segment id (reversed back) and the block id.
pub fn split_prefix(id: u64) -> (parts: (u64, u64))
    ensures
        parts.0 == reversed_segment(id as int / block_id_space()),
        parts.1 == id as int % block_id_space(),
{
    proof {
        lemma_split_prefix_bits(id);
        lemma_masks();
    }
    let block_id = id & ((1u64 << NUM_BLOCK_ID_BITS) - 1);
    let seg_id = id >> NUM_BLOCK_ID_BITS;
    let seg_id = (!seg_id) & ((1u64 << NUM_SEGMENT_ID_BITS) - 1);
    (seg_id, block_id)
}

/// The id of the block at position `block_idx` of a segment of `block_num` blocks
/// (blocks are numbered from the end of the segment's block list).
pub fn block_id_in_segment(block_num: usize, block_idx: usize) -> (block_id: usize)
    requires
        block_idx < block_num,
    ensures
        block_id == block_num - block_idx - 1,
{
    block_num - block_idx - 1
}

/// The position in a segment of `block_num` blocks of the block whose id is `block_id`.
pub fn block_idx_in_segment(block_num: usize, block_id: usize) -> (block_idx: usize)
    requires
        block_id < block_num,
    ensures
        block_idx == block_num - (block_id + 1),
{
    block_num - (block_id + 1)
}

} // verus!
