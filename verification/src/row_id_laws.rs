//! Laws of the row-id encoding: what one function undoes of another, and how
//! the encoding orders rows.
use vstd::prelude::*;
use crate::row_id::{
    block_id_space, prefix_space, reversed_segment, row_id_of, row_id_prefix_of,
    segment_id_space,
};

verus! {

/// Every prefix fits in 32 bits, whatever segment and block it is made of.
pub proof fn lemma_prefix_fits(seg_id: u64, block_id: u64)
    ensures
        0 <= row_id_prefix_of(seg_id as int, block_id as int) < prefix_space(),
{
}

/// Splitting a row id gives back the prefix and the offset it was made of,
/// when both fit in 32 bits.
pub proof fn lemma_split_row_id_of_compute(prefix: u64, idx: u64)
    requires
        prefix < prefix_space(),
        idx < prefix_space(),
    ensures
        row_id_of(prefix as int, idx as int) / prefix_space() == prefix,
        row_id_of(prefix as int, idx as int) % prefix_space() == idx,
{
    let p = prefix as int;
    let i = idx as int;
    assert(row_id_of(p, i) == p * prefix_space() + i);
    vstd::arithmetic::div_mod::lemma_fundamental_div_mod_converse(
        p * prefix_space() + i,
        prefix_space(),
        p,
        i,
    );
}

/// Rebuilding a row id from its two halves gives back the row id.
pub proof fn lemma_compute_of_split_row_id(id: u64)
    ensures
        row_id_of(id as int / prefix_space(), id as int % prefix_space()) == id,
{
    let q = id as int / prefix_space();
    let r = id as int % prefix_space();
    vstd::arithmetic::div_mod::lemma_fundamental_div_mod(id as int, prefix_space());
    assert(q < prefix_space()) by {
        vstd::arithmetic::div_mod::lemma_div_is_ordered(id as int, 0xffff_ffff_ffff_ffff, prefix_space());
    }
    assert(q % prefix_space() == q) by {
        vstd::arithmetic::div_mod::lemma_small_mod(q as nat, prefix_space() as nat);
    }
    assert(r % prefix_space() == r) by {
        vstd::arithmetic::div_mod::lemma_small_mod(r as nat, prefix_space() as nat);
    }
}

/// Splitting a prefix gives back the segment id and the block id it was built
/// from, each reduced to the bits that a prefix holds.
pub proof fn lemma_split_prefix_of_compute(seg_id: u64, block_id: u64)
    ensures
        reversed_segment(row_id_prefix_of(seg_id as int, block_id as int) / block_id_space())
            == seg_id as int % segment_id_space(),
        row_id_prefix_of(seg_id as int, block_id as int) % block_id_space()
            == block_id as int % block_id_space(),
{
    let rs = reversed_segment(seg_id as int);
    let b = block_id as int % block_id_space();
    vstd::arithmetic::div_mod::lemma_fundamental_div_mod_converse(
        rs * block_id_space() + b,
        block_id_space(),
        rs,
        b,
    );
    assert(rs % segment_id_space() == rs) by {
        vstd::arithmetic::div_mod::lemma_small_mod(rs as nat, segment_id_space() as nat);
    }
}

/// Rebuilding a 32-bit prefix from the segment and block ids it splits into
/// gives back the prefix.
pub proof fn lemma_compute_of_split_prefix(prefix: u64)
    requires
        prefix < prefix_space(),
    ensures
        row_id_prefix_of(
            reversed_segment(prefix as int / block_id_space()),
            prefix as int % block_id_space(),
        ) == prefix,
{
    let q = prefix as int / block_id_space();
    let r = prefix as int % block_id_space();
    vstd::arithmetic::div_mod::lemma_fundamental_div_mod(prefix as int, block_id_space());
    assert(q < segment_id_space());
    assert(q % segment_id_space() == q) by {
        vstd::arithmetic::div_mod::lemma_small_mod(q as nat, segment_id_space() as nat);
    }
    let s = reversed_segment(q);
    assert(s == segment_id_space() - 1 - q);
    assert(s % segment_id_space() == s) by {
        vstd::arithmetic::div_mod::lemma_small_mod(s as nat, segment_id_space() as nat);
    }
    assert(r % block_id_space() == r) by {
        vstd::arithmetic::div_mod::lemma_small_mod(r as nat, block_id_space() as nat);
    }
}

/// Row ids order rows by prefix first and by offset within the same prefix.
pub proof fn lemma_row_id_order(prefix1: u64, idx1: u64, prefix2: u64, idx2: u64)
    ensures
        row_id_of(prefix1 as int, idx1 as int) < row_id_of(prefix2 as int, idx2 as int) <==> (
        prefix1 as int % prefix_space() < prefix2 as int % prefix_space() || (prefix1 as int
            % prefix_space() == prefix2 as int % prefix_space() && idx1 as int % prefix_space()
            < idx2 as int % prefix_space())),
{
    let p1 = prefix1 as int % prefix_space();
    let p2 = prefix2 as int % prefix_space();
    let i1 = idx1 as int % prefix_space();
    let i2 = idx2 as int % prefix_space();
    if p1 < p2 {
        assert(p1 * prefix_space() + prefix_space() <= p2 * prefix_space()) by (nonlinear_arith)
            requires
                p1 < p2,
        ;
    } else if p2 < p1 {
        assert(p2 * prefix_space() + prefix_space() <= p1 * prefix_space()) by (nonlinear_arith)
            requires
                p2 < p1,
        ;
    }
}

/// Prefixes order blocks by segment, a newer segment (a smaller segment id)
/// first giving the larger prefix, and by block id within the same segment.
pub proof fn lemma_prefix_order(seg1: u64, block1: u64, seg2: u64, block2: u64)
    ensures
        row_id_prefix_of(seg1 as int, block1 as int) < row_id_prefix_of(seg2 as int, block2 as int)
            <==> (seg1 as int % segment_id_space() > seg2 as int % segment_id_space() || (seg1 as int
            % segment_id_space() == seg2 as int % segment_id_space() && block1 as int
            % block_id_space() < block2 as int % block_id_space())),
{
    let r1 = reversed_segment(seg1 as int);
    let r2 = reversed_segment(seg2 as int);
    if r1 < r2 {
        assert(r1 * block_id_space() + block_id_space() <= r2 * block_id_space()) by (nonlinear_arith)
            requires
                r1 < r2,
        ;
    } else if r2 < r1 {
        assert(r2 * block_id_space() + block_id_space() <= r1 * block_id_space()) by (nonlinear_arith)
            requires
                r2 < r1,
        ;
    }
}

/// The position of a block and its id in a segment are each other's image:
/// the id of the block at position `block_idx` is found back at that position.
pub proof fn lemma_block_idx_of_block_id(block_num: usize, block_idx: usize)
    requires
        block_idx < block_num,
    ensures
        0 <= block_num - block_idx - 1 < block_num,
        block_num - ((block_num - block_idx - 1) + 1) == block_idx,
{
}

/// The id of the block at the position of block `block_id` is `block_id`.
pub proof fn lemma_block_id_of_block_idx(block_num: usize, block_id: usize)
    requires
        block_id < block_num,
    ensures
        0 <= block_num - (block_id + 1) < block_num,
        block_num - (block_num - (block_id + 1)) - 1 == block_id,
{
}

} // verus!
