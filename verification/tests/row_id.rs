use databend_query::row_id::{
    block_id_in_segment, block_idx_in_segment, compute_row_id, compute_row_id_prefix,
    split_prefix, split_row_id, NUM_BLOCK_ID_BITS, NUM_ROW_ID_PREFIX_BITS, NUM_SEGMENT_ID_BITS,
};

#[test]
fn bit_widths() {
    assert_eq!(NUM_BLOCK_ID_BITS, 10);
    assert_eq!(NUM_SEGMENT_ID_BITS, 22);
    assert_eq!(NUM_ROW_ID_PREFIX_BITS, 32);
}

#[test]
fn prefix_reverses_segment_id() {
    assert_eq!(compute_row_id_prefix(0, 0), 0xFFFF_FC00);
    assert_eq!(compute_row_id_prefix(1, 5), 0xFFFF_F805);
    assert_eq!(compute_row_id_prefix(0x3F_FFFF, 0x3FF), 0x3FF);
}

#[test]
fn prefix_keeps_low_bits_only() {
    // Only the low 22 bits of the segment id and the low 10 bits of the block id count.
    assert_eq!(compute_row_id_prefix(0x40_0000 + 7, 0x400 + 9), compute_row_id_prefix(7, 9));
}

#[test]
fn row_id_packs_prefix_and_offset() {
    assert_eq!(compute_row_id(0xFFFF_F805, 42), 0xFFFF_F805_0000_002A);
    assert_eq!(compute_row_id(1, 0x1_0000_0003), 0x1_0000_0003);
}

#[test]
fn split_row_id_inverts_compute_row_id() {
    let id = compute_row_id(0x1234_5678, 0x9ABC_DEF0);
    assert_eq!(split_row_id(id), (0x1234_5678, 0x9ABC_DEF0));
    assert_eq!(split_row_id(u64::MAX), (0xFFFF_FFFF, 0xFFFF_FFFF));
    let (p, i) = split_row_id(0xDEAD_BEEF_0BAD_F00D);
    assert_eq!(compute_row_id(p, i), 0xDEAD_BEEF_0BAD_F00D);
}

#[test]
fn split_prefix_inverts_compute_prefix() {
    for (seg, blk) in [(0u64, 0u64), (1, 5), (1000, 999), (0x3F_FFFF, 0x3FF)] {
        assert_eq!(split_prefix(compute_row_id_prefix(seg, blk)), (seg, blk));
    }
    assert_eq!(split_prefix(compute_row_id_prefix(0x40_0001, 0x401)), (1, 1));
    let p = 0x8765_4321u64;
    let (s, b) = split_prefix(p);
    assert_eq!(compute_row_id_prefix(s, b), p);
}

#[test]
fn newer_segments_have_larger_row_ids() {
    let newer = compute_row_id(compute_row_id_prefix(3, 0), 0);
    let older = compute_row_id(compute_row_id_prefix(4, 999), 1_000_000);
    assert!(newer > older);
    let first = compute_row_id(compute_row_id_prefix(3, 1), 7);
    let second = compute_row_id(compute_row_id_prefix(3, 2), 0);
    assert!(first < second);
    assert!(compute_row_id(compute_row_id_prefix(3, 1), 8) > first);
}

#[test]
fn block_id_and_index_are_inverse() {
    assert_eq!(block_id_in_segment(10, 3), 6);
    assert_eq!(block_idx_in_segment(10, 6), 3);
    assert_eq!(block_id_in_segment(1, 0), 0);
    for idx in 0..10 {
        assert_eq!(block_idx_in_segment(10, block_id_in_segment(10, idx)), idx);
    }
}
