use luma_core::cache::{block_address, range_command, CacheError, CacheRange, L2Enhance, L2Step, RangeOp};

#[test]
fn misaligned_start_is_refused() {
    for op in [RangeOp::DataInvalidate, RangeOp::DataFlush, RangeOp::DataStoreNoSync, RangeOp::InstructionInvalidate] {
        assert_eq!(range_command(op, 0x8000_0004, 64), Err(CacheError::Misaligned));
        assert_eq!(range_command(op, 0x8000_001f, 32), Err(CacheError::Misaligned));
    }
}

#[test]
fn partial_line_length_is_refused() {
    assert_eq!(range_command(RangeOp::DataFlush, 0x8000_0000, 31), Err(CacheError::Misaligned));
    assert_eq!(range_command(RangeOp::DataStore, 0x8000_0000, 33), Err(CacheError::Misaligned));
    assert_eq!(CacheRange::new(0x8000_0000, 1), Err(CacheError::Misaligned));
}

#[test]
fn aligned_range_is_kept_exactly() {
    let cmd = range_command(RangeOp::DataFlushNoSync, 0x8000_0040, 0x60).unwrap();
    assert_eq!(cmd.op, RangeOp::DataFlushNoSync);
    assert_eq!(cmd.range.start(), 0x8000_0040);
    assert_eq!(cmd.range.len(), 0x60);
    let empty = CacheRange::new(0, 0).unwrap();
    assert_eq!((empty.start(), empty.len()), (0, 0));
}

#[test]
fn range_past_the_end_is_refused() {
    assert_eq!(CacheRange::new(0xffff_ffe0, 64), Err(CacheError::OutOfRange));
    assert!(CacheRange::new(0xffff_ffe0, 32).is_ok());
}

#[test]
fn covering_lines_of_a_buffer() {
    let c = CacheRange::covering(0x8000_0005, 10).unwrap();
    assert_eq!((c.start(), c.len()), (0x8000_0000, 32));
    let c = CacheRange::covering(0x8000_001f, 2).unwrap();
    assert_eq!((c.start(), c.len()), (0x8000_0000, 64));
    let c = CacheRange::covering(0x8000_0040, 64).unwrap();
    assert_eq!((c.start(), c.len()), (0x8000_0040, 64));
    let c = CacheRange::covering(0x8000_0041, 0).unwrap();
    assert_eq!((c.start(), c.len()), (0x8000_0040, 0));
    let c = CacheRange::covering(0xffff_ffe1, 0x1f).unwrap();
    assert_eq!((c.start(), c.len()), (0xffff_ffe0, 32));
    assert_eq!(CacheRange::covering(0xffff_ffe1, 0x20), Err(CacheError::OutOfRange));
    assert_eq!(CacheRange::covering(0, u32::MAX), Err(CacheError::OutOfRange));
}

#[test]
fn block_address_must_be_aligned() {
    assert_eq!(block_address(0x8000_0020), Ok(0x8000_0020));
    assert_eq!(block_address(0x8000_0021), Err(CacheError::Misaligned));
}

#[test]
fn barrier_and_writeback_per_primitive() {
    assert!(RangeOp::DataFlush.syncs());
    assert!(RangeOp::DataStore.syncs());
    assert!(!RangeOp::DataFlushNoSync.syncs());
    assert!(!RangeOp::DataStoreNoSync.syncs());
    assert!(!RangeOp::DataInvalidate.writes_back());
    assert!(!RangeOp::InstructionInvalidate.writes_back());
    assert!(RangeOp::DataStoreNoSync.writes_back());
}

#[test]
fn l2_enhance_needs_capability_bit() {
    assert!(L2Enhance(0x0000_0000).is_empty());
    assert!(L2Enhance(0x7fff_ffff).is_empty());
}

#[test]
fn l2_enhance_steps() {
    let steps = L2Enhance(0x8000_0001);
    assert_eq!(
        steps,
        vec![
            L2Step::FlushNoSync { start: 0x8000_0000, len: 0x0180_0000 },
            L2Step::FlushNoSync { start: 0x9000_0000, len: 0x0400_0000 },
            L2Step::InvalidateL2,
            L2Step::WriteHid4 { value: 0xa420_0001 },
            L2Step::EnableL2,
        ]
    );
}
