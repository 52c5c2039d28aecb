//! Cache-line arithmetic for the cache control primitives.
//!
//! The range primitives (invalidate, flush, store, and their variants without
//! a trailing barrier) work on whole 32-byte lines: a range must start on a
//! line boundary and span whole lines. Requests that do not are refused here,
//! never rounded. The primitives themselves are instructions run by the
//! caller on the checked values.

use vstd::prelude::*;

verus! {

/// Size and alignment of a cache line, in bytes.
pub const CACHE_LINE: u32 = 32;

/// One past the last byte address.
pub const ADDRESS_SPACE_END: u64 = 0x1_0000_0000;

/// Why a range or block was refused.
#[derive(Clone, Copy, Debug, PartialEq, Eq)]
pub enum CacheError {
    /// The start is not on a line boundary, or the length is not a whole
    /// number of lines.
    Misaligned,
    /// The range runs past the end of the address space.
    OutOfRange,
}

/// A start and length that form a run of whole cache lines inside the
/// address space.
pub open spec fn is_line_range(start: u32, len: u32) -> bool {
    start % 32 == 0 && len % 32 == 0 && start + len <= ADDRESS_SPACE_END
}

/// A run of whole cache lines.
#[derive(Clone, Copy, Debug, PartialEq, Eq)]
pub struct CacheRange {
    start: u32,
    len: u32,
}

impl CacheRange {
    #[verifier::type_invariant]
    spec fn inv(&self) -> bool {
        is_line_range(self.start, self.len)
    }

    /// First byte address of the range.
    pub closed spec fn spec_start(&self) -> u32 {
        self.start
    }

    /// Length of the range in bytes.
    pub closed spec fn spec_len(&self) -> u32 {
        self.len
    }

    /// The range that starts at `start` and spans `len` bytes, refused unless
    /// both are whole lines and it ends inside the address space.
    pub fn new(start: u32, len: u32) -> (r: Result<CacheRange, CacheError>)
        ensures
            (start % 32 != 0 || len % 32 != 0) <==> r == Err::<CacheRange, CacheError>(
                CacheError::Misaligned,
            ),
            (start % 32 == 0 && len % 32 == 0 && start + len > ADDRESS_SPACE_END) <==> r == Err::<
                CacheRange,
                CacheError,
            >(CacheError::OutOfRange),
            r is Ok <==> is_line_range(start, len),
            r matches Ok(c) ==> c.spec_start() == start && c.spec_len() == len,
    {
        if start % CACHE_LINE != 0 || len % CACHE_LINE != 0 {
            Err(CacheError::Misaligned)
        } else if start as u64 + len as u64 > ADDRESS_SPACE_END {
            Err(CacheError::OutOfRange)
        } else {
            Ok(CacheRange { start, len })
        }
    }

    /// The whole lines that hold the `len` bytes at `addr`: from the line
    /// boundary at or below `addr` to the one at or above `addr + len`
    /// (no lines for no bytes).
    pub fn covering(addr: u32, len: u32) -> (r: Result<CacheRange, CacheError>)
        ensures
            r is Ok <==> covering_fits(addr, len),
            !covering_fits(addr, len) ==> r == Err::<CacheRange, CacheError>(
                CacheError::OutOfRange,
            ),
            r matches Ok(c) ==> c.spec_start() == line_floor(addr) && c.spec_len()
                == covering_end(addr, len) - line_floor(addr),
    {
        let start = addr - addr % CACHE_LINE;
        let end: u64 = if len == 0 {
            start as u64
        } else {
            let e = addr as u64 + len as u64 + 31;
            e - e % 32
        };
        if end > ADDRESS_SPACE_END || end - start as u64 > u32::MAX as u64 {
            return Err(CacheError::OutOfRange);
        }
        let c = CacheRange { start, len: (end - start as u64) as u32 };
        Ok(c)
    }

    /// First byte address of the range.
    pub fn start(&self) -> (r: u32)
        ensures
            r == self.spec_start(),
            is_line_range(self.spec_start(), self.spec_len()),
    {
        proof {
            use_type_invariant(self);
        }
        self.start
    }

    /// Length of the range in bytes.
    pub fn len(&self) -> (r: u32)
        ensures
            r == self.spec_len(),
            is_line_range(self.spec_start(), self.spec_len()),
    {
        proof {
            use_type_invariant(self);
        }
        self.len
    }
}

/// The line boundary at or below `a`.
pub open spec fn line_floor(a: u32) -> int {
    a - a % 32
}

/// The line boundary at or above the end of the `len` bytes at `addr`, or
/// `line_floor(addr)` for no bytes.
pub open spec fn covering_end(addr: u32, len: u32) -> int {
    if len == 0 {
        line_floor(addr)
    } else {
        (addr + len + 31) - (addr + len + 31) % 32
    }
}

/// Whether the lines covering the `len` bytes at `addr` form a range.
pub open spec fn covering_fits(addr: u32, len: u32) -> bool {
    covering_end(addr, len) <= ADDRESS_SPACE_END && covering_end(addr, len) - line_floor(addr)
        <= u32::MAX
}

/// The range primitives.
#[derive(Clone, Copy, Debug, PartialEq, Eq)]
pub enum RangeOp {
    /// Drop the data-cache lines of the range without writing them back.
    DataInvalidate,
    /// Write back, then invalidate; a barrier follows.
    DataFlush,
    /// Write back, keeping the lines valid; a barrier follows.
    DataStore,
    /// `DataFlush` without the barrier.
    DataFlushNoSync,
    /// `DataStore` without the barrier.
    DataStoreNoSync,
    /// Drop the instruction-cache lines of the range.
    InstructionInvalidate,
}

impl RangeOp {
    /// Whether the primitive ends with a memory barrier, so that its effect
    /// is complete when it returns.
    pub open spec fn spec_syncs(&self) -> bool {
        *self is DataFlush || *self is DataStore
    }

    /// Whether modified lines reach memory.
    pub open spec fn spec_writes_back(&self) -> bool {
        *self is DataFlush || *self is DataStore || *self is DataFlushNoSync
            || *self is DataStoreNoSync
    }

    /// Whether the primitive ends with a memory barrier.
    pub fn syncs(&self) -> (r: bool)
        ensures
            r == self.spec_syncs(),
    {
        match self {
            RangeOp::DataFlush | RangeOp::DataStore => true,
            _ => false,
        }
    }

    /// Whether modified lines reach memory.
    pub fn writes_back(&self) -> (r: bool)
        ensures
            r == self.spec_writes_back(),
    {
        match self {
            RangeOp::DataInvalidate | RangeOp::InstructionInvalidate => false,
            _ => true,
        }
    }
}

/// A range primitive with the range it is to run on.
#[derive(Clone, Copy, Debug, PartialEq, Eq)]
pub struct RangeCommand {
    pub op: RangeOp,
    pub range: CacheRange,
}

/// Checks a request to run `op` on `len` bytes at `start`: the command to
/// run, with the range exactly as asked, or why it is refused.
pub fn range_command(op: RangeOp, start: u32, len: u32) -> (r: Result<RangeCommand, CacheError>)
    ensures
        (start % 32 != 0 || len % 32 != 0) <==> r == Err::<RangeCommand, CacheError>(
            CacheError::Misaligned,
        ),
        r is Ok <==> is_line_range(start, len),
        r matches Ok(c) ==> c.op == op && c.range.spec_start() == start && c.range.spec_len()
            == len,
{
    match CacheRange::new(start, len) {
        Ok(range) => Ok(RangeCommand { op, range }),
        Err(e) => Err(e),
    }
}

/// Checks the address of an instruction-cache block to invalidate: it must
/// be on a line boundary.
pub fn block_address(addr: u32) -> (r: Result<u32, CacheError>)
    ensures
        addr % 32 == 0 ==> r == Ok::<u32, CacheError>(addr),
        addr % 32 != 0 ==> r == Err::<u32, CacheError>(CacheError::Misaligned),
{
    if addr % CACHE_LINE == 0 {
        Ok(addr)
    } else {
        Err(CacheError::Misaligned)
    }
}

/// The capability bit of HID4 that must be set before the L2 features can
/// be turned on.
pub const HID4_H4A: u32 = 0x8000_0000;

/// The HID4 feature bits: 64-byte fetch mode, dual castout buffers,
/// 2-deep miss-under-miss.
pub const HID4_L2_FEATURES: u32 = 0x2420_0000;

/// One step of turning on the extra L2 features.
#[derive(Clone, Copy, Debug, PartialEq, Eq)]
pub enum L2Step {
    /// Flush the data cache over a window, without the barrier.
    FlushNoSync { start: u32, len: u32 },
    /// Invalidate the whole L2 cache.
    InvalidateL2,
    /// Write this value to HID4.
    WriteHid4 { value: u32 },
    /// Enable the L2 cache.
    EnableL2,
}

/// The steps of turning on the extra L2 features, given HID4 as read with
/// interrupts disabled; the caller runs them, then restores interrupts.
/// Nothing is done unless the capability bit is set. There is no flush of
/// the L2 cache alone, so both cached memory windows are flushed.
#[allow(non_snake_case)]
pub fn L2Enhance(hid4: u32) -> (r: Vec<L2Step>)
    ensures
        hid4 & HID4_H4A == 0 ==> r@.len() == 0,
        hid4 & HID4_H4A != 0 ==> r@ == seq![
            L2Step::FlushNoSync { start: 0x8000_0000, len: 0x0180_0000 },
            L2Step::FlushNoSync { start: 0x9000_0000, len: 0x0400_0000 },
            L2Step::InvalidateL2,
            L2Step::WriteHid4 { value: hid4 | HID4_L2_FEATURES },
            L2Step::EnableL2,
        ],
{
    let mut steps: Vec<L2Step> = Vec::new();
    if hid4 & HID4_H4A != 0 {
        steps.push(L2Step::FlushNoSync { start: 0x8000_0000, len: 0x0180_0000 });
        steps.push(L2Step::FlushNoSync { start: 0x9000_0000, len: 0x0400_0000 });
        steps.push(L2Step::InvalidateL2);
        steps.push(L2Step::WriteHid4 { value: hid4 | HID4_L2_FEATURES });
        steps.push(L2Step::EnableL2);
    }
    steps
}

} // verus!
