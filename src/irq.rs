//! The interrupt controller: which line a hardware exception is for, and
//! which registered handler, if any, should run for it.
//!
//! Interrupt lines are numbered 0..32; line `n` owns the mask bit
//! `0x8000_0000 >> n`, so a lower line number is a more significant bit.
//! Reading the cause and device status registers and calling the handler are
//! the caller's part: `InterruptController::dispatch` takes the register
//! values and says what to run.

use vstd::prelude::*;

verus! {

pub const IRQ_MEM0: u32 = 0;
pub const IRQ_MEM1: u32 = 1;
pub const IRQ_MEM2: u32 = 2;
pub const IRQ_MEM3: u32 = 3;
pub const IRQ_MEMADDRESS: u32 = 4;
pub const IRQ_DSP_AI: u32 = 5;
pub const IRQ_DSP_ARAM: u32 = 6;
pub const IRQ_DSP_DSP: u32 = 7;
pub const IRQ_AI: u32 = 8;
pub const IRQ_EXI0_EXI: u32 = 9;
pub const IRQ_EXI0_TC: u32 = 10;
pub const IRQ_EXI0_EXT: u32 = 11;
pub const IRQ_EXI1_EXI: u32 = 12;
pub const IRQ_EXI1_TC: u32 = 13;
pub const IRQ_EXI1_EXT: u32 = 14;
pub const IRQ_EXI2_EXI: u32 = 15;
pub const IRQ_EXI2_TC: u32 = 16;
pub const IRQ_PI_CP: u32 = 17;
pub const IRQ_PI_PETOKEN: u32 = 18;
pub const IRQ_PI_PEFINISH: u32 = 19;
pub const IRQ_PI_SI: u32 = 20;
pub const IRQ_PI_DI: u32 = 21;
pub const IRQ_PI_RSW: u32 = 22;
pub const IRQ_PI_ERROR: u32 = 23;
pub const IRQ_PI_VI: u32 = 24;
pub const IRQ_PI_DEBUG: u32 = 25;
pub const IRQ_PI_HSP: u32 = 26;
/// Number of interrupt lines, and of handler slots.
pub const IRQ_MAX: u32 = 32;

pub const IM_MEM: u32 = 0xf800_0000;
pub const IM_DSP_AI: u32 = 0x0400_0000;
pub const IM_DSP_ARAM: u32 = 0x0200_0000;
pub const IM_DSP_DSP: u32 = 0x0100_0000;
pub const IM_AI: u32 = 0x0080_0000;
pub const IM_EXI: u32 = 0x007f_8000;
pub const IM_PI_CP: u32 = 0x0000_4000;
pub const IM_PI_PETOKEN: u32 = 0x0000_2000;
pub const IM_PI_PEFINISH: u32 = 0x0000_1000;
pub const IM_PI_SI: u32 = 0x0000_0800;
pub const IM_PI_DI: u32 = 0x0000_0400;
pub const IM_PI_RSW: u32 = 0x0000_0200;
pub const IM_PI_ERROR: u32 = 0x0000_0100;
pub const IM_PI_VI: u32 = 0x0000_0080;
pub const IM_PI_DEBUG: u32 = 0x0000_0040;
pub const IM_PI_HSP: u32 = 0x0000_0020;

/// Number of groups in the priority table.
pub const PRIORITY_GROUPS: usize = 12;

/// The status bit of the processor-interface cause register that never
/// names an interrupt source.
pub const CAUSE_RESERVED: u32 = 0x0001_0000;

/// Whether line `n` is set in mask `m`.
pub open spec fn has_line(m: u32, n: u32) -> bool {
    m & (0x8000_0000u32 >> n) != 0
}

/// The priority table: group `k` is the set of lines it holds; earlier
/// groups win. The last two groups hold every line.
pub open spec fn priority_group(k: int) -> u32 {
    if k == 0 {
        IM_PI_ERROR
    } else if k == 1 {
        IM_PI_DEBUG
    } else if k == 2 {
        IM_MEM
    } else if k == 3 {
        IM_PI_RSW
    } else if k == 4 {
        IM_PI_VI
    } else if k == 5 {
        IM_PI_PETOKEN | IM_PI_PEFINISH
    } else if k == 6 {
        IM_PI_HSP
    } else if k == 7 {
        IM_DSP_ARAM | IM_DSP_DSP | IM_AI | IM_EXI | IM_PI_SI | IM_PI_DI
    } else if k == 8 {
        IM_DSP_AI
    } else if k == 9 {
        IM_PI_CP
    } else {
        0xffff_ffff
    }
}

/// The first group, from `k` on, that shares a line with `m`
/// (`PRIORITY_GROUPS` when none does).
pub open spec fn first_group_from(m: u32, k: int) -> int
    decreases PRIORITY_GROUPS - k,
{
    if k >= PRIORITY_GROUPS {
        PRIORITY_GROUPS as int
    } else if m & priority_group(k) != 0 {
        k
    } else {
        first_group_from(m, k + 1)
    }
}

/// The highest-priority group that shares a line with `m`.
pub open spec fn first_group(m: u32) -> int {
    first_group_from(m, 0)
}

/// The lowest-numbered line set in `m`, from line `n` on (32 when none is).
pub open spec fn lowest_line_from(m: u32, n: u32) -> u32
    decreases 32 - n,
{
    if n >= 32 {
        32
    } else if has_line(m, n) {
        n
    } else {
        lowest_line_from(m, (n + 1) as u32)
    }
}

/// The line that wins arbitration among the lines of `m`: the lowest-numbered
/// line of the first priority group that holds one of them.
pub open spec fn winning_line(m: u32) -> u32 {
    lowest_line_from(m & priority_group(first_group(m)), 0)
}

/// The values read from the interrupt registers on one exception.
#[derive(Clone, Copy, Debug, PartialEq, Eq)]
pub struct InterruptSources {
    /// Processor-interface cause register.
    pub cause: u32,
    /// Processor-interface mask register.
    pub mask: u32,
    /// Memory-controller interrupt status (word 15 of its block).
    pub mem_status: u16,
    /// DSP control and status (word 5 of its block).
    pub dsp_status: u16,
    /// Streaming-audio control (word 0 of its block).
    pub ai_status: u32,
    /// Status of serial-bus channel 0 (word 0 of the bus block).
    pub exi0_status: u32,
    /// Status of serial-bus channel 1 (word 5).
    pub exi1_status: u32,
    /// Status of serial-bus channel 2 (word 10).
    pub exi2_status: u32,
}

/// The cause register with its reserved status bit masked out.
pub open spec fn cause_of(src: InterruptSources) -> u32 {
    src.cause & !CAUSE_RESERVED
}

/// An exception with nothing to service: no cause, or every cause masked.
pub open spec fn is_spurious(src: InterruptSources) -> bool {
    cause_of(src) == 0 || cause_of(src) & src.mask == 0
}

/// Whether line `n` is raised: its device class is named in the cause
/// register and the device's own status shows the line's condition.
pub open spec fn line_raised(n: u32, src: InterruptSources) -> bool {
    let c = cause_of(src);
    let mem = c & 0x80 != 0;
    let dsp = c & 0x40 != 0;
    let ai = c & 0x20 != 0;
    let exi = c & 0x10 != 0;
    if n == IRQ_MEM0 {
        mem && src.mem_status & 0x1 != 0
    } else if n == IRQ_MEM1 {
        mem && src.mem_status & 0x2 != 0
    } else if n == IRQ_MEM2 {
        mem && src.mem_status & 0x4 != 0
    } else if n == IRQ_MEM3 {
        mem && src.mem_status & 0x8 != 0
    } else if n == IRQ_MEMADDRESS {
        mem && src.mem_status & 0x10 != 0
    } else if n == IRQ_DSP_AI {
        dsp && src.dsp_status & 0x8 != 0
    } else if n == IRQ_DSP_ARAM {
        dsp && src.dsp_status & 0x20 != 0
    } else if n == IRQ_DSP_DSP {
        dsp && src.dsp_status & 0x80 != 0
    } else if n == IRQ_AI {
        ai && src.ai_status & 0x8 != 0
    } else if n == IRQ_EXI0_EXI {
        exi && src.exi0_status & 0x2 != 0
    } else if n == IRQ_EXI0_TC {
        exi && src.exi0_status & 0x8 != 0
    } else if n == IRQ_EXI0_EXT {
        exi && src.exi0_status & 0x800 != 0
    } else if n == IRQ_EXI1_EXI {
        exi && src.exi1_status & 0x2 != 0
    } else if n == IRQ_EXI1_TC {
        exi && src.exi1_status & 0x8 != 0
    } else if n == IRQ_EXI1_EXT {
        exi && src.exi1_status & 0x800 != 0
    } else if n == IRQ_EXI2_EXI {
        exi && src.exi2_status & 0x2 != 0
    } else if n == IRQ_EXI2_TC {
        exi && src.exi2_status & 0x8 != 0
    } else {
        false
    }
}

/// The mask of the raised lines among lines `0..n`.
pub open spec fn raised_below(src: InterruptSources, n: u32) -> u32
    decreases n,
{
    if n == 0 {
        0
    } else {
        raised_below(src, (n - 1) as u32) | (if line_raised((n - 1) as u32, src) {
            0x8000_0000u32 >> ((n - 1) as u32)
        } else {
            0
        })
    }
}

/// The mask of every raised line.
pub open spec fn raised_lines(src: InterruptSources) -> u32 {
    raised_below(src, IRQ_MAX)
}

proof fn lemma_or_line(a: u32, k: u32, n: u32)
    requires
        k < 32,
        n < 32,
    ensures
        has_line(a | (0x8000_0000u32 >> k), n) == (has_line(a, n) || n == k),
        has_line(a | 0, n) == has_line(a, n),
{
    assert(((a | (0x8000_0000u32 >> k)) & (0x8000_0000u32 >> n) != 0) == ((a & (0x8000_0000u32
        >> n) != 0) || n == k)) by (bit_vector)
        requires
            k < 32,
            n < 32,
    ;
    assert(a | 0 == a) by (bit_vector);
}

/// Line `n` is set in the mask of the lines raised below `k` exactly when it
/// is one of them and raised.
proof fn lemma_raised_below(src: InterruptSources, k: u32, n: u32)
    requires
        k <= 32,
        n < 32,
    ensures
        has_line(raised_below(src, k), n) == (n < k && line_raised(n, src)),
    decreases k,
{
    if k == 0 {
        assert(0u32 & (0x8000_0000u32 >> n) == 0) by (bit_vector);
    } else {
        let j = (k - 1) as u32;
        lemma_raised_below(src, j, n);
        lemma_or_line(raised_below(src, j), j, n);
    }
}

/// A line is in the raised mask exactly when it is raised.
pub proof fn lemma_raised_lines(src: InterruptSources, n: u32)
    requires
        n < 32,
    ensures
        has_line(raised_lines(src), n) == line_raised(n, src),
{
    lemma_raised_below(src, IRQ_MAX, n);
}

/// Group `k` of the priority table.
pub fn priority_mask(k: usize) -> (r: u32)
    requires
        k < PRIORITY_GROUPS,
    ensures
        r == priority_group(k as int),
{
    match k {
        0 => IM_PI_ERROR,
        1 => IM_PI_DEBUG,
        2 => IM_MEM,
        3 => IM_PI_RSW,
        4 => IM_PI_VI,
        5 => IM_PI_PETOKEN | IM_PI_PEFINISH,
        6 => IM_PI_HSP,
        7 => IM_DSP_ARAM | IM_DSP_DSP | IM_AI | IM_EXI | IM_PI_SI | IM_PI_DI,
        8 => IM_DSP_AI,
        9 => IM_PI_CP,
        _ => 0xffff_ffff,
    }
}

/// Whether line `n` is raised by the register values `src`.
fn is_line_raised(n: u32, src: &InterruptSources) -> (r: bool)
    ensures
        r == line_raised(n, *src),
{
    let c = src.cause & !CAUSE_RESERVED;
    let mem = c & 0x80 != 0;
    let dsp = c & 0x40 != 0;
    let ai = c & 0x20 != 0;
    let exi = c & 0x10 != 0;
    match n {
        IRQ_MEM0 => mem && src.mem_status & 0x1 != 0,
        IRQ_MEM1 => mem && src.mem_status & 0x2 != 0,
        IRQ_MEM2 => mem && src.mem_status & 0x4 != 0,
        IRQ_MEM3 => mem && src.mem_status & 0x8 != 0,
        IRQ_MEMADDRESS => mem && src.mem_status & 0x10 != 0,
        IRQ_DSP_AI => dsp && src.dsp_status & 0x8 != 0,
        IRQ_DSP_ARAM => dsp && src.dsp_status & 0x20 != 0,
        IRQ_DSP_DSP => dsp && src.dsp_status & 0x80 != 0,
        IRQ_AI => ai && src.ai_status & 0x8 != 0,
        IRQ_EXI0_EXI => exi && src.exi0_status & 0x2 != 0,
        IRQ_EXI0_TC => exi && src.exi0_status & 0x8 != 0,
        IRQ_EXI0_EXT => exi && src.exi0_status & 0x800 != 0,
        IRQ_EXI1_EXI => exi && src.exi1_status & 0x2 != 0,
        IRQ_EXI1_TC => exi && src.exi1_status & 0x8 != 0,
        IRQ_EXI1_EXT => exi && src.exi1_status & 0x800 != 0,
        IRQ_EXI2_EXI => exi && src.exi2_status & 0x2 != 0,
        IRQ_EXI2_TC => exi && src.exi2_status & 0x8 != 0,
        _ => false,
    }
}

/// Translates the device status registers into the mask of raised lines.
pub fn pending_lines(src: &InterruptSources) -> (r: u32)
    ensures
        r == raised_lines(*src),
        forall|n: u32| n < 32 ==> (has_line(r, n) <==> line_raised(n, *src)),
{
    let mut m: u32 = 0;
    let mut n: u32 = 0;
    while n < IRQ_MAX
        invariant
            n <= IRQ_MAX,
            m == raised_below(*src, n),
        decreases IRQ_MAX - n,
    {
        let raised = is_line_raised(n, src);
        m = m | (if raised {
            0x8000_0000u32 >> n
        } else {
            0
        });
        n = n + 1;
    }
    proof {
        assert forall|n: u32| n < 32 implies (has_line(m, n) <==> line_raised(n, *src)) by {
            lemma_raised_lines(*src, n);
        }
    }
    m
}

/// The line that wins arbitration among the lines of a non-empty mask.
pub fn select_line(m: u32) -> (r: u32)
    requires
        m != 0,
    ensures
        r == winning_line(m),
        r < IRQ_MAX,
        first_group(m) < PRIORITY_GROUPS,
        has_line(m & priority_group(first_group(m)), r),
{
    let mut k: usize = 0;
    assert(m & 0xffff_ffffu32 == m) by (bit_vector);
    while k < 10 && m & priority_mask(k) == 0
        invariant
            k <= 10,
            m != 0,
            m & 0xffff_ffffu32 == m,
            first_group_from(m, 0) == first_group_from(m, k as int),
        decreases 10 - k,
    {
        k = k + 1;
    }
    let x = m & priority_mask(k);
    assert(first_group(m) == k);
    let mut n: u32 = 0;
    assert(x & !(u32::MAX >> 0u32) == 0) by (bit_vector);
    while n < 31 && x & (0x8000_0000u32 >> n) == 0
        invariant
            n <= 31,
            x != 0,
            x & !(u32::MAX >> n) == 0,
            lowest_line_from(x, 0) == lowest_line_from(x, n),
        decreases 31 - n,
    {
        assert(x & !(u32::MAX >> ((n + 1) as u32)) == 0) by (bit_vector)
            requires
                n < 31,
                x & !(u32::MAX >> n) == 0,
                x & (0x8000_0000u32 >> n) == 0,
        ;
        n = n + 1;
    }
    if n == 31 {
        assert(x & (0x8000_0000u32 >> 31u32) != 0) by (bit_vector)
            requires
                x != 0,
                x & !(u32::MAX >> 31u32) == 0,
        ;
    }
    assert(has_line(x, n));
    n
}

proof fn lemma_first_group_from(m: u32, k: int, j: int)
    requires
        0 <= k <= j < PRIORITY_GROUPS,
        m & priority_group(j) != 0,
    ensures
        k <= first_group_from(m, k) <= j,
        m & priority_group(first_group_from(m, k)) != 0,
    decreases j - k,
{
    if m & priority_group(k) == 0 {
        lemma_first_group_from(m, k + 1, j);
    }
}

proof fn lemma_lowest_line_from(x: u32, n: u32)
    requires
        n <= 31,
        x != 0,
        x & !(u32::MAX >> n) == 0,
    ensures
        n <= lowest_line_from(x, n) < 32,
        has_line(x, lowest_line_from(x, n)),
    decreases 31 - n,
{
    if n == 31 {
        assert(x & (0x8000_0000u32 >> 31u32) != 0) by (bit_vector)
            requires
                x != 0,
                x & !(u32::MAX >> 31u32) == 0,
        ;
    } else if !has_line(x, n) {
        assert(x & !(u32::MAX >> ((n + 1) as u32)) == 0) by (bit_vector)
            requires
                n < 31,
                x & !(u32::MAX >> n) == 0,
                x & (0x8000_0000u32 >> n) == 0,
        ;
        lemma_lowest_line_from(x, (n + 1) as u32);
    }
}

/// Arbitration between priority groups: when group `j` holds one of the lines
/// of `m`, the winning line comes from group `j` or an earlier one, and it is
/// one of the lines of `m` that its group holds.
pub proof fn lemma_earlier_group_wins(m: u32, j: int)
    requires
        0 <= j < PRIORITY_GROUPS,
        m & priority_group(j) != 0,
    ensures
        first_group(m) <= j,
        winning_line(m) < IRQ_MAX,
        has_line(m, winning_line(m)),
        has_line(priority_group(first_group(m)), winning_line(m)),
        forall|n: u32| n < winning_line(m) ==> !has_line(m & priority_group(first_group(m)), n),
{
    lemma_first_group_from(m, 0, j);
    let g = priority_group(first_group(m));
    let x = m & g;
    assert(x & !(u32::MAX >> 0u32) == 0) by (bit_vector);
    lemma_lowest_line_from(x, 0);
    let w = winning_line(m);
    assert(has_line(m, w) && has_line(g, w)) by (bit_vector)
        requires
            x == m & g,
            x & (0x8000_0000u32 >> w) != 0,
    ;
    assert forall|n: u32| n < w implies !has_line(x, n) by {
        lemma_lowest_line_below(x, 0, n);
    }
}

proof fn lemma_lowest_line_below(x: u32, k: u32, n: u32)
    requires
        k <= n < lowest_line_from(x, k),
    ensures
        !has_line(x, n),
    decreases n - k,
{
    if k < n {
        lemma_lowest_line_below(x, (k + 1) as u32, n);
    }
}

/// Arbitration from the registers: when line `n` of priority group `j` is
/// raised and neither in service nor just completed, the line dispatched
/// comes from group `j` or an earlier one, and is itself raised and free.
pub proof fn lemma_raised_line_bounds_winner(
    src: InterruptSources,
    prev: u32,
    cur: u32,
    n: u32,
    j: int,
)
    requires
        n < IRQ_MAX,
        0 <= j < PRIORITY_GROUPS,
        line_raised(n, src),
        has_line(priority_group(j), n),
        !has_line(prev, n),
        !has_line(cur, n),
    ensures
        fresh_lines(src, prev, cur) != 0,
        first_group(fresh_lines(src, prev, cur)) <= j,
        winning_line(fresh_lines(src, prev, cur)) < IRQ_MAX,
        line_raised(winning_line(fresh_lines(src, prev, cur)), src),
        !has_line(prev, winning_line(fresh_lines(src, prev, cur))),
        !has_line(cur, winning_line(fresh_lines(src, prev, cur))),
{
    lemma_raised_lines(src, n);
    let r = raised_lines(src);
    let f = fresh_lines(src, prev, cur);
    let g = priority_group(j);
    assert(f != 0 && f & g != 0) by (bit_vector)
        requires
            n < 32,
            f == r & !(prev | cur),
            r & (0x8000_0000u32 >> n) != 0,
            g & (0x8000_0000u32 >> n) != 0,
            prev & (0x8000_0000u32 >> n) == 0,
            cur & (0x8000_0000u32 >> n) == 0,
    ;
    lemma_earlier_group_wins(f, j);
    let w = winning_line(f);
    assert(has_line(r, w) && !has_line(prev, w) && !has_line(cur, w)) by (bit_vector)
        requires
            f == r & !(prev | cur),
            f & (0x8000_0000u32 >> w) != 0,
    ;
    lemma_raised_lines(src, w);
}

/// Debounce: a line that is in service (`cur`) or was just completed
/// (`prev`) is never the one selected, whatever is raised.
pub proof fn lemma_in_service_not_reselected(src: InterruptSources, prev: u32, cur: u32, n: u32)
    requires
        n < IRQ_MAX,
        has_line(cur, n) || has_line(prev, n),
        fresh_lines(src, prev, cur) != 0,
    ensures
        winning_line(fresh_lines(src, prev, cur)) != n,
{
    let f = fresh_lines(src, prev, cur);
    assert(f & 0xffff_ffffu32 != 0) by (bit_vector)
        requires
            f != 0,
    ;
    assert(f & priority_group(10) != 0);
    lemma_earlier_group_wins(f, 10);
    let w = winning_line(f);
    let r = raised_lines(src);
    assert(!has_line(cur, w) && !has_line(prev, w)) by (bit_vector)
        requires
            f == r & !(prev | cur),
            f & (0x8000_0000u32 >> w) != 0,
    ;
}

/// A registered interrupt handler: which routine of the caller's to run, and
/// the opaque context value handed to it with the line number.
#[derive(Clone, Copy, Debug, PartialEq, Eq)]
pub struct Handler {
    pub routine: u32,
    pub context: usize,
}

/// What one exception calls for.
#[derive(Clone, Copy, Debug, PartialEq, Eq)]
pub enum Dispatch {
    /// No cause, or every cause masked: counted as spurious, nothing runs.
    Spurious,
    /// Every raised line is already in service or was just completed.
    Idle,
    /// The winning line has no handler: it is dropped, and counted.
    Dropped { irq: u32 },
    /// Run `handler` for line `irq`.
    Invoke { irq: u32, handler: Handler },
}

/// A line number beyond the handler table.
#[derive(Clone, Copy, Debug, PartialEq, Eq)]
pub enum IrqError {
    NoSuchLine,
}

/// Counter step that stops at the largest value instead of wrapping.
pub open spec fn bumped(c: u64) -> u64 {
    if c < u64::MAX {
        (c + 1) as u64
    } else {
        c
    }
}

/// The lines of `src` that may be dispatched now: raised, and neither in
/// service (`cur`) nor completed just before (`prev`).
pub open spec fn fresh_lines(src: InterruptSources, prev: u32, cur: u32) -> u32 {
    raised_lines(src) & !(prev | cur)
}

/// The interrupt controller: one handler slot per line, the debounce masks
/// and the spurious and dropped counters.
pub struct InterruptController {
    handlers: Vec<Option<Handler>>,
    spurious: u64,
    dropped: u64,
    prev_mask: u32,
    cur_mask: u32,
}

impl InterruptController {
    /// The handler slots, indexed by line number.
    pub closed spec fn slots(&self) -> Seq<Option<Handler>> {
        self.handlers@
    }

    /// How many exceptions were spurious.
    pub closed spec fn spurious_spec(&self) -> u64 {
        self.spurious
    }

    /// How many selected lines had no handler.
    pub closed spec fn dropped_spec(&self) -> u64 {
        self.dropped
    }

    /// Lines completed by the last `complete`.
    pub closed spec fn prev_spec(&self) -> u32 {
        self.prev_mask
    }

    /// Lines dispatched since the last `complete`.
    pub closed spec fn cur_spec(&self) -> u32 {
        self.cur_mask
    }

    pub open spec fn wf(&self) -> bool {
        self.slots().len() == IRQ_MAX
    }

    /// A controller with no handlers, clear masks and zero counters.
    pub fn new() -> (r: InterruptController)
        ensures
            r.wf(),
            forall|n: int| 0 <= n < IRQ_MAX ==> r.slots()[n] is None,
            r.spurious_spec() == 0,
            r.dropped_spec() == 0,
            r.prev_spec() == 0,
            r.cur_spec() == 0,
    {
        let mut handlers: Vec<Option<Handler>> = Vec::new();
        let mut n: u32 = 0;
        while n < IRQ_MAX
            invariant
                n <= IRQ_MAX,
                handlers@.len() == n,
                forall|i: int| 0 <= i < n ==> handlers@[i] is None,
            decreases IRQ_MAX - n,
        {
            handlers.push(None);
            n = n + 1;
        }
        InterruptController { handlers, spurious: 0, dropped: 0, prev_mask: 0, cur_mask: 0 }
    }

    /// Installs `handler` for line `irq`, replacing and returning the one
    /// that was there.
    pub fn register(&mut self, irq: u32, handler: Handler) -> (r: Result<Option<Handler>, IrqError>)
        requires
            old(self).wf(),
        ensures
            final(self).wf(),
            irq >= IRQ_MAX ==> r == Err::<Option<Handler>, IrqError>(IrqError::NoSuchLine)
                && *final(self) == *old(self),
            irq < IRQ_MAX ==> r == Ok::<Option<Handler>, IrqError>(old(self).slots()[irq as int])
                && final(self).slots() == old(self).slots().update(irq as int, Some(handler)),
            final(self).spurious_spec() == old(self).spurious_spec(),
            final(self).dropped_spec() == old(self).dropped_spec(),
            final(self).prev_spec() == old(self).prev_spec(),
            final(self).cur_spec() == old(self).cur_spec(),
    {
        if irq >= IRQ_MAX {
            return Err(IrqError::NoSuchLine);
        }
        let previous = self.handlers[irq as usize];
        self.handlers.set(irq as usize, Some(handler));
        Ok(previous)
    }

    /// Removes and returns the handler of line `irq`.
    pub fn unregister(&mut self, irq: u32) -> (r: Result<Option<Handler>, IrqError>)
        requires
            old(self).wf(),
        ensures
            final(self).wf(),
            irq >= IRQ_MAX ==> r == Err::<Option<Handler>, IrqError>(IrqError::NoSuchLine)
                && *final(self) == *old(self),
            irq < IRQ_MAX ==> r == Ok::<Option<Handler>, IrqError>(old(self).slots()[irq as int])
                && final(self).slots() == old(self).slots().update(irq as int, None),
            final(self).spurious_spec() == old(self).spurious_spec(),
            final(self).dropped_spec() == old(self).dropped_spec(),
            final(self).prev_spec() == old(self).prev_spec(),
            final(self).cur_spec() == old(self).cur_spec(),
    {
        if irq >= IRQ_MAX {
            return Err(IrqError::NoSuchLine);
        }
        let previous = self.handlers[irq as usize];
        self.handlers.set(irq as usize, None);
        Ok(previous)
    }

    /// The handler of line `irq`, if any.
    pub fn handler(&self, irq: u32) -> (r: Option<Handler>)
        requires
            self.wf(),
        ensures
            irq >= IRQ_MAX ==> r is None,
            irq < IRQ_MAX ==> r == self.slots()[irq as int],
    {
        if irq >= IRQ_MAX {
            None
        } else {
            self.handlers[irq as usize]
        }
    }

    /// How many exceptions were spurious.
    pub fn spurious_count(&self) -> (r: u64)
        ensures
            r == self.spurious_spec(),
    {
        self.spurious
    }

    /// How many selected lines had no handler and were dropped.
    pub fn dropped_count(&self) -> (r: u64)
        ensures
            r == self.dropped_spec(),
    {
        self.dropped
    }

    /// Lines dispatched since the last `complete`.
    pub fn current_mask(&self) -> (r: u32)
        ensures
            r == self.cur_spec(),
    {
        self.cur_mask
    }

    /// Lines completed by the last `complete`.
    pub fn previous_mask(&self) -> (r: u32)
        ensures
            r == self.prev_spec(),
    {
        self.prev_mask
    }

    /// Decides what one exception calls for, from the register values read on
    /// entry. A selected line is marked as in service until `complete`.
    pub fn dispatch(&mut self, src: &InterruptSources) -> (r: Dispatch)
        requires
            old(self).wf(),
        ensures
            final(self).wf(),
            final(self).slots() == old(self).slots(),
            final(self).prev_spec() == old(self).prev_spec(),
            is_spurious(*src) ==> r == Dispatch::Spurious
                && final(self).spurious_spec() == bumped(old(self).spurious_spec())
                && final(self).dropped_spec() == old(self).dropped_spec()
                && final(self).cur_spec() == old(self).cur_spec(),
            !is_spurious(*src) ==> final(self).spurious_spec() == old(self).spurious_spec(),
            !is_spurious(*src) && fresh_lines(*src, old(self).prev_spec(), old(self).cur_spec()) == 0
                ==> r == Dispatch::Idle
                && final(self).dropped_spec() == old(self).dropped_spec()
                && final(self).cur_spec() == old(self).cur_spec(),
            ({
                let f = fresh_lines(*src, old(self).prev_spec(), old(self).cur_spec());
                let irq = winning_line(f);
                !is_spurious(*src) && f != 0 ==> irq < IRQ_MAX
                    && final(self).cur_spec() == old(self).cur_spec() | (0x8000_0000u32 >> irq)
                    && match old(self).slots()[irq as int] {
                        Some(h) => r == (Dispatch::Invoke { irq, handler: h })
                            && final(self).dropped_spec() == old(self).dropped_spec(),
                        None => r == (Dispatch::Dropped { irq })
                            && final(self).dropped_spec() == bumped(old(self).dropped_spec()),
                    }
            }),
    {
        let cause = src.cause & !CAUSE_RESERVED;
        if cause == 0 || cause & src.mask == 0 {
            if self.spurious < u64::MAX {
                self.spurious = self.spurious + 1;
            }
            return Dispatch::Spurious;
        }
        let raised = pending_lines(src);
        let fresh = raised & !(self.prev_mask | self.cur_mask);
        if fresh == 0 {
            return Dispatch::Idle;
        }
        let irq = select_line(fresh);
        self.cur_mask = self.cur_mask | (0x8000_0000u32 >> irq);
        match self.handlers[irq as usize] {
            Some(handler) => Dispatch::Invoke { irq, handler },
            None => {
                if self.dropped < u64::MAX {
                    self.dropped = self.dropped + 1;
                }
                Dispatch::Dropped { irq }
            },
        }
    }

    /// Ends a round of service: the lines in service become the lines just
    /// completed, which stay suppressed until the next `complete`.
    pub fn complete(&mut self)
        requires
            old(self).wf(),
        ensures
            final(self).wf(),
            final(self).slots() == old(self).slots(),
            final(self).spurious_spec() == old(self).spurious_spec(),
            final(self).dropped_spec() == old(self).dropped_spec(),
            final(self).prev_spec() == old(self).cur_spec(),
            final(self).cur_spec() == 0,
    {
        self.prev_mask = self.cur_mask;
        self.cur_mask = 0;
    }
}

} // verus!
