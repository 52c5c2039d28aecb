//! Requests to the I/O coprocessor, and the handshake that carries them.
//!
//! A request is a 32-byte control block in memory. `open`, `close`, `read`,
//! `write`, `seek` and `ioctl` build one, with the buffers it names. A
//! [`Call`] then runs the handshake: it says, one [`Action`] at a time, which
//! cache line to flush, which register to read or write and which block to
//! reclaim, and the caller reports each outcome back as an [`Event`]. The
//! waits for the coprocessor can be bounded, so a silent coprocessor ends the
//! call with a timeout instead of hanging it.

use crate::cache::{covering_end, covering_fits, line_floor, CacheRange};
use vstd::prelude::*;

verus! {

/// A file descriptor of the coprocessor.
pub type RawFd = i32;

/// How to open a file.
#[derive(Clone, Copy, Debug, PartialEq, Eq)]
pub enum Mode {
    /// With no read/write access.
    NoAccess,
    /// With read only access.
    Read,
    /// With write only access.
    Write,
    /// With read/write access.
    ReadWrite,
}

impl Mode {
    pub open spec fn spec_value(&self) -> i32 {
        match *self {
            Mode::NoAccess => 0,
            Mode::Read => 1,
            Mode::Write => 2,
            Mode::ReadWrite => 3,
        }
    }

    /// The value of the mode in a request.
    pub fn value(&self) -> (r: i32)
        ensures
            r == self.spec_value(),
    {
        match self {
            Mode::NoAccess => 0,
            Mode::Read => 1,
            Mode::Write => 2,
            Mode::ReadWrite => 3,
        }
    }
}

/// Where a seek counts from, with the offset.
#[derive(Clone, Copy, Debug, PartialEq, Eq)]
pub enum SeekFrom {
    /// From the start of the file.
    Start(i32),
    /// From the current position.
    Current(i32),
    /// From the end of the file.
    End(i32),
}

/// The request kinds, and the tag that marks a reply.
#[derive(Clone, Copy, Debug, PartialEq, Eq)]
pub enum Command {
    Open,
    Close,
    Read,
    Write,
    Seek,
    Ioctl,
    Ioctlv,
    /// The tag of a reply block.
    Async,
}

impl Command {
    pub open spec fn spec_tag(&self) -> u32 {
        match *self {
            Command::Open => 1,
            Command::Close => 2,
            Command::Read => 3,
            Command::Write => 4,
            Command::Seek => 5,
            Command::Ioctl => 6,
            Command::Ioctlv => 7,
            Command::Async => 8,
        }
    }

    /// The tag of the command in a control block.
    pub fn tag(&self) -> (r: u32)
        ensures
            r == self.spec_tag(),
    {
        match self {
            Command::Open => 1,
            Command::Close => 2,
            Command::Read => 3,
            Command::Write => 4,
            Command::Seek => 5,
            Command::Ioctl => 6,
            Command::Ioctlv => 7,
            Command::Async => 8,
        }
    }
}

/// The tag that marks a block as a reply.
pub const REPLY_TAG: u32 = 8;

/// A control block: command, return code, descriptor and five arguments.
#[derive(Clone, Copy, Debug, PartialEq, Eq)]
pub struct ControlBlock {
    pub command: Command,
    pub ret: i32,
    pub fd: RawFd,
    pub args: [i32; 5],
}

/// The eight words of a control block as it lies in memory.
pub open spec fn block_words(b: ControlBlock) -> [u32; 8] {
    [
        b.command.spec_tag(),
        b.ret as u32,
        b.fd as u32,
        b.args@[0] as u32,
        b.args@[1] as u32,
        b.args@[2] as u32,
        b.args@[3] as u32,
        b.args@[4] as u32,
    ]
}

/// The reply block held by eight words of memory whose tag is the reply tag.
pub open spec fn reply_of_words(w: [u32; 8]) -> ControlBlock {
    ControlBlock {
        command: Command::Async,
        ret: w@[1] as i32,
        fd: w@[2] as i32,
        args: [w@[3] as i32, w@[4] as i32, w@[5] as i32, w@[6] as i32, w@[7] as i32],
    }
}

impl ControlBlock {
    /// The block's memory layout: the command tag, then the return code, the
    /// descriptor and the arguments as two's-complement words.
    pub fn to_words(&self) -> (r: [u32; 8])
        ensures
            r == block_words(*self),
    {
        [
            self.command.tag(),
            self.ret as u32,
            self.fd as u32,
            self.args[0] as u32,
            self.args[1] as u32,
            self.args[2] as u32,
            self.args[3] as u32,
            self.args[4] as u32,
        ]
    }
}

/// The reply held by eight words of memory, or `None` when they do not
/// carry the reply tag.
pub fn reply_from_words(w: &[u32; 8]) -> (r: Option<ControlBlock>)
    ensures
        w@[0] == REPLY_TAG ==> r == Some(reply_of_words(*w)),
        w@[0] != REPLY_TAG ==> r is None,
{
    if w[0] != REPLY_TAG {
        return None;
    }
    Some(
        ControlBlock {
            command: Command::Async,
            ret: w[1] as i32,
            fd: w[2] as i32,
            args: [w[3] as i32, w[4] as i32, w[5] as i32, w[6] as i32, w[7] as i32],
        },
    )
}

/// Why a request could not be built or carried, or how the coprocessor
/// refused it.
#[derive(Clone, Copy, Debug, PartialEq, Eq)]
pub enum IosError {
    /// The coprocessor answered with this negative code.
    Remote(i32),
    /// The coprocessor did not answer within the poll limit.
    Timeout,
    /// The block read back as the reply does not carry the reply tag: the
    /// handshake has lost step with the coprocessor.
    Desync { tag: u32 },
    /// The event reported does not answer the action asked for.
    UnexpectedEvent,
    /// A path, with its terminating zero, must be shorter than `MAX_PATH`.
    NameTooLong,
    /// The cache lines of a buffer run past the end of the address space.
    BadBuffer,
    /// The control block does not start on a cache line.
    MisalignedBlock,
}

/// The address bits that the coprocessor sees.
pub const PHYSICAL_MASK: u32 = 0x1fff_ffff;

/// The bit that maps a physical address back into the cached window.
pub const CACHED_WINDOW: u32 = 0x8000_0000;

/// Bound on the length of a path given to `open`, terminating zero included.
pub const MAX_PATH: u32 = 0x40;

/// A region of memory named by a request: its address and length in bytes.
#[derive(Clone, Copy, Debug, PartialEq, Eq)]
pub struct Buffer {
    pub addr: u32,
    pub len: u32,
}

/// A control block, with the buffers it names, which must be flushed before
/// the coprocessor reads them.
#[derive(Debug)]
pub struct Request {
    pub block: ControlBlock,
    pub buffers: Vec<CacheRange>,
}

/// An address as the coprocessor sees it, as an argument word.
pub open spec fn physical(a: u32) -> i32 {
    (a & PHYSICAL_MASK) as i32
}

/// Whether `c` is the run of cache lines that holds `b`.
pub open spec fn covers(c: CacheRange, b: Buffer) -> bool {
    c.spec_start() == line_floor(b.addr) && c.spec_len() == covering_end(b.addr, b.len)
        - line_floor(b.addr)
}

/// A request block with descriptor `fd` and arguments `args`.
pub open spec fn block_of(command: Command, fd: RawFd, args: [i32; 5]) -> ControlBlock {
    ControlBlock { command, ret: 0, fd, args }
}

fn buffer_lines(b: &Buffer) -> (r: Result<CacheRange, IosError>)
    ensures
        covering_fits(b.addr, b.len) ==> (r matches Ok(c) && covers(c, *b)),
        !covering_fits(b.addr, b.len) ==> r == Err::<CacheRange, IosError>(IosError::BadBuffer),
{
    match CacheRange::covering(b.addr, b.len) {
        Ok(c) => Ok(c),
        Err(_) => Err(IosError::BadBuffer),
    }
}

/// The request that opens the file whose zero-terminated path lies in
/// `filename`, with the access `mode`.
pub fn open(filename: Buffer, mode: Mode) -> (r: Result<Request, IosError>)
    ensures
        filename.len >= MAX_PATH ==> r matches Err(IosError::NameTooLong),
        filename.len < MAX_PATH && !covering_fits(filename.addr, filename.len) ==> r matches Err(
            IosError::BadBuffer,
        ),
        filename.len < MAX_PATH && covering_fits(filename.addr, filename.len) ==> (r matches Ok(q)
            && q.block == block_of(
            Command::Open,
            -1i32,
            [physical(filename.addr), mode.spec_value(), 0, 0, 0],
        ) && q.buffers@.len() == 1 && covers(q.buffers@[0], filename)),
{
    if filename.len >= MAX_PATH {
        return Err(IosError::NameTooLong);
    }
    let lines = buffer_lines(&filename)?;
    let block = ControlBlock {
        command: Command::Open,
        ret: 0,
        fd: -1,
        args: [(filename.addr & PHYSICAL_MASK) as i32, mode.value(), 0, 0, 0],
    };
    Ok(Request { block, buffers: vec![lines] })
}

/// The request that closes `fd`.
pub fn close(fd: RawFd) -> (r: Request)
    ensures
        r.block == block_of(Command::Close, fd, [0, 0, 0, 0, 0]),
        r.buffers@.len() == 0,
{
    let block = ControlBlock { command: Command::Close, ret: 0, fd, args: [0, 0, 0, 0, 0] };
    Request { block, buffers: Vec::new() }
}

/// The request that reads from `fd` into `buf`.
pub fn read(fd: RawFd, buf: Buffer) -> (r: Result<Request, IosError>)
    ensures
        !covering_fits(buf.addr, buf.len) ==> r matches Err(IosError::BadBuffer),
        covering_fits(buf.addr, buf.len) ==> (r matches Ok(q) && q.block == block_of(
            Command::Read,
            fd,
            [physical(buf.addr), buf.len as i32, 0, 0, 0],
        ) && q.buffers@.len() == 1 && covers(q.buffers@[0], buf)),
{
    let lines = buffer_lines(&buf)?;
    let block = ControlBlock {
        command: Command::Read,
        ret: 0,
        fd,
        args: [(buf.addr & PHYSICAL_MASK) as i32, buf.len as i32, 0, 0, 0],
    };
    Ok(Request { block, buffers: vec![lines] })
}

/// The request that writes `buf` to `fd`.
pub fn write(fd: RawFd, buf: Buffer) -> (r: Result<Request, IosError>)
    ensures
        !covering_fits(buf.addr, buf.len) ==> r matches Err(IosError::BadBuffer),
        covering_fits(buf.addr, buf.len) ==> (r matches Ok(q) && q.block == block_of(
            Command::Write,
            fd,
            [physical(buf.addr), buf.len as i32, 0, 0, 0],
        ) && q.buffers@.len() == 1 && covers(q.buffers@[0], buf)),
{
    let lines = buffer_lines(&buf)?;
    let block = ControlBlock {
        command: Command::Write,
        ret: 0,
        fd,
        args: [(buf.addr & PHYSICAL_MASK) as i32, buf.len as i32, 0, 0, 0],
    };
    Ok(Request { block, buffers: vec![lines] })
}

/// The offset and the whence value (start 0, current 1, end 2) of a seek.
pub open spec fn seek_args(pos: SeekFrom) -> (i32, i32) {
    match pos {
        SeekFrom::Start(p) => (p, 0),
        SeekFrom::Current(p) => (p, 1),
        SeekFrom::End(p) => (p, 2),
    }
}

/// The request that moves the position of `fd`.
pub fn seek(fd: RawFd, pos: SeekFrom) -> (r: Request)
    ensures
        r.block == block_of(Command::Seek, fd, [seek_args(pos).0, seek_args(pos).1, 0, 0, 0]),
        r.buffers@.len() == 0,
{
    let (offset, whence): (i32, i32) = match pos {
        SeekFrom::Start(p) => (p, 0),
        SeekFrom::Current(p) => (p, 1),
        SeekFrom::End(p) => (p, 2),
    };
    let block = ControlBlock { command: Command::Seek, ret: 0, fd, args: [offset, whence, 0, 0, 0] };
    Request { block, buffers: Vec::new() }
}

/// The request that performs device action `num` on `fd`, with input
/// `buf1` and output `buf2`.
pub fn ioctl(fd: RawFd, num: i32, buf1: Buffer, buf2: Buffer) -> (r: Result<Request, IosError>)
    ensures
        !(covering_fits(buf1.addr, buf1.len) && covering_fits(buf2.addr, buf2.len)) ==> r matches Err(
            IosError::BadBuffer,
        ),
        covering_fits(buf1.addr, buf1.len) && covering_fits(buf2.addr, buf2.len) ==> (r matches Ok(q)
            && q.block == block_of(
            Command::Ioctl,
            fd,
            [num, physical(buf1.addr), buf1.len as i32, physical(buf2.addr), buf2.len as i32],
        ) && q.buffers@.len() == 2 && covers(q.buffers@[0], buf1) && covers(q.buffers@[1], buf2)),
{
    let lines1 = buffer_lines(&buf1)?;
    let lines2 = buffer_lines(&buf2)?;
    let block = ControlBlock {
        command: Command::Ioctl,
        ret: 0,
        fd,
        args: [
            num,
            (buf1.addr & PHYSICAL_MASK) as i32,
            buf1.len as i32,
            (buf2.addr & PHYSICAL_MASK) as i32,
            buf2.len as i32,
        ],
    };
    Ok(Request { block, buffers: vec![lines1, lines2] })
}

/// What a reply means to the caller: a negative return code is the
/// coprocessor's refusal, any other is the result (a descriptor, a count).
pub fn reply_value(reply: &ControlBlock) -> (r: Result<i32, IosError>)
    ensures
        reply.ret < 0 ==> r == Err::<i32, IosError>(IosError::Remote(reply.ret)),
        reply.ret >= 0 ==> r == Ok::<i32, IosError>(reply.ret),
{
    if reply.ret < 0 {
        Err(IosError::Remote(reply.ret))
    } else {
        Ok(reply.ret)
    }
}

/// The registers of the channel that a call uses.
#[derive(Clone, Copy, Debug, PartialEq, Eq)]
pub enum IpcRegister {
    /// Outbound message address: where the request block lies.
    PpcMsg,
    /// The application processor's control register.
    PpcCtrl,
    /// Inbound message address: where the reply block lies.
    ArmMsg,
}

impl IpcRegister {
    pub open spec fn spec_offset(&self) -> u32 {
        match *self {
            IpcRegister::PpcMsg => 0,
            IpcRegister::PpcCtrl => 4,
            IpcRegister::ArmMsg => 8,
        }
    }

    /// Offset of the register from the channel's base address.
    pub fn offset(&self) -> (r: u32)
        ensures
            r == self.spec_offset(),
    {
        match self {
            IpcRegister::PpcMsg => 0,
            IpcRegister::PpcCtrl => 4,
            IpcRegister::ArmMsg => 8,
        }
    }
}

/// Control register flag: execute the published request.
pub const CTRL_EXECUTE: u32 = 1;
/// Control register flag: the request was acknowledged.
pub const CTRL_ACK: u32 = 2;
/// Control register flag: a reply is available.
pub const CTRL_REPLY: u32 = 4;

/// What the caller is to do next for a call.
#[derive(Clone, Copy, Debug, PartialEq, Eq)]
pub enum Action {
    /// Flush these data-cache lines (with the barrier); answer `Done`.
    Flush { range: CacheRange },
    /// Store these words at `addr`, handing that memory over to the
    /// coprocessor; answer `Done`.
    Store { addr: u32, words: [u32; 8] },
    /// Write `value` to `reg`; answer `Done`.
    WriteRegister { reg: IpcRegister, value: u32 },
    /// Read `reg`; answer `Value` with what was read.
    ReadRegister { reg: IpcRegister },
    /// Take back the 32-byte block at `addr` from the coprocessor; answer
    /// `Block` with its words.
    Reclaim { addr: u32 },
    /// Nothing more: the call has its outcome.
    Finished,
}

/// The outcome of an action, reported back to the call.
#[derive(Clone, Copy, Debug, PartialEq, Eq)]
pub enum Event {
    Done,
    Value(u32),
    Block([u32; 8]),
}

/// Where a call stands.
#[derive(Clone, Copy, Debug, PartialEq, Eq)]
pub enum Phase {
    /// Flushing the lines of buffer `index`.
    FlushBuffer { index: usize },
    /// Storing the request block.
    StoreBlock,
    /// Flushing the request block's line.
    FlushBlock,
    /// Writing the block's bus address to the outbound message register.
    Publish,
    /// Reading the control register before raising execute.
    Probe,
    /// Raising execute (with acknowledge too when the probe saw it set).
    Signal { acknowledged: bool },
    /// Polling for the acknowledgement; `polls` reads have not shown it.
    AwaitAck { polls: u32 },
    /// Clearing the acknowledgement.
    ClearAck,
    /// Polling for the reply; `polls` reads have not shown it.
    AwaitReply { polls: u32 },
    /// Reading the reply block's address.
    FetchReply,
    /// Reclaiming the reply block at `addr`.
    Reclaim { addr: u32 },
    /// Clearing the reply flag, with the reply in hand.
    AckReply { reply: ControlBlock },
    /// The call is over with this reply.
    Complete { reply: ControlBlock },
    /// The call is over with this error.
    Failed { error: IosError },
}

/// The model of a call: the buffer lines to flush, the request words, the
/// block's line, the poll bound (`None` waits without bound) and the phase.
pub struct CallState {
    pub buffers: Seq<CacheRange>,
    pub words: [u32; 8],
    pub block: CacheRange,
    pub poll_limit: Option<u32>,
    pub phase: Phase,
}

/// One more unanswered poll, counted without wrapping.
pub open spec fn next_polls(polls: u32) -> u32 {
    if polls < u32::MAX {
        (polls + 1) as u32
    } else {
        polls
    }
}

/// Whether `polls` unanswered polls exhaust the bound.
pub open spec fn exhausted(limit: Option<u32>, polls: u32) -> bool {
    match limit {
        Some(l) => polls >= l,
        None => false,
    }
}

/// The phase a call starts in, given how many buffers it flushes.
pub open spec fn initial_phase(buffers: int) -> Phase {
    if buffers > 0 {
        Phase::FlushBuffer { index: 0 }
    } else {
        Phase::StoreBlock
    }
}

/// A phase that ends the call on an event that does not answer its action.
pub open spec fn unexpected() -> Phase {
    Phase::Failed { error: IosError::UnexpectedEvent }
}

/// The phase after a poll of the control register read `v`, waiting for
/// `flag`: `found` when it is up, else another poll or the timeout.
pub open spec fn after_poll(
    limit: Option<u32>,
    polls: u32,
    v: u32,
    flag: u32,
    found: Phase,
    again: Phase,
) -> Phase {
    if v & flag == flag {
        found
    } else if exhausted(limit, next_polls(polls)) {
        Phase::Failed { error: IosError::Timeout }
    } else {
        again
    }
}

/// The handshake's transitions: the phase after event `e` answers the
/// action of state `s`.
pub open spec fn next_phase(s: CallState, e: Event) -> Phase {
    match s.phase {
        Phase::FlushBuffer { index } => match e {
            Event::Done => if index + 1 < s.buffers.len() {
                Phase::FlushBuffer { index: (index + 1) as usize }
            } else {
                Phase::StoreBlock
            },
            _ => unexpected(),
        },
        Phase::StoreBlock => match e {
            Event::Done => Phase::FlushBlock,
            _ => unexpected(),
        },
        Phase::FlushBlock => match e {
            Event::Done => Phase::Publish,
            _ => unexpected(),
        },
        Phase::Publish => match e {
            Event::Done => Phase::Probe,
            _ => unexpected(),
        },
        Phase::Probe => match e {
            Event::Value(v) => Phase::Signal { acknowledged: v & CTRL_ACK == CTRL_ACK },
            _ => unexpected(),
        },
        Phase::Signal { .. } => match e {
            Event::Done => Phase::AwaitAck { polls: 0 },
            _ => unexpected(),
        },
        Phase::AwaitAck { polls } => match e {
            Event::Value(v) => after_poll(
                s.poll_limit,
                polls,
                v,
                CTRL_ACK,
                Phase::ClearAck,
                Phase::AwaitAck { polls: next_polls(polls) },
            ),
            _ => unexpected(),
        },
        Phase::ClearAck => match e {
            Event::Done => Phase::AwaitReply { polls: 0 },
            _ => unexpected(),
        },
        Phase::AwaitReply { polls } => match e {
            Event::Value(v) => after_poll(
                s.poll_limit,
                polls,
                v,
                CTRL_REPLY,
                Phase::FetchReply,
                Phase::AwaitReply { polls: next_polls(polls) },
            ),
            _ => unexpected(),
        },
        Phase::FetchReply => match e {
            Event::Value(a) => Phase::Reclaim { addr: a | CACHED_WINDOW },
            _ => unexpected(),
        },
        Phase::Reclaim { .. } => match e {
            Event::Block(w) => if w@[0] == REPLY_TAG {
                Phase::AckReply { reply: reply_of_words(w) }
            } else {
                Phase::Failed { error: IosError::Desync { tag: w@[0] } }
            },
            _ => unexpected(),
        },
        Phase::AckReply { reply } => match e {
            Event::Done => Phase::Complete { reply },
            _ => unexpected(),
        },
        Phase::Complete { .. } => s.phase,
        Phase::Failed { .. } => s.phase,
    }
}

/// The state after event `e`.
pub open spec fn step(s: CallState, e: Event) -> CallState {
    CallState { phase: next_phase(s, e), ..s }
}

/// The action that state `s` asks of the caller.
pub open spec fn action_of(s: CallState) -> Action {
    match s.phase {
        Phase::FlushBuffer { index } => Action::Flush { range: s.buffers[index as int] },
        Phase::StoreBlock => Action::Store { addr: s.block.spec_start(), words: s.words },
        Phase::FlushBlock => Action::Flush { range: s.block },
        Phase::Publish => Action::WriteRegister {
            reg: IpcRegister::PpcMsg,
            value: s.block.spec_start() & PHYSICAL_MASK,
        },
        Phase::Probe => Action::ReadRegister { reg: IpcRegister::PpcCtrl },
        Phase::Signal { acknowledged } => Action::WriteRegister {
            reg: IpcRegister::PpcCtrl,
            value: if acknowledged {
                CTRL_ACK | CTRL_EXECUTE
            } else {
                CTRL_EXECUTE
            },
        },
        Phase::AwaitAck { .. } => Action::ReadRegister { reg: IpcRegister::PpcCtrl },
        Phase::ClearAck => Action::WriteRegister { reg: IpcRegister::PpcCtrl, value: CTRL_ACK },
        Phase::AwaitReply { .. } => Action::ReadRegister { reg: IpcRegister::PpcCtrl },
        Phase::FetchReply => Action::ReadRegister { reg: IpcRegister::ArmMsg },
        Phase::Reclaim { addr } => Action::Reclaim { addr },
        Phase::AckReply { .. } => Action::WriteRegister {
            reg: IpcRegister::PpcCtrl,
            value: CTRL_REPLY,
        },
        Phase::Complete { .. } => Action::Finished,
        Phase::Failed { .. } => Action::Finished,
    }
}

/// The states a call can be in: a buffer index names a buffer, the block is
/// one line, and a reply in hand carries the reply tag.
pub open spec fn call_wf(s: CallState) -> bool {
    &&& s.block.spec_len() == 32
    &&& s.buffers.len() <= usize::MAX
    &&& (s.phase matches Phase::FlushBuffer { index } ==> index < s.buffers.len())
    &&& (s.phase matches Phase::AckReply { reply } ==> reply.command == Command::Async)
    &&& (s.phase matches Phase::Complete { reply } ==> reply.command == Command::Async)
}

/// One request carried over the channel: the caller performs each action
/// it asks for and reports the outcome, until it asks for nothing more.
pub struct Call {
    buffers: Vec<CacheRange>,
    words: [u32; 8],
    block: CacheRange,
    poll_limit: Option<u32>,
    phase: Phase,
}

impl View for Call {
    type V = CallState;

    closed spec fn view(&self) -> CallState {
        CallState {
            buffers: self.buffers@,
            words: self.words,
            block: self.block,
            poll_limit: self.poll_limit,
            phase: self.phase,
        }
    }
}

impl Call {
    /// Starts carrying `request`, whose block is to be stored at
    /// `block_addr`, a cache-line boundary. The request is consumed: from
    /// here on its block belongs to the coprocessor, and what comes back is
    /// the reply block. Polls are not bounded until `with_poll_limit`.
    pub fn start(request: Request, block_addr: u32) -> (r: Result<Call, IosError>)
        ensures
            block_addr % 32 != 0 ==> r == Err::<Call, IosError>(IosError::MisalignedBlock),
            block_addr % 32 == 0 ==> (r matches Ok(c) && call_wf(c@) && c@.buffers
                == request.buffers@ && c@.words == block_words(request.block)
                && c@.block.spec_start() == block_addr && c@.block.spec_len() == 32
                && c@.poll_limit is None && c@.phase == initial_phase(request.buffers@.len() as int)),
    {
        let block = match CacheRange::new(block_addr, 32) {
            Ok(b) => b,
            Err(_) => {
                return Err(IosError::MisalignedBlock);
            },
        };
        let words = request.block.to_words();
        let phase = if request.buffers.len() > 0 {
            Phase::FlushBuffer { index: 0 }
        } else {
            Phase::StoreBlock
        };
        Ok(Call { buffers: request.buffers, words, block, poll_limit: None, phase })
    }

    /// The same call, giving up after `limit` polls that do not show what
    /// they wait for (`None`: waiting without bound).
    pub fn with_poll_limit(self, limit: Option<u32>) -> (r: Call)
        ensures
            r@ == (CallState { poll_limit: limit, ..self@ }),
    {
        Call { poll_limit: limit, ..self }
    }

    /// Where the call stands.
    pub fn phase(&self) -> (r: Phase)
        ensures
            r == self@.phase,
    {
        self.phase
    }

    /// What the caller is to do next.
    pub fn action(&self) -> (r: Action)
        requires
            call_wf(self@),
        ensures
            r == action_of(self@),
    {
        match self.phase {
            Phase::FlushBuffer { index } => Action::Flush { range: self.buffers[index] },
            Phase::StoreBlock => Action::Store { addr: self.block.start(), words: self.words },
            Phase::FlushBlock => Action::Flush { range: self.block },
            Phase::Publish => Action::WriteRegister {
                reg: IpcRegister::PpcMsg,
                value: self.block.start() & PHYSICAL_MASK,
            },
            Phase::Probe => Action::ReadRegister { reg: IpcRegister::PpcCtrl },
            Phase::Signal { acknowledged } => Action::WriteRegister {
                reg: IpcRegister::PpcCtrl,
                value: if acknowledged {
                    CTRL_ACK | CTRL_EXECUTE
                } else {
                    CTRL_EXECUTE
                },
            },
            Phase::AwaitAck { .. } => Action::ReadRegister { reg: IpcRegister::PpcCtrl },
            Phase::ClearAck => Action::WriteRegister { reg: IpcRegister::PpcCtrl, value: CTRL_ACK },
            Phase::AwaitReply { .. } => Action::ReadRegister { reg: IpcRegister::PpcCtrl },
            Phase::FetchReply => Action::ReadRegister { reg: IpcRegister::ArmMsg },
            Phase::Reclaim { addr } => Action::Reclaim { addr },
            Phase::AckReply { .. } => Action::WriteRegister {
                reg: IpcRegister::PpcCtrl,
                value: CTRL_REPLY,
            },
            Phase::Complete { .. } => Action::Finished,
            Phase::Failed { .. } => Action::Finished,
        }
    }

    /// Takes in the outcome of the last action.
    pub fn advance(&mut self, event: Event)
        requires
            call_wf(old(self)@),
        ensures
            call_wf(final(self)@),
            final(self)@ == step(old(self)@, event),
    {
        let next = match self.phase {
            Phase::FlushBuffer { index } => match event {
                Event::Done => if index < self.buffers.len() - 1 {
                    Phase::FlushBuffer { index: index + 1 }
                } else {
                    Phase::StoreBlock
                },
                _ => Phase::Failed { error: IosError::UnexpectedEvent },
            },
            Phase::StoreBlock => match event {
                Event::Done => Phase::FlushBlock,
                _ => Phase::Failed { error: IosError::UnexpectedEvent },
            },
            Phase::FlushBlock => match event {
                Event::Done => Phase::Publish,
                _ => Phase::Failed { error: IosError::UnexpectedEvent },
            },
            Phase::Publish => match event {
                Event::Done => Phase::Probe,
                _ => Phase::Failed { error: IosError::UnexpectedEvent },
            },
            Phase::Probe => match event {
                Event::Value(v) => Phase::Signal { acknowledged: v & CTRL_ACK == CTRL_ACK },
                _ => Phase::Failed { error: IosError::UnexpectedEvent },
            },
            Phase::Signal { .. } => match event {
                Event::Done => Phase::AwaitAck { polls: 0 },
                _ => Phase::Failed { error: IosError::UnexpectedEvent },
            },
            Phase::AwaitAck { polls } => match event {
                Event::Value(v) => poll_outcome(
                    self.poll_limit,
                    polls,
                    v,
                    CTRL_ACK,
                    Phase::ClearAck,
                    Phase::AwaitAck { polls: count_poll(polls) },
                ),
                _ => Phase::Failed { error: IosError::UnexpectedEvent },
            },
            Phase::ClearAck => match event {
                Event::Done => Phase::AwaitReply { polls: 0 },
                _ => Phase::Failed { error: IosError::UnexpectedEvent },
            },
            Phase::AwaitReply { polls } => match event {
                Event::Value(v) => poll_outcome(
                    self.poll_limit,
                    polls,
                    v,
                    CTRL_REPLY,
                    Phase::FetchReply,
                    Phase::AwaitReply { polls: count_poll(polls) },
                ),
                _ => Phase::Failed { error: IosError::UnexpectedEvent },
            },
            Phase::FetchReply => match event {
                Event::Value(a) => Phase::Reclaim { addr: a | CACHED_WINDOW },
                _ => Phase::Failed { error: IosError::UnexpectedEvent },
            },
            Phase::Reclaim { .. } => match event {
                Event::Block(w) => match reply_from_words(&w) {
                    Some(reply) => Phase::AckReply { reply },
                    None => Phase::Failed { error: IosError::Desync { tag: w[0] } },
                },
                _ => Phase::Failed { error: IosError::UnexpectedEvent },
            },
            Phase::AckReply { reply } => match event {
                Event::Done => Phase::Complete { reply },
                _ => Phase::Failed { error: IosError::UnexpectedEvent },
            },
            Phase::Complete { .. } => self.phase,
            Phase::Failed { .. } => self.phase,
        };
        self.phase = next;
    }

    /// The outcome of a call that is over: the reply block, or the error
    /// that ended it. `None` while the call goes on.
    pub fn outcome(&self) -> (r: Option<Result<ControlBlock, IosError>>)
        requires
            call_wf(self@),
        ensures
            self@.phase matches Phase::Complete { reply } ==> r == Some(
                Ok::<ControlBlock, IosError>(reply),
            ),
            self@.phase matches Phase::Failed { error } ==> r == Some(
                Err::<ControlBlock, IosError>(error),
            ),
            !(self@.phase is Complete || self@.phase is Failed) ==> r is None,
            r matches Some(Ok(reply)) ==> reply.command == Command::Async,
    {
        match self.phase {
            Phase::Complete { reply } => Some(Ok(reply)),
            Phase::Failed { error } => Some(Err(error)),
            _ => None,
        }
    }
}

/// A coprocessor that answers at once: the control register reads with the
/// acknowledge and reply flags up, the inbound message register holds
/// `reply_addr`, and the reclaimed block holds `reply`.
pub open spec fn prompt_channel(a: Action, reply_addr: u32, reply: ControlBlock) -> Event {
    match a {
        Action::ReadRegister { reg } => match reg {
            IpcRegister::ArmMsg => Event::Value(reply_addr),
            _ => Event::Value(CTRL_ACK | CTRL_REPLY),
        },
        Action::Reclaim { .. } => Event::Block(block_words(reply)),
        _ => Event::Done,
    }
}

/// The state of a call after `n` actions answered by `prompt_channel`.
pub open spec fn run_prompt(s: CallState, reply_addr: u32, reply: ControlBlock, n: nat) -> CallState
    decreases n,
{
    if n == 0 {
        s
    } else {
        run_prompt(
            step(s, prompt_channel(action_of(s), reply_addr, reply)),
            reply_addr,
            reply,
            (n - 1) as nat,
        )
    }
}

proof fn lemma_words_round_trip(b: ControlBlock)
    requires
        b.command == Command::Async,
    ensures
        reply_of_words(block_words(b)) == b,
{
    let r = reply_of_words(block_words(b));
    assert forall|x: i32| #[trigger] ((x as u32) as i32) == x by {
        assert(((x as u32) as i32) == x) by (bit_vector);
    }
    assert(r.args@ =~= b.args@);
    assert(r.args == b.args);
}

proof fn lemma_prompt_flushes(s: CallState, reply_addr: u32, reply: ControlBlock, i: usize)
    requires
        call_wf(s),
        s.phase == (Phase::FlushBuffer { index: i }),
    ensures
        run_prompt(s, reply_addr, reply, (s.buffers.len() - i + 11) as nat) == run_prompt(
            CallState { phase: Phase::StoreBlock, ..s },
            reply_addr,
            reply,
            11,
        ),
    decreases s.buffers.len() - i,
{
    let t = step(s, prompt_channel(action_of(s), reply_addr, reply));
    let n = (s.buffers.len() - i + 11) as nat;
    assert(run_prompt(s, reply_addr, reply, n) == run_prompt(t, reply_addr, reply, (n - 1) as nat));
    if i + 1 < s.buffers.len() {
        lemma_prompt_flushes(t, reply_addr, reply, (i + 1) as usize);
        assert(CallState { phase: Phase::StoreBlock, ..t } == CallState {
            phase: Phase::StoreBlock,
            ..s
        });
    } else {
        assert(t == CallState { phase: Phase::StoreBlock, ..s });
    }
}

proof fn lemma_prompt_handshake(s: CallState, reply_addr: u32, reply: ControlBlock)
    requires
        call_wf(s),
        s.phase == Phase::StoreBlock,
        reply.command == Command::Async,
    ensures
        run_prompt(s, reply_addr, reply, 11).phase == (Phase::Complete { reply }),
{
    let up = CTRL_ACK | CTRL_REPLY;
    assert(up & CTRL_ACK == CTRL_ACK && up & CTRL_REPLY == CTRL_REPLY) by (bit_vector)
        requires
            up == 2u32 | 4u32,
            CTRL_ACK == 2u32,
            CTRL_REPLY == 4u32,
    ;
    lemma_words_round_trip(reply);
    let a = reply_addr;
    let s1 = step(s, Event::Done);
    assert(s1.phase == Phase::FlushBlock);
    let s2 = step(s1, Event::Done);
    let s3 = step(s2, Event::Done);
    assert(s3.phase == Phase::Probe);
    let s4 = step(s3, Event::Value(up));
    assert(s4.phase == Phase::Signal { acknowledged: true });
    let s5 = step(s4, Event::Done);
    assert(s5.phase == Phase::AwaitAck { polls: 0 });
    let s6 = step(s5, Event::Value(up));
    assert(s6.phase == Phase::ClearAck);
    let s7 = step(s6, Event::Done);
    assert(s7.phase == Phase::AwaitReply { polls: 0 });
    let s8 = step(s7, Event::Value(up));
    assert(s8.phase == Phase::FetchReply);
    let s9 = step(s8, Event::Value(a));
    assert(s9.phase == Phase::Reclaim { addr: a | CACHED_WINDOW });
    let s10 = step(s9, Event::Block(block_words(reply)));
    assert(s10.phase == Phase::AckReply { reply });
    let s11 = step(s10, Event::Done);
    assert(s11.phase == Phase::Complete { reply });
    assert(run_prompt(s10, a, reply, 1) == run_prompt(s11, a, reply, 0));
    assert(run_prompt(s9, a, reply, 2) == run_prompt(s10, a, reply, 1));
    assert(run_prompt(s8, a, reply, 3) == run_prompt(s9, a, reply, 2));
    assert(run_prompt(s7, a, reply, 4) == run_prompt(s8, a, reply, 3));
    assert(run_prompt(s6, a, reply, 5) == run_prompt(s7, a, reply, 4));
    assert(run_prompt(s5, a, reply, 6) == run_prompt(s6, a, reply, 5));
    assert(run_prompt(s4, a, reply, 7) == run_prompt(s5, a, reply, 6));
    assert(run_prompt(s3, a, reply, 8) == run_prompt(s4, a, reply, 7));
    assert(run_prompt(s2, a, reply, 9) == run_prompt(s3, a, reply, 8));
    assert(run_prompt(s1, a, reply, 10) == run_prompt(s2, a, reply, 9));
    assert(run_prompt(s, a, reply, 11) == run_prompt(s1, a, reply, 10));
}

/// Round trip: whatever request a call carries, on a channel that
/// acknowledges and replies at once the call ends, once its buffers are
/// flushed and eleven more actions are answered, with exactly the reply the
/// coprocessor wrote: its return code and its payload.
pub proof fn lemma_round_trip(s: CallState, reply_addr: u32, reply: ControlBlock)
    requires
        call_wf(s),
        s.phase == initial_phase(s.buffers.len() as int),
        reply.command == Command::Async,
    ensures
        run_prompt(s, reply_addr, reply, (s.buffers.len() + 11) as nat).phase == (Phase::Complete {
            reply,
        }),
{
    if s.buffers.len() > 0 {
        lemma_prompt_flushes(s, reply_addr, reply, 0);
        lemma_prompt_handshake(CallState { phase: Phase::StoreBlock, ..s }, reply_addr, reply);
    } else {
        lemma_prompt_handshake(s, reply_addr, reply);
    }
}

/// A call hands back only a block it reclaimed: it comes to hold a reply
/// only when a reclaimed block carries the reply tag, and then the reply is
/// what that block holds; the reply it ends with is the one it held.
pub proof fn lemma_reply_only_by_reclaim(s: CallState, e: Event)
    requires
        call_wf(s),
    ensures
        step(s, e).phase matches Phase::AckReply { reply } ==> (s.phase is Reclaim
            && (e matches Event::Block(w) && w@[0] == REPLY_TAG && reply == reply_of_words(w))),
        step(s, e).phase matches Phase::Complete { reply } ==> (s.phase == (Phase::AckReply {
            reply,
        }) || s.phase == (Phase::Complete { reply })),
{
}

fn count_poll(polls: u32) -> (r: u32)
    ensures
        r == next_polls(polls),
{
    if polls < u32::MAX {
        polls + 1
    } else {
        polls
    }
}

fn poll_outcome(limit: Option<u32>, polls: u32, v: u32, flag: u32, found: Phase, again: Phase) -> (r:
    Phase)
    ensures
        r == after_poll(limit, polls, v, flag, found, again),
{
    if v & flag == flag {
        return found;
    }
    let counted = count_poll(polls);
    match limit {
        Some(l) => if counted >= l {
            Phase::Failed { error: IosError::Timeout }
        } else {
            again
        },
        None => again,
    }
}

} // verus!
