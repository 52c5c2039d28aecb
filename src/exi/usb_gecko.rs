//! The USB Gecko serial adapter, on channel 1 of the expansion bus.
//!
//! Every exchange is a 16-bit query answered by a 16-bit reply, carried by
//! the bus operations of [`UsbGecko::query_ops`]. Receiving and sending are
//! runs of such exchanges: [`Receiving`] and [`Sending`] say which query comes
//! next and take in each reply.

use super::{
    reg_addr, BusOp, Channel, Exi, CLOCK_32MHZ, CR_IMMEDIATE, CR_RW, CR_TLEN16, CR_TSTART, EXI_CR,
    EXI_CSR, EXI_DATA,
};
use vstd::prelude::*;

verus! {

/// Why the adapter could not be used.
#[derive(Clone, Copy, Debug, PartialEq, Eq)]
pub enum Error {
    UsbGeckoNotFound,
    SendImpossible,
    ReceiveImpossible,
}

/// Query: identify the adapter.
pub const QUERY_CHECK: u16 = 0x9000;
/// Query: take one received byte.
pub const QUERY_RECEIVE: u16 = 0xa000;
/// Query: send one byte (in bits 4..12).
pub const QUERY_SEND: u16 = 0xb000;
/// Query: may a byte be sent?
pub const QUERY_CAN_SEND: u16 = 0xc000;
/// Query: is a byte waiting?
pub const QUERY_CAN_RECEIVE: u16 = 0xd000;
/// The reply of an adapter to `QUERY_CHECK`.
pub const CHECK_REPLY: u16 = 0x0470;
/// Reply flag of a received byte.
pub const REPLY_RECEIVED: u16 = 0x0800;
/// Reply flag: sent, or ready.
pub const REPLY_READY: u16 = 0x0400;

/// The query that sends `byte`.
pub open spec fn send_query(byte: u8) -> u16 {
    QUERY_SEND | ((byte as u16) << 4u16)
}

/// Whether a reply to a readiness query says yes.
pub open spec fn ready(reply: u16) -> bool {
    reply & REPLY_READY != 0
}

/// The channel the adapter sits on.
pub const GECKO_CHANNEL: u32 = 1;

/// The bus operations of one query on channel `ch`: select device 0 at
/// 32 MHz, put the query in the top half of the data register, start a
/// 16-bit read-write immediate transfer, wait for its end, read the data
/// register.
pub open spec fn query_program(ch: u32, query: u16) -> Seq<BusOp> {
    seq![
        BusOp::Write { addr: reg_addr(ch, EXI_CSR), value: ((1u32 << 0u32) << 7u32) | (CLOCK_32MHZ << 4u32) },
        BusOp::Write { addr: reg_addr(ch, EXI_DATA), value: (query as u32) << 16u32 },
        BusOp::Write { addr: reg_addr(ch, EXI_CR), value: CR_TLEN16 | CR_RW | CR_IMMEDIATE | CR_TSTART },
        BusOp::WaitClear { addr: reg_addr(ch, EXI_CR), mask: CR_TSTART },
        BusOp::Read { addr: reg_addr(ch, EXI_DATA) },
    ]
}

/// A present adapter.
pub struct UsbGecko {
    channel: Channel,
}

impl UsbGecko {
    /// The adapter on channel 1 of `exi`, if `check_reply`, the reply to
    /// `QUERY_CHECK` (see `probe_ops`), identifies one.
    #[verifier::type_invariant]
    spec fn inv(&self) -> bool {
        self.channel.id() == GECKO_CHANNEL
    }

    pub fn new(exi: &Exi, check_reply: u16) -> (r: Result<UsbGecko, Error>)
        ensures
            check_reply == CHECK_REPLY ==> r is Ok,
            check_reply != CHECK_REPLY ==> r == Err::<UsbGecko, Error>(Error::UsbGeckoNotFound),
    {
        let channel = exi.get_channel(GECKO_CHANNEL);
        if !Self::check_usb_gecko(check_reply) {
            return Err(Error::UsbGeckoNotFound);
        }
        Ok(UsbGecko { channel })
    }

    /// The bus operations of the identifying query, made before the adapter
    /// is known to be there.
    pub fn probe_ops(exi: &Exi) -> (r: Vec<BusOp>)
        ensures
            r@ == query_program(GECKO_CHANNEL, QUERY_CHECK),
    {
        Self::query_usb_gecko(&exi.get_channel(GECKO_CHANNEL), QUERY_CHECK)
    }

    /// The bus operations of query `query`; the top half of the data
    /// register read last is the reply (see `reply_of`).
    pub fn query_ops(&self, query: u16) -> (r: Vec<BusOp>)
        ensures
            r@ == query_program(GECKO_CHANNEL, query),
    {
        proof {
            use_type_invariant(self);
        }
        Self::query_usb_gecko(&self.channel, query)
    }

    fn query_usb_gecko(channel: &Channel, query: u16) -> (r: Vec<BusOp>)
        ensures
            r@ == query_program(channel.id(), query),
    {
        let mut ops: Vec<BusOp> = Vec::new();
        ops.push(channel.select_device(0, CLOCK_32MHZ));
        ops.push(channel.write_data((query as u32) << 16u32));
        ops.push(channel.write_cr(CR_TLEN16 | CR_RW | CR_IMMEDIATE | CR_TSTART));
        ops.push(channel.wait_for_completion());
        ops.push(channel.read_data());
        assert(ops@ =~= query_program(channel.id(), query));
        ops
    }

    /// The reply held by the data register read at the end of a query.
    pub fn reply_of(data: u32) -> (r: u16)
        ensures
            r == (data >> 16u32) as u16,
    {
        (data >> 16u32) as u16
    }

    fn check_usb_gecko(reply: u16) -> (r: bool)
        ensures
            r == (reply == CHECK_REPLY),
    {
        reply == CHECK_REPLY
    }

    fn receive_byte(reply: u16) -> (r: Result<u8, Error>)
        ensures
            reply & REPLY_RECEIVED == 0 ==> r == Err::<u8, Error>(Error::ReceiveImpossible),
            reply & REPLY_RECEIVED != 0 ==> r == Ok::<u8, Error>((reply & 0xff) as u8),
    {
        if reply & REPLY_RECEIVED == 0 {
            return Err(Error::ReceiveImpossible);
        }
        Ok((reply & 0xff) as u8)
    }

    fn send_byte(reply: u16) -> (r: Result<(), Error>)
        ensures
            reply & REPLY_READY == 0 ==> r == Err::<(), Error>(Error::SendImpossible),
            reply & REPLY_READY != 0 ==> r is Ok,
    {
        if reply & REPLY_READY == 0 {
            return Err(Error::SendImpossible);
        }
        Ok(())
    }

    fn can_send(reply: u16) -> (r: bool)
        ensures
            r == ready(reply),
    {
        reply & REPLY_READY != 0
    }

    fn can_receive(reply: u16) -> (r: bool)
        ensures
            r == ready(reply),
    {
        reply & REPLY_READY != 0
    }

    /// Starts receiving what the adapter holds.
    pub fn receive(&self) -> (r: Receiving)
        ensures
            r.received().len() == 0,
            r.stage() == ReceiveStage::AskReady,
    {
        Receiving { data: Vec::new(), stage: ReceiveStage::AskReady }
    }

    /// Starts sending `data`.
    pub fn send(&self, data: &[u8]) -> (r: Sending)
        ensures
            r.wf(),
            r.bytes() == data@,
            r.sent() == 0,
            r.stage() == (if data@.len() == 0 {
                SendStage::Sent
            } else {
                SendStage::AskReady
            }),
    {
        let mut bytes: Vec<u8> = Vec::new();
        let mut i: usize = 0;
        while i < data.len()
            invariant
                i <= data@.len(),
                bytes@ == data@.subrange(0, i as int),
            decreases data@.len() - i,
        {
            bytes.push(data[i]);
            i = i + 1;
        }
        assert(bytes@ =~= data@);
        let stage = if bytes.len() == 0 {
            SendStage::Sent
        } else {
            SendStage::AskReady
        };
        Sending { data: bytes, pos: 0, stage }
    }
}

/// Where a reception stands.
#[derive(Clone, Copy, Debug, PartialEq, Eq)]
pub enum ReceiveStage {
    /// Asking whether a byte is waiting.
    AskReady,
    /// Taking the waiting byte.
    AskByte,
    /// Over: the bytes are in hand.
    Received,
    /// Over: nothing could be received.
    Failed(Error),
}

/// A reception: bytes are taken while the adapter says one is waiting.
pub struct Receiving {
    data: Vec<u8>,
    stage: ReceiveStage,
}

impl Receiving {
    /// The bytes taken so far.
    pub closed spec fn received(&self) -> Seq<u8> {
        self.data@
    }

    pub closed spec fn stage(&self) -> ReceiveStage {
        self.stage
    }

    /// The query to make next; `None` once the reception is over.
    pub fn query(&self) -> (r: Option<u16>)
        ensures
            self.stage() == ReceiveStage::AskReady ==> r == Some(QUERY_CAN_RECEIVE),
            self.stage() == ReceiveStage::AskByte ==> r == Some(QUERY_RECEIVE),
            self.stage() is Received || self.stage() is Failed ==> r is None,
    {
        match self.stage {
            ReceiveStage::AskReady => Some(QUERY_CAN_RECEIVE),
            ReceiveStage::AskByte => Some(QUERY_RECEIVE),
            _ => None,
        }
    }

    /// Takes in the reply to the last query. When no byte is waiting the
    /// reception is over, and it fails if it took no byte at all.
    pub fn answer(&mut self, reply: u16)
        ensures
            old(self).stage() == ReceiveStage::AskReady ==> (if ready(reply) {
                final(self).stage() == ReceiveStage::AskByte && final(self).received()
                    == old(self).received()
            } else if old(self).received().len() == 0 {
                final(self).stage() == ReceiveStage::Failed(Error::ReceiveImpossible)
            } else {
                final(self).stage() == ReceiveStage::Received && final(self).received()
                    == old(self).received()
            }),
            old(self).stage() == ReceiveStage::AskByte ==> (if reply & REPLY_RECEIVED != 0 {
                final(self).stage() == ReceiveStage::AskReady && final(self).received()
                    == old(self).received().push((reply & 0xff) as u8)
            } else {
                final(self).stage() == ReceiveStage::Failed(Error::ReceiveImpossible)
            }),
            old(self).stage() is Received || old(self).stage() is Failed ==> final(self).stage()
                == old(self).stage() && final(self).received() == old(self).received(),
    {
        match self.stage {
            ReceiveStage::AskReady => {
                if UsbGecko::can_receive(reply) {
                    self.stage = ReceiveStage::AskByte;
                } else if self.data.len() == 0 {
                    self.stage = ReceiveStage::Failed(Error::ReceiveImpossible);
                } else {
                    self.stage = ReceiveStage::Received;
                }
            },
            ReceiveStage::AskByte => {
                match UsbGecko::receive_byte(reply) {
                    Ok(byte) => {
                        self.data.push(byte);
                        self.stage = ReceiveStage::AskReady;
                    },
                    Err(e) => {
                        self.stage = ReceiveStage::Failed(e);
                    },
                }
            },
            _ => {},
        }
    }

    /// The outcome once the reception is over: the bytes, or the error.
    pub fn finish(self) -> (r: Option<Result<Vec<u8>, Error>>)
        ensures
            self.stage() == ReceiveStage::Received ==> (r matches Some(Ok(v)) && v@
                == self.received()),
            self.stage() matches ReceiveStage::Failed(e) ==> r == Some(Err::<Vec<u8>, Error>(e)),
            self.stage() is AskReady || self.stage() is AskByte ==> r is None,
    {
        match self.stage {
            ReceiveStage::Received => Some(Ok(self.data)),
            ReceiveStage::Failed(e) => Some(Err(e)),
            _ => None,
        }
    }
}

/// Where a transmission stands.
#[derive(Clone, Copy, Debug, PartialEq, Eq)]
pub enum SendStage {
    /// Asking whether a byte may be sent (asked again until it may).
    AskReady,
    /// Sending the next byte.
    Sending,
    /// Over: every byte was sent.
    Sent,
    /// Over: the adapter refused a byte it said it could take.
    Failed(Error),
}

/// A transmission: each byte in turn, once the adapter is ready for it.
pub struct Sending {
    data: Vec<u8>,
    pos: usize,
    stage: SendStage,
}

impl Sending {
    /// The bytes to send.
    pub closed spec fn bytes(&self) -> Seq<u8> {
        self.data@
    }

    /// How many bytes were sent.
    pub closed spec fn sent(&self) -> int {
        self.pos as int
    }

    pub closed spec fn stage(&self) -> SendStage {
        self.stage
    }

    /// A transmission that can go on has a byte left.
    pub closed spec fn wf(&self) -> bool {
        &&& self.pos <= self.data@.len()
        &&& (self.stage is AskReady || self.stage is Sending) ==> self.pos < self.data@.len()
    }

    /// The query to make next; `None` once the transmission is over.
    pub fn query(&self) -> (r: Option<u16>)
        requires
            self.wf(),
        ensures
            self.stage() == SendStage::AskReady ==> r == Some(QUERY_CAN_SEND),
            self.stage() == SendStage::Sending ==> r == Some(send_query(self.bytes()[self.sent()])),
            self.stage() is Sent || self.stage() is Failed ==> r is None,
    {
        match self.stage {
            SendStage::AskReady => Some(QUERY_CAN_SEND),
            SendStage::Sending => Some(QUERY_SEND | ((self.data[self.pos] as u16) << 4u16)),
            _ => None,
        }
    }

    /// Takes in the reply to the last query.
    pub fn answer(&mut self, reply: u16)
        requires
            old(self).wf(),
        ensures
            final(self).wf(),
            final(self).bytes() == old(self).bytes(),
            old(self).stage() == SendStage::AskReady ==> final(self).sent() == old(self).sent()
                && final(self).stage() == (if ready(reply) {
                SendStage::Sending
            } else {
                SendStage::AskReady
            }),
            old(self).stage() == SendStage::Sending ==> (if reply & REPLY_READY == 0 {
                final(self).stage() == SendStage::Failed(Error::SendImpossible)
                    && final(self).sent() == old(self).sent()
            } else {
                final(self).sent() == old(self).sent() + 1 && final(self).stage() == (if old(
                    self,
                ).sent() + 1 == old(self).bytes().len() {
                    SendStage::Sent
                } else {
                    SendStage::AskReady
                })
            }),
            old(self).stage() is Sent || old(self).stage() is Failed ==> final(self).stage()
                == old(self).stage() && final(self).sent() == old(self).sent(),
    {
        match self.stage {
            SendStage::AskReady => {
                if UsbGecko::can_send(reply) {
                    self.stage = SendStage::Sending;
                }
            },
            SendStage::Sending => {
                match UsbGecko::send_byte(reply) {
                    Ok(()) => {
                        let n = self.data.len();
                        self.pos = self.pos + 1;
                        if self.pos == n {
                            self.stage = SendStage::Sent;
                        } else {
                            self.stage = SendStage::AskReady;
                        }
                    },
                    Err(e) => {
                        self.stage = SendStage::Failed(e);
                    },
                }
            },
            _ => {},
        }
    }

    /// The outcome once the transmission is over.
    pub fn finish(&self) -> (r: Option<Result<(), Error>>)
        ensures
            self.stage() == SendStage::Sent ==> r == Some(Ok::<(), Error>(())),
            self.stage() matches SendStage::Failed(e) ==> r == Some(Err::<(), Error>(e)),
            self.stage() is AskReady || self.stage() is Sending ==> r is None,
    {
        match self.stage {
            SendStage::Sent => Some(Ok(())),
            SendStage::Failed(e) => Some(Err(e)),
            _ => None,
        }
    }
}

} // verus!
