//! The serial expansion bus (EXI): register addresses and values of its
//! channels.
//!
//! Bus access is expressed as [`BusOp`]s that the caller performs in order.

use vstd::prelude::*;

pub mod usb_gecko;

verus! {

/// Base address of the bus registers.
pub const EXI_BASE: u32 = 0xcc00_6800;
/// Distance in bytes between the register blocks of two channels.
pub const CHANNEL_STRIDE: u32 = 20;
/// Number of channels.
pub const CHANNELS: u32 = 3;

/// Channel status register.
pub const EXI_CSR: u32 = 0;
/// Transfer control register.
pub const EXI_CR: u32 = 12;
/// Immediate data register.
pub const EXI_DATA: u32 = 16;

pub const CLOCK_1MHZ: u32 = 0;
pub const CLOCK_2MHZ: u32 = 1;
pub const CLOCK_4MHZ: u32 = 2;
pub const CLOCK_8MHZ: u32 = 3;
pub const CLOCK_16MHZ: u32 = 4;
pub const CLOCK_32MHZ: u32 = 5;

/// Transfer length: two bytes.
pub const CR_TLEN16: u32 = 0x10;
/// Transfer direction: read and write.
pub const CR_RW: u32 = 0x08;
/// Immediate (not DMA) transfer.
pub const CR_IMMEDIATE: u32 = 0x00;
/// Start the transfer; the hardware clears it when done.
pub const CR_TSTART: u32 = 0x01;

/// One register access on the bus.
#[derive(Clone, Copy, Debug, PartialEq, Eq)]
pub enum BusOp {
    /// Write `value` to the register at `addr`.
    Write { addr: u32, value: u32 },
    /// Read the register at `addr`.
    Read { addr: u32 },
    /// Read the register at `addr` until the bits of `mask` are all clear.
    WaitClear { addr: u32, mask: u32 },
}

/// Address of register `reg` of channel `channel`.
pub open spec fn reg_addr(channel: u32, reg: u32) -> u32 {
    (EXI_BASE + reg + CHANNEL_STRIDE * channel) as u32
}

/// Access to the bus, once its channels are initialised.
pub struct Exi;

/// One channel of the bus.
#[derive(Clone, Copy, Debug, PartialEq, Eq)]
pub struct Channel {
    channel: u32,
}

impl Exi {
    /// The bus, with the writes that deselect the devices of channels 0 and 1.
    pub fn init() -> (r: (Exi, Vec<BusOp>))
        ensures
            r.1@ == seq![
                BusOp::Write { addr: reg_addr(0, EXI_CSR), value: 0 },
                BusOp::Write { addr: reg_addr(1, EXI_CSR), value: 0 },
            ],
    {
        let exi = Exi;
        let mut ops: Vec<BusOp> = Vec::new();
        let mut i: u32 = 0;
        while i < 2
            invariant
                i <= 2,
                ops@.len() == i,
                forall|j: int| 0 <= j < i ==> ops@[j] == (BusOp::Write { addr: reg_addr(j as u32, EXI_CSR), value: 0 }),
            decreases 2 - i,
        {
            ops.push(exi.get_channel(i).deselect_device());
            i = i + 1;
        }
        (exi, ops)
    }

    /// Channel `channel` of the bus.
    pub fn get_channel(&self, channel: u32) -> (r: Channel)
        requires
            channel < CHANNELS,
        ensures
            r.id() == channel,
    {
        Channel { channel }
    }
}

impl Channel {
    /// The channel's number.
    pub closed spec fn id(&self) -> u32 {
        self.channel
    }

    #[verifier::type_invariant]
    spec fn inv(&self) -> bool {
        self.channel < CHANNELS
    }

    fn reg(&self, reg: u32) -> (r: u32)
        requires
            reg <= EXI_DATA,
        ensures
            r == reg_addr(self.id(), reg),
    {
        proof {
            use_type_invariant(self);
        }
        EXI_BASE + reg + CHANNEL_STRIDE * self.channel
    }

    pub open spec fn select_device_spec(&self, device: u32, clock: u32) -> BusOp {
        BusOp::Write {
            addr: reg_addr(self.id(), EXI_CSR),
            value: ((1u32 << device) << 7u32) | (clock << 4u32),
        }
    }

    pub open spec fn write_data_spec(&self, data: u32) -> BusOp {
        BusOp::Write { addr: reg_addr(self.id(), EXI_DATA), value: data }
    }

    pub open spec fn read_data_spec(&self) -> BusOp {
        BusOp::Read { addr: reg_addr(self.id(), EXI_DATA) }
    }

    pub open spec fn write_cr_spec(&self, cr: u32) -> BusOp {
        BusOp::Write { addr: reg_addr(self.id(), EXI_CR), value: cr }
    }

    pub open spec fn wait_spec(&self) -> BusOp {
        BusOp::WaitClear { addr: reg_addr(self.id(), EXI_CR), mask: CR_TSTART }
    }

    /// Selects `device` of the channel at clock `clock`.
    pub fn select_device(&self, device: u32, clock: u32) -> (r: BusOp)
        requires
            device < 32,
        ensures
            r == self.select_device_spec(device, clock),
    {
        BusOp::Write { addr: self.reg(EXI_CSR), value: ((1u32 << device) << 7u32) | (clock << 4u32) }
    }

    /// Deselects every device of the channel.
    pub fn deselect_device(&self) -> (r: BusOp)
        ensures
            r == (BusOp::Write { addr: reg_addr(self.id(), EXI_CSR), value: 0 }),
    {
        BusOp::Write { addr: self.reg(EXI_CSR), value: 0 }
    }

    /// Puts `data` in the data register.
    pub fn write_data(&self, data: u32) -> (r: BusOp)
        ensures
            r == self.write_data_spec(data),
    {
        BusOp::Write { addr: self.reg(EXI_DATA), value: data }
    }

    /// Reads the data register.
    pub fn read_data(&self) -> (r: BusOp)
        ensures
            r == self.read_data_spec(),
    {
        BusOp::Read { addr: self.reg(EXI_DATA) }
    }

    /// Writes the transfer control register.
    pub fn write_cr(&self, cr: u32) -> (r: BusOp)
        ensures
            r == self.write_cr_spec(cr),
    {
        BusOp::Write { addr: self.reg(EXI_CR), value: cr }
    }

    /// Waits until the transfer in progress is over.
    pub fn wait_for_completion(&self) -> (r: BusOp)
        ensures
            r == self.wait_spec(),
    {
        BusOp::WaitClear { addr: self.reg(EXI_CR), mask: CR_TSTART }
    }
}

} // verus!
