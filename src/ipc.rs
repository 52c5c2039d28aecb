//! The bit layouts of the inter-processor channel's registers.
//!
//! The application processor's control register and the coprocessor's
//! carry the same flags at different bit positions; the message registers
//! hold the bus address of a control block. These types only hold and edit
//! register values: reading and writing the registers is the caller's part
//! (`from_bits` and `bits` convert).

use crate::bits::{
    bit_of, get_bit, lemma_with_bit_is_set_bit_to, region_mask, set_bit_to, with_bit, with_value,
};
use vstd::prelude::*;

verus! {

fn read_flag(w: u32, b: u32) -> (r: bool)
    requires
        b < 32,
    ensures
        r == bit_of(w, b),
{
    get_bit(b, w)
}

fn write_flag(w: u32, b: u32, v: bool) -> (r: u32)
    requires
        b < 32,
    ensures
        r == set_bit_to(w, b, v),
{
    proof {
        lemma_with_bit_is_set_bit_to(w, b, v);
    }
    with_bit(b, w, v)
}

/// Lowest address of the physical window a message address may name.
pub const MEM2_START: u32 = 0x1000_0000;

/// One past the highest address of that window.
pub const MEM2_END: u32 = 0x1400_0000;

/// A message address register (the same layout in both directions).
pub struct IpcMessageAddress(u32);

impl View for IpcMessageAddress {
    type V = u32;

    closed spec fn view(&self) -> u32 {
        self.0
    }
}

impl IpcMessageAddress {
    /// The register value zero.
    pub fn new() -> (r: Self)
        ensures
            r@ == 0,
    {
        IpcMessageAddress(0)
    }

    /// The register holding `bits`, as read from the hardware.
    pub fn from_bits(bits: u32) -> (r: Self)
        ensures
            r@ == bits,
    {
        IpcMessageAddress(bits)
    }

    /// The raw register value, to be written to the hardware.
    pub fn bits(&self) -> (r: u32)
        ensures
            r == self@,
    {
        self.0
    }

    /// The address held.
    pub fn address(&self) -> (r: u32)
        ensures
            r == self@,
    {
        self.0
    }

    /// Sets the address; it must lie in the physical MEM2 window.
    pub fn with_address(&mut self, address: u32) -> (r: &mut Self)
        requires
            MEM2_START <= address < MEM2_END,
        ensures
            (*r)@ == address,
            *final(self) == *final(r),
    {
        assert((self.0 & !region_mask(0, 31)) | ((address << 0u32) & region_mask(0, 31)) == address)
            by (bit_vector);
        self.0 = with_value(0, 31, self.0, address);
        self
    }
}

/// The application processor's control register.
pub struct PpcIpcControl(u32);

impl View for PpcIpcControl {
    type V = u32;

    closed spec fn view(&self) -> u32 {
        self.0
    }
}

impl PpcIpcControl {
    /// The register value zero: every flag clear.
    pub fn new() -> (r: Self)
        ensures
            r@ == 0,
    {
        PpcIpcControl(0)
    }

    /// The register holding `bits`, as read from the hardware.
    pub fn from_bits(bits: u32) -> (r: Self)
        ensures
            r@ == bits,
    {
        PpcIpcControl(bits)
    }

    /// The raw register value, to be written to the hardware.
    pub fn bits(&self) -> (r: u32)
        ensures
            r == self@,
    {
        self.0
    }

    /// Execute a request (bit 0).
    pub fn execute(&self) -> (r: bool)
        ensures
            r == bit_of(self@, 0),
    {
        read_flag(self.0, 0)
    }

    /// Sets or clears the flag of `execute`, keeping the other bits.
    pub fn with_execute(&mut self, execute: bool) -> (r: &mut Self)
        ensures
            (*r)@ == set_bit_to(old(self)@, 0, execute),
            *final(self) == *final(r),
    {
        self.0 = write_flag(self.0, 0, execute);
        self
    }

    /// Request acknowledged (bit 1).
    pub fn acknowledge(&self) -> (r: bool)
        ensures
            r == bit_of(self@, 1),
    {
        read_flag(self.0, 1)
    }

    /// Sets or clears the flag of `acknowledge`, keeping the other bits.
    pub fn with_acknowledge(&mut self, acknowledge: bool) -> (r: &mut Self)
        ensures
            (*r)@ == set_bit_to(old(self)@, 1, acknowledge),
            *final(self) == *final(r),
    {
        self.0 = write_flag(self.0, 1, acknowledge);
        self
    }

    /// Reply available (bit 2).
    pub fn reply(&self) -> (r: bool)
        ensures
            r == bit_of(self@, 2),
    {
        read_flag(self.0, 2)
    }

    /// Sets or clears the flag of `reply`, keeping the other bits.
    pub fn with_reply(&mut self, reply: bool) -> (r: &mut Self)
        ensures
            (*r)@ == set_bit_to(old(self)@, 2, reply),
            *final(self) == *final(r),
    {
        self.0 = write_flag(self.0, 2, reply);
        self
    }

    /// Relaunch the channel (bit 3).
    pub fn relaunch(&self) -> (r: bool)
        ensures
            r == bit_of(self@, 3),
    {
        read_flag(self.0, 3)
    }

    /// Sets or clears the flag of `relaunch`, keeping the other bits.
    pub fn with_relaunch(&mut self, relaunch: bool) -> (r: &mut Self)
        ensures
            (*r)@ == set_bit_to(old(self)@, 3, relaunch),
            *final(self) == *final(r),
    {
        self.0 = write_flag(self.0, 3, relaunch);
        self
    }

    /// A reply raises an interrupt (bit 4).
    pub fn reply_interrupt(&self) -> (r: bool)
        ensures
            r == bit_of(self@, 4),
    {
        read_flag(self.0, 4)
    }

    /// Sets or clears the flag of `reply_interrupt`, keeping the other bits.
    pub fn with_reply_interrupt(&mut self, reply_interrupt: bool) -> (r: &mut Self)
        ensures
            (*r)@ == set_bit_to(old(self)@, 4, reply_interrupt),
            *final(self) == *final(r),
    {
        self.0 = write_flag(self.0, 4, reply_interrupt);
        self
    }

    /// An acknowledgement raises an interrupt (bit 5).
    pub fn acknowledge_interrupt(&self) -> (r: bool)
        ensures
            r == bit_of(self@, 5),
    {
        read_flag(self.0, 5)
    }

    /// Sets or clears the flag of `acknowledge_interrupt`, keeping the other bits.
    pub fn with_acknowledge_interrupt(&mut self, acknowledge_interrupt: bool) -> (r: &mut Self)
        ensures
            (*r)@ == set_bit_to(old(self)@, 5, acknowledge_interrupt),
            *final(self) == *final(r),
    {
        self.0 = write_flag(self.0, 5, acknowledge_interrupt);
        self
    }
}

/// The coprocessor's control register.
pub struct ArmIpcControl(u32);

impl View for ArmIpcControl {
    type V = u32;

    closed spec fn view(&self) -> u32 {
        self.0
    }
}

impl ArmIpcControl {
    /// The register value zero: every flag clear.
    pub fn new() -> (r: Self)
        ensures
            r@ == 0,
    {
        ArmIpcControl(0)
    }

    /// The register holding `bits`, as read from the hardware.
    pub fn from_bits(bits: u32) -> (r: Self)
        ensures
            r@ == bits,
    {
        ArmIpcControl(bits)
    }

    /// The raw register value, to be written to the hardware.
    pub fn bits(&self) -> (r: u32)
        ensures
            r == self@,
    {
        self.0
    }

    /// Execute a request (bit 2).
    pub fn execute(&self) -> (r: bool)
        ensures
            r == bit_of(self@, 2),
    {
        read_flag(self.0, 2)
    }

    /// Sets or clears the flag of `execute`, keeping the other bits.
    pub fn with_execute(&mut self, execute: bool) -> (r: &mut Self)
        ensures
            (*r)@ == set_bit_to(old(self)@, 2, execute),
            *final(self) == *final(r),
    {
        self.0 = write_flag(self.0, 2, execute);
        self
    }

    /// Request acknowledged (bit 3).
    pub fn acknowledge(&self) -> (r: bool)
        ensures
            r == bit_of(self@, 3),
    {
        read_flag(self.0, 3)
    }

    /// Sets or clears the flag of `acknowledge`, keeping the other bits.
    pub fn with_acknowledge(&mut self, acknowledge: bool) -> (r: &mut Self)
        ensures
            (*r)@ == set_bit_to(old(self)@, 3, acknowledge),
            *final(self) == *final(r),
    {
        self.0 = write_flag(self.0, 3, acknowledge);
        self
    }

    /// Reply available (bit 0).
    pub fn reply(&self) -> (r: bool)
        ensures
            r == bit_of(self@, 0),
    {
        read_flag(self.0, 0)
    }

    /// Sets or clears the flag of `reply`, keeping the other bits.
    pub fn with_reply(&mut self, reply: bool) -> (r: &mut Self)
        ensures
            (*r)@ == set_bit_to(old(self)@, 0, reply),
            *final(self) == *final(r),
    {
        self.0 = write_flag(self.0, 0, reply);
        self
    }

    /// Relaunch the channel (bit 1).
    pub fn relaunch(&self) -> (r: bool)
        ensures
            r == bit_of(self@, 1),
    {
        read_flag(self.0, 1)
    }

    /// Sets or clears the flag of `relaunch`, keeping the other bits.
    pub fn with_relaunch(&mut self, relaunch: bool) -> (r: &mut Self)
        ensures
            (*r)@ == set_bit_to(old(self)@, 1, relaunch),
            *final(self) == *final(r),
    {
        self.0 = write_flag(self.0, 1, relaunch);
        self
    }

    /// A request raises an interrupt (bit 4).
    pub fn execute_interrupt(&self) -> (r: bool)
        ensures
            r == bit_of(self@, 4),
    {
        read_flag(self.0, 4)
    }

    /// Sets or clears the flag of `execute_interrupt`, keeping the other bits.
    pub fn with_execute_interrupt(&mut self, execute_interrupt: bool) -> (r: &mut Self)
        ensures
            (*r)@ == set_bit_to(old(self)@, 4, execute_interrupt),
            *final(self) == *final(r),
    {
        self.0 = write_flag(self.0, 4, execute_interrupt);
        self
    }

    /// A relaunch raises an interrupt (bit 5).
    pub fn relaunch_interrupt(&self) -> (r: bool)
        ensures
            r == bit_of(self@, 5),
    {
        read_flag(self.0, 5)
    }

    /// Sets or clears the flag of `relaunch_interrupt`, keeping the other bits.
    pub fn with_relaunch_interrupt(&mut self, relaunch_interrupt: bool) -> (r: &mut Self)
        ensures
            (*r)@ == set_bit_to(old(self)@, 5, relaunch_interrupt),
            *final(self) == *final(r),
    {
        self.0 = write_flag(self.0, 5, relaunch_interrupt);
        self
    }
}

} // verus!
