//! The requests that the driver hands to the owner of the serial bus.
//!
//! The driver never touches the bus itself. Every operation is split into
//! steps that return a [`Transaction`]; the caller performs it on the bus
//! and feeds what came back into the next step.

use vstd::prelude::*;

verus! {

/// Seven-bit bus address of the sensor.
pub const DEVICE_ADDRESS: u8 = 0x68;

/// One request to the serial bus.
#[derive(Clone, Copy, Debug, PartialEq, Eq, Structural)]
pub enum Transaction {
    /// Write the register address followed by one value.
    Write { address: u8, register: u8, value: u8 },
    /// Write the register address, then read `len` bytes back without
    /// releasing the bus in between.
    WriteRead { address: u8, register: u8, len: usize },
}

impl Transaction {
    /// The bus address that the transaction is directed at.
    pub open spec fn device(self) -> u8 {
        match self {
            Transaction::Write { address, .. } => address,
            Transaction::WriteRead { address, .. } => address,
        }
    }

    /// The bytes that go out to the device, in order.
    pub open spec fn outgoing(self) -> Seq<u8> {
        match self {
            Transaction::Write { register, value, .. } => seq![register, value],
            Transaction::WriteRead { register, .. } => seq![register],
        }
    }

    /// The number of bytes that the device is asked to send back.
    pub open spec fn incoming(self) -> nat {
        match self {
            Transaction::Write { .. } => 0,
            Transaction::WriteRead { len, .. } => len as nat,
        }
    }

    /// The bus address that the transaction is directed at.
    pub fn address(&self) -> (address: u8)
        ensures
            address == self.device(),
    {
        match self {
            Transaction::Write { address, .. } => *address,
            Transaction::WriteRead { address, .. } => *address,
        }
    }

    /// The bytes that go out to the device: the first `frame.1` bytes of
    /// `frame.0`.
    pub fn frame(&self) -> (frame: ([u8; 2], usize))
        ensures
            frame.1 <= 2,
            frame.0@.subrange(0, frame.1 as int) == self.outgoing(),
    {
        match self {
            Transaction::Write { register, value, .. } => {
                let bytes: [u8; 2] = [*register, *value];
                assert(bytes@.subrange(0, 2) =~= seq![*register, *value]);
                (bytes, 2)
            },
            Transaction::WriteRead { register, .. } => {
                let bytes: [u8; 2] = [*register, 0];
                assert(bytes@.subrange(0, 1) =~= seq![*register]);
                (bytes, 1)
            },
        }
    }

    /// The number of bytes that the device is asked to send back.
    pub fn response_len(&self) -> (len: usize)
        ensures
            len == self.incoming(),
    {
        match self {
            Transaction::Write { .. } => 0,
            Transaction::WriteRead { len, .. } => *len,
        }
    }

    /// The read of one register: its address goes out, one byte comes back.
    pub open spec fn read_of(register: u8) -> Transaction {
        Transaction::WriteRead { address: DEVICE_ADDRESS, register, len: 1 }
    }

    /// The write of one register.
    pub open spec fn write_of(register: u8, value: u8) -> Transaction {
        Transaction::Write { address: DEVICE_ADDRESS, register, value }
    }

    /// A register access goes to the sensor, whose address fits seven bits.
    /// A read sends the register address and asks for one byte; a write
    /// sends the register address and the value and asks for nothing.
    pub proof fn lemma_register_access_on_the_wire(register: u8, value: u8)
        ensures
            Self::read_of(register).device() == DEVICE_ADDRESS,
            Self::write_of(register, value).device() == DEVICE_ADDRESS,
            DEVICE_ADDRESS < 0x80,
            Self::read_of(register).outgoing() == seq![register],
            Self::read_of(register).incoming() == 1,
            Self::write_of(register, value).outgoing() == seq![register, value],
            Self::write_of(register, value).incoming() == 0,
    {
    }
}

} // verus!
