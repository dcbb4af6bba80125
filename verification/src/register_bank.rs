//! Register banks and the views through which their registers are reached.

use vstd::prelude::*;
use crate::bus::{Transaction, DEVICE_ADDRESS};

pub mod bank0;

verus! {

/// The register pages of the device. Exactly one of them is mapped at a time.
#[derive(Clone, Copy, Debug, PartialEq, Eq, Structural)]
pub enum RegisterBank {
    Bank0,
    Bank1,
    Bank2,
    Bank3,
    Bank4,
}

/// The registers of one bank, reachable while that bank is selected.
///
/// A view borrows the selected bank from the handle that made it, so the
/// handle cannot be told to switch banks while the view lives. Only the
/// handle makes views.
pub struct Registers<'a> {
    bank: &'a RegisterBank,
}

/// One register of one bank.
pub struct Register<'a> {
    bank: &'a RegisterBank,
    address: u8,
}

impl<'a> Registers<'a> {
    /// The bank that the view was made for.
    pub closed spec fn bank(&self) -> RegisterBank {
        *self.bank
    }

    pub(crate) fn new(bank: &'a RegisterBank) -> (view: Self)
        ensures
            view.bank() == *bank,
    {
        Registers { bank }
    }

    /// The register at `address` in the bank of this view.
    pub fn register(&self, address: u8) -> (register: Register<'a>)
        ensures
            register.bank() == self.bank(),
            register.address() == address,
    {
        Register { bank: self.bank, address }
    }
}

impl<'a> Register<'a> {
    /// The bank that holds the register.
    pub closed spec fn bank(&self) -> RegisterBank {
        *self.bank
    }

    /// The address of the register within its bank.
    pub closed spec fn address(&self) -> u8 {
        self.address
    }

    /// The transaction that reads the register.
    pub fn read(&self) -> (transaction: Transaction)
        ensures
            transaction == Transaction::read_of(self.address()),
    {
        Transaction::WriteRead { address: DEVICE_ADDRESS, register: self.address, len: 1 }
    }

    /// The transaction that stores `value` in the register, whatever it held.
    pub fn write(&self, value: u8) -> (transaction: Transaction)
        ensures
            transaction == Transaction::write_of(self.address(), value),
    {
        Transaction::Write { address: DEVICE_ADDRESS, register: self.address, value }
    }

    /// The second half of a read-modify-write: `current` is what a read of
    /// the register returned, and the transaction writes back what
    /// `transform` makes of it.
    pub fn modify<F: FnOnce(u8) -> u8>(&self, current: u8, transform: F) -> (transaction:
        Transaction)
        requires
            call_requires(transform, (current,)),
        ensures
            transaction matches Transaction::Write { address, register, value } && {
                &&& address == DEVICE_ADDRESS
                &&& register == self.address()
                &&& call_ensures(transform, (current,), value)
            },
    {
        let value: u8 = transform(current);
        Transaction::Write { address: DEVICE_ADDRESS, register: self.address, value }
    }
}

} // verus!
