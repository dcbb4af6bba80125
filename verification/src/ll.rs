//! The low-level handle: the bus, and the bank that is believed selected.

use vstd::prelude::*;
use crate::register_bank::{RegisterBank, Registers};

verus! {

/// Owns the bus and keeps track of the register bank that is selected.
pub struct ICM42688<BUS> {
    pub(crate) bus: BUS,
    current_bank: RegisterBank,
}

/// A register of one bank was asked for while another bank was selected.
#[derive(Clone, Copy, Debug, PartialEq, Eq, Structural)]
pub struct BankSelectionError;

impl BankSelectionError {
    /// What the error says of itself.
    pub fn message(&self) -> (text: String)
        ensures
            text@ == "Bank selection error"@,
    {
        "Bank selection error".to_owned()
    }
}

/// Something that can be told to switch to a register bank.
pub trait BankSelectable {
    fn set_bank(&mut self, bank: RegisterBank) -> Result<(), BankSelectionError>;
}

impl<BUS> ICM42688<BUS> {
    /// The bus that the handle owns.
    pub closed spec fn held_bus(self) -> BUS {
        self.bus
    }

    /// The bank that the handle believes selected.
    pub closed spec fn current_bank(self) -> RegisterBank {
        self.current_bank
    }

    /// The handle as `new` makes it: it owns `bus`, and bank 0 is selected.
    pub closed spec fn fresh(bus: BUS) -> Self {
        ICM42688 { bus, current_bank: RegisterBank::Bank0 }
    }

    /// The handle as `set_bank` leaves it: `bank` is selected, the rest is
    /// as before.
    pub closed spec fn with_bank(self, bank: RegisterBank) -> Self {
        ICM42688 { bus: self.bus, current_bank: bank }
    }

    /// A fresh handle has bank 0 selected.
    pub proof fn lemma_fresh_selects_bank0(bus: BUS)
        ensures
            Self::fresh(bus).current_bank() == RegisterBank::Bank0,
    {
    }

    /// The bank that was selected last is the bank that is read back.
    pub proof fn lemma_selected_bank_is_read_back(self, bank: RegisterBank)
        ensures
            self.with_bank(bank).current_bank() == bank,
    {
    }

    /// Only the last selection counts.
    pub proof fn lemma_last_selection_wins(self, first: RegisterBank, second: RegisterBank)
        ensures
            self.with_bank(first).with_bank(second) == self.with_bank(second),
    {
    }

    /// The handle holds the bus that it was made from, whatever banks are
    /// selected, so that is the bus that `release` gives back.
    pub proof fn lemma_bus_is_kept(self, bus: BUS, bank: RegisterBank)
        ensures
            Self::fresh(bus).held_bus() == bus,
            self.with_bank(bank).held_bus() == self.held_bus(),
    {
    }

    /// Takes the bus. Bank 0 is selected, as it is after power-up.
    pub fn new(bus: BUS) -> (handle: Self)
        ensures
            handle == Self::fresh(bus),
            handle.held_bus() == bus,
            handle.current_bank() == RegisterBank::Bank0,
    {
        ICM42688 { bus, current_bank: RegisterBank::Bank0 }
    }

    /// Records `bank` as the selected one. Nothing is sent to the device.
    pub fn set_bank(&mut self, bank: RegisterBank)
        ensures
            *final(self) == old(self).with_bank(bank),
            final(self).current_bank() == bank,
            final(self).held_bus() == old(self).held_bus(),
    {
        self.current_bank = bank;
    }

    /// The bank that is selected.
    pub fn get_bank(&self) -> (bank: RegisterBank)
        ensures
            bank == self.current_bank(),
    {
        self.current_bank
    }

    /// The registers of `bank`, provided that `bank` is the selected one.
    ///
    /// On a mismatch the caller gets the error and no view, and with no view
    /// there is no transaction to perform. The handle stays as it was either
    /// way.
    pub fn bank(&mut self, bank: RegisterBank) -> (view: Result<Registers<'_>, BankSelectionError>)
        ensures
            view is Ok <==> bank == old(self).current_bank(),
            view matches Ok(registers) ==> registers.bank() == bank,
            *final(self) == *old(self),
    {
        if self.current_bank == bank {
            Ok(Registers::new(&self.current_bank))
        } else {
            Err(BankSelectionError)
        }
    }

    /// The bus, for the caller to perform transactions on.
    pub fn bus(&mut self) -> (bus: &mut BUS)
        ensures
            *bus == old(self).held_bus(),
            final(self).held_bus() == *final(bus),
            final(self).current_bank() == old(self).current_bank(),
    {
        &mut self.bus
    }

    /// Gives the bus back and ends the handle.
    pub fn release(self) -> (bus: BUS)
        ensures
            bus == self.held_bus(),
    {
        self.bus
    }
}

} // verus!
