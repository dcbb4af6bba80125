//! The operations of a ready handle.

use vstd::prelude::*;
use crate::bus::{Transaction, DEVICE_ADDRESS};
use crate::fifo::{
    big_endian, combine_count, decode_burst, holds_burst, sample_count, stage_burst, Burst,
    FifoError, LengthError,
};
use crate::ll::BankSelectionError;
use crate::register_bank::bank0::{FIFO_COUNTH, FIFO_COUNTL, FIFO_FLUSH, INT_STATUS, SIGNAL_PATH_RESET};
use crate::register_bank::RegisterBank;
use crate::{Ready, ICM42688};

verus! {

/// `bytemuck::cast_slice_mut` from `u32` to `u8`: the same memory, seen as
/// bytes.
///
/// The cast cannot fail in this direction, since bytes need no alignment
/// and any number of words is a whole number of bytes. Trusted: there are
/// four bytes to a word, and words whose bytes end as they began are
/// unchanged. Which byte of a word comes first depends on the machine and
/// is not stated.
#[verifier::external_body]
fn bytes_of(words: &mut [u32]) -> (bytes: &mut [u8])
    ensures
        bytes@.len() == 4 * old(words)@.len(),
        final(words)@.len() == old(words)@.len(),
        final(bytes)@ == bytes@ ==> final(words)@ == old(words)@,
{
    bytemuck::cast_slice_mut::<u32, u8>(words)
}

impl<BUS> ICM42688<BUS, Ready> {
    /// First step of a FIFO flush: the read of the signal path reset
    /// register. Refused unless bank 0 is selected.
    pub fn begin_reset_fifo(&mut self) -> (request: Result<Transaction, BankSelectionError>)
        ensures
            request is Ok <==> old(self).low_level().current_bank() == RegisterBank::Bank0,
            request matches Ok(transaction) ==> transaction == Transaction::read_of(
                SIGNAL_PATH_RESET,
            ),
            *final(self) == *old(self),
    {
        let bank0 = self.ll.bank(RegisterBank::Bank0)?;
        Ok(bank0.register(SIGNAL_PATH_RESET).read())
    }

    /// Second step of a FIFO flush: `current` is what the register held, and
    /// the transaction writes it back with the flush bit set. Refused unless
    /// bank 0 is selected.
    pub fn reset_fifo(&mut self, current: u8) -> (request: Result<Transaction, BankSelectionError>)
        ensures
            request is Ok <==> old(self).low_level().current_bank() == RegisterBank::Bank0,
            request matches Ok(transaction) ==> transaction == Transaction::write_of(
                SIGNAL_PATH_RESET,
                current | FIFO_FLUSH,
            ),
            *final(self) == *old(self),
    {
        let bank0 = self.ll.bank(RegisterBank::Bank0)?;
        let flush = |value: u8| -> (flushed: u8)
            ensures
                flushed == value | FIFO_FLUSH,
            { value | FIFO_FLUSH };
        Ok(bank0.register(SIGNAL_PATH_RESET).modify(current, flush))
    }

    /// First step of reading the FIFO byte count: the reads of its high and
    /// of its low half, to be performed in this order. Refused unless bank 0
    /// is selected.
    pub fn begin_read_fifo_count(&mut self) -> (request: Result<
        (Transaction, Transaction),
        BankSelectionError,
    >)
        ensures
            request is Ok <==> old(self).low_level().current_bank() == RegisterBank::Bank0,
            request matches Ok(reads) ==> {
                &&& reads.0 == Transaction::read_of(FIFO_COUNTH)
                &&& reads.1 == Transaction::read_of(FIFO_COUNTL)
            },
            *final(self) == *old(self),
    {
        let bank0 = self.ll.bank(RegisterBank::Bank0)?;
        let high = bank0.register(FIFO_COUNTH).read();
        let low = bank0.register(FIFO_COUNTL).read();
        Ok((high, low))
    }

    /// Second step of reading the FIFO byte count: joins what the two reads
    /// returned. Refused unless bank 0 is selected.
    pub fn read_fifo_count(&mut self, count_h: u8, count_l: u8) -> (count: Result<
        u16,
        BankSelectionError,
    >)
        ensures
            count is Ok <==> old(self).low_level().current_bank() == RegisterBank::Bank0,
            count matches Ok(bytes) ==> bytes == big_endian(count_h, count_l),
            *final(self) == *old(self),
    {
        let _bank0 = self.ll.bank(RegisterBank::Bank0)?;
        Ok(combine_count(count_h, count_l))
    }

    /// First step of a FIFO burst read into `buffer`.
    ///
    /// A buffer whose bytes cannot hold the header and one packet is refused
    /// and left as it was. Otherwise the buffer is handed back as bytes, with
    /// the header register address stored in byte 0, together with the
    /// transaction that reads into all of them.
    pub fn begin_read_fifo<'a>(&mut self, buffer: &'a mut [u32]) -> (staged: Result<
        Burst<'a>,
        LengthError,
    >)
        ensures
            staged is Ok <==> holds_burst(4 * old(buffer)@.len()),
            staged matches Ok(burst) ==> {
                &&& burst.request matches Transaction::WriteRead { address, register, len }
                &&& address == DEVICE_ADDRESS
                &&& register == INT_STATUS
                &&& len == 4 * old(buffer)@.len()
                &&& burst.bytes@.len() == 4 * old(buffer)@.len()
                &&& burst.bytes@[0] == INT_STATUS
            },
            staged is Err ==> final(buffer)@ == old(buffer)@,
            final(buffer)@.len() == old(buffer)@.len(),
            *final(self) == *old(self),
    {
        let bytes = bytes_of(buffer);
        match stage_burst(bytes) {
            Ok(request) => Ok(Burst { request, bytes }),
            Err(error) => Err(error),
        }
    }

    /// Second step of a FIFO burst read: the number of complete packets that
    /// the header in the bytes of `burst` announces, given how the
    /// transaction ended.
    pub fn read_fifo<E>(&mut self, burst: Burst<'_>, outcome: Result<(), E>) -> (samples: Result<
        usize,
        FifoError<E>,
    >)
        ensures
            match samples {
                Ok(n) => holds_burst(old(burst.bytes)@.len()) && outcome is Ok && n
                    == sample_count(old(burst.bytes)@),
                Err(FifoError::Length(_)) => !holds_burst(old(burst.bytes)@.len()),
                Err(FifoError::Transport(e)) => holds_burst(old(burst.bytes)@.len()) && outcome
                    == Err::<(), E>(e),
            },
            final(burst.bytes)@ == old(burst.bytes)@,
            *final(self) == *old(self),
    {
        decode_burst(burst.bytes, outcome)
    }

    /// Direct access to the low-level handle.
    pub fn ll(&mut self) -> (ll: &mut crate::ll::ICM42688<BUS>)
        ensures
            *ll == old(self).low_level(),
            final(self).low_level() == *final(ll),
    {
        &mut self.ll
    }

    /// Gives the bus back and ends the handle.
    pub fn release(self) -> (bus: BUS)
        ensures
            bus == self.low_level().held_bus(),
    {
        self.ll.release()
    }
}

} // verus!
