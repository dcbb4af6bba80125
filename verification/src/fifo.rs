//! The FIFO burst protocol on bytes.
//!
//! A burst read returns the interrupt status, the big-endian count of bytes
//! that wait in the FIFO, and then the raw FIFO contents:
//!
//! ```text
//! byte 0      byte 1       byte 2       byte 3 ..
//! INT_STATUS  FIFO_COUNTH  FIFO_COUNTL  packets
//! ```
//!
//! Before the transaction byte 0 holds the address of the first header
//! register.

use vstd::prelude::*;
use crate::bus::{Transaction, DEVICE_ADDRESS};
use crate::register_bank::bank0::INT_STATUS;

verus! {

/// Bytes of header in front of the FIFO contents.
pub const HEADER_SIZE: usize = 3;

/// Bytes that the FIFO emits for one complete sample.
pub const PACKET_SIZE: usize = 20;

/// The shortest buffer that holds the header and one packet.
pub const MIN_BURST_SIZE: usize = HEADER_SIZE + PACKET_SIZE;

/// The buffer cannot hold the burst header and one packet.
#[derive(Clone, Copy, Debug, PartialEq, Eq, Structural)]
pub struct LengthError;

/// Why a FIFO burst read gave no sample count.
#[derive(Debug, PartialEq, Eq)]
pub enum FifoError<E> {
    /// The buffer cannot hold the burst header and one packet.
    Length(LengthError),
    /// The bus failed; the failure is handed on as it came.
    Transport(E),
}

/// A burst read that is staged and waits for its transaction.
pub struct Burst<'a> {
    /// The transaction that fills `bytes`.
    pub request: Transaction,
    /// The buffer, byte by byte. The transaction reads into all of it.
    pub bytes: &'a mut [u8],
}

/// The 16-bit number whose upper half is `high` and whose lower half is
/// `low`.
pub open spec fn big_endian(high: u8, low: u8) -> int {
    high as int * 256 + low as int
}

/// Whether a buffer of `len` bytes holds the header and at least one packet.
pub open spec fn holds_burst(len: nat) -> bool {
    len >= MIN_BURST_SIZE
}

/// The number of bytes waiting in the FIFO, as the header of `burst` reports
/// it.
pub open spec fn fifo_count(burst: Seq<u8>) -> int
    recommends
        holds_burst(burst.len()),
{
    big_endian(burst[1], burst[2])
}

/// The number of complete packets that the header of `burst` announces.
pub open spec fn sample_count(burst: Seq<u8>) -> int
    recommends
        holds_burst(burst.len()),
{
    fifo_count(burst) / (PACKET_SIZE as int)
}

/// The sample count is the byte count divided by the packet size and rounded
/// down: the packets that it counts are all there, and what is left over is
/// less than one packet.
pub proof fn lemma_sample_count_rounds_down(burst: Seq<u8>)
    ensures
        0 <= sample_count(burst) <= u16::MAX / 20,
        sample_count(burst) * PACKET_SIZE <= fifo_count(burst),
        fifo_count(burst) < (sample_count(burst) + 1) * PACKET_SIZE,
{
}

/// Joins the two halves of the FIFO byte count.
pub fn combine_count(high: u8, low: u8) -> (count: u16)
    ensures
        count == big_endian(high, low),
{
    let count: u16 = ((high as u16) << 8) | (low as u16);
    assert(((high as u16) << 8) | (low as u16) == (high as u16) * 256 + (low as u16))
        by (bit_vector);
    count
}

/// Prepares `buffer` for a burst read and says which transaction fills it.
///
/// A buffer that cannot hold the header and one packet is refused and left
/// as it was. Otherwise the address of the first header register is stored
/// in byte 0, and the transaction reads as many bytes as the buffer holds.
pub fn stage_burst(buffer: &mut [u8]) -> (request: Result<Transaction, LengthError>)
    ensures
        request is Ok <==> holds_burst(old(buffer)@.len()),
        request matches Ok(transaction) ==> {
            &&& transaction matches Transaction::WriteRead { address, register, len }
            &&& address == DEVICE_ADDRESS
            &&& register == INT_STATUS
            &&& len == old(buffer)@.len()
            &&& final(buffer)@ == old(buffer)@.update(0, INT_STATUS)
        },
        request is Err ==> final(buffer)@ == old(buffer)@,
{
    let len: usize = buffer.len();
    if len < MIN_BURST_SIZE {
        return Err(LengthError);
    }
    buffer[0] = INT_STATUS;
    Ok(Transaction::WriteRead { address: DEVICE_ADDRESS, register: INT_STATUS, len })
}

/// Reads the sample count out of a burst, given how the transaction ended.
///
/// The length is looked at first, then the outcome of the transaction; the
/// header is decoded only if both are in order. A count of zero is a result
/// like any other.
pub fn decode_burst<E>(buffer: &[u8], outcome: Result<(), E>) -> (samples: Result<
    usize,
    FifoError<E>,
>)
    ensures
        match samples {
            Ok(n) => holds_burst(buffer@.len()) && outcome is Ok && n == sample_count(buffer@),
            Err(FifoError::Length(_)) => !holds_burst(buffer@.len()),
            Err(FifoError::Transport(e)) => holds_burst(buffer@.len()) && outcome == Err::<(), E>(
                e,
            ),
        },
{
    if buffer.len() < MIN_BURST_SIZE {
        return Err(FifoError::Length(LengthError));
    }
    match outcome {
        Err(e) => Err(FifoError::Transport(e)),
        Ok(()) => {
            let count: u16 = combine_count(buffer[1], buffer[2]);
            Ok(count as usize / PACKET_SIZE)
        },
    }
}

} // verus!
