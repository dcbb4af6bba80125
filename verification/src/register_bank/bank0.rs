//! The registers of bank 0 that the FIFO protocol touches.

use vstd::prelude::*;

verus! {

/// Interrupt status; the first register of the FIFO burst header.
pub const INT_STATUS: u8 = 0x2D;

/// Bits 15..8 of the number of bytes waiting in the FIFO.
pub const FIFO_COUNTH: u8 = 0x2E;

/// Bits 7..0 of the number of bytes waiting in the FIFO.
pub const FIFO_COUNTL: u8 = 0x2F;

/// Signal path reset; holds the FIFO flush bit.
pub const SIGNAL_PATH_RESET: u8 = 0x4B;

/// The bit of [`SIGNAL_PATH_RESET`] that empties the FIFO.
pub const FIFO_FLUSH: u8 = 0x02;

} // verus!
