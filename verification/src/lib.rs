//! Driver core for the ICM-42688 six-axis inertial sensor.
//!
//! The core decides and the caller acts. Every operation is cut at the
//! points where the bus is needed: one step says which [`bus::Transaction`]
//! to perform, the next takes what the bus returned. The handle keeps the
//! bus for its owner but never calls it, so the same core serves blocking
//! and asynchronous buses alike.
//!
//! A handle is [`Uninitialized`] until the power-up sequence has succeeded.
//! Only a [`Ready`] handle offers the FIFO operations and the low-level
//! register access.

use vstd::prelude::*;

pub mod bus;
pub mod fifo;
pub mod ll;
pub mod ready;
pub mod register_bank;
pub mod uninitialized;

verus! {

/// State of a handle whose device has not been initialized.
#[derive(Debug)]
pub struct Uninitialized;

/// State of a handle whose device is initialized and ready for use.
#[derive(Debug)]
pub struct Ready;

/// Handle of the device. `State` is [`Uninitialized`] or [`Ready`].
pub struct ICM42688<BUS, State> {
    ll: crate::ll::ICM42688<BUS>,
    _state: State,
}

impl<BUS, State> ICM42688<BUS, State> {
    /// The low-level handle inside: the bus and the selected bank.
    pub closed spec fn low_level(&self) -> crate::ll::ICM42688<BUS> {
        self.ll
    }
}

} // verus!
