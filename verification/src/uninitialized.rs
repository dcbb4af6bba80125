//! The handle before initialization.

use vstd::prelude::*;
use crate::register_bank::RegisterBank;
use crate::{Ready, Uninitialized, ICM42688};

verus! {

impl<BUS> ICM42688<BUS, Uninitialized> {
    /// Takes the bus. The device counts as not initialized, with bank 0
    /// selected.
    pub fn new(bus: BUS) -> (handle: Self)
        ensures
            handle.low_level() == crate::ll::ICM42688::fresh(bus),
            handle.low_level().held_bus() == bus,
            handle.low_level().current_bank() == RegisterBank::Bank0,
    {
        ICM42688 { ll: crate::ll::ICM42688::new(bus), _state: Uninitialized }
    }

    /// Ends the uninitialized state, given how the power-up sequence went.
    ///
    /// The sequence itself is run by the caller. If it succeeded the handle
    /// becomes ready, with the same bus and the same bank. If it failed the
    /// failure is handed back and the handle is gone.
    pub fn initialize<E>(self, outcome: Result<(), E>) -> (ready: Result<ICM42688<BUS, Ready>, E>)
        ensures
            match ready {
                Ok(handle) => outcome is Ok && handle.low_level() == self.low_level(),
                Err(e) => outcome == Err::<(), E>(e),
            },
    {
        match outcome {
            Ok(()) => Ok(ICM42688 { ll: self.ll, _state: Ready }),
            Err(e) => Err(e),
        }
    }

    /// Gives the bus back and ends the handle.
    pub fn release(self) -> (bus: BUS)
        ensures
            bus == self.low_level().held_bus(),
    {
        self.ll.release()
    }
}

} // verus!
