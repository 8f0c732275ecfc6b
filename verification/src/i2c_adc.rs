//! The converter on the addressed bus.

use vstd::prelude::*;
use crate::acquisition::{Acquisition, AcquisitionView, Device};
use crate::codec::ChipProfile;
use crate::error::Error;

verus! {

/// A four-channel converter at address `i2c_address` of the addressed bus.
/// Each reading is one conversion, started by a write to the chip's
/// configuration register.
#[derive(Debug, Clone, Copy, PartialEq, Eq, Structural)]
pub struct ADS1015 {
    /// The chip's address on the bus.
    pub i2c_address: u16,
}

impl ADS1015 {
    /// The chip at `i2c_address`.
    pub fn new(i2c_address: u16) -> (chip: ADS1015)
        ensures
            chip.i2c_address == i2c_address,
    {
        ADS1015 { i2c_address }
    }

    /// One reading of each of the four channels, in channel order. Never
    /// refused: whether the address is in use shows on the bus.
    pub fn read_oneshot(&self) -> (run: Result<Acquisition, Error>)
        ensures
            run is Ok,
            run->Ok_0@ == AcquisitionView::fresh(
                ChipProfile::Register,
                Device::I2c(self.i2c_address),
                1,
                0,
                None,
            ),
    {
        Acquisition::once(ChipProfile::Register, self.i2c_address, 4)
    }
}

} // verus!
