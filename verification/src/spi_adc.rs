//! The converters on the serial bus.

use vstd::prelude::*;
use crate::acquisition::{device_of, pace_of, request_error, Acquisition, AcquisitionView};
use crate::codec::{ChipProfile, SelectorByte};
use crate::error::Error;

verus! {

/// A four-channel, 12-bit converter on serial bus `spi_num`.
#[derive(Debug, Clone, Copy, PartialEq, Eq, Structural)]
pub struct MCP3204 {
    /// The index of the bus: 0 or 1.
    pub spi_num: u8,
}

impl MCP3204 {
    /// The chip's profile: the channel selector shares the first byte of the
    /// frame with the start marker.
    pub open spec fn profile() -> ChipProfile {
        ChipProfile::FamilyA(SelectorByte::First)
    }

    /// The chip on bus `spi_num`. The index is checked when a reading is
    /// asked for.
    pub fn new(spi_num: u8) -> (chip: MCP3204)
        ensures
            chip.spi_num == spi_num,
    {
        MCP3204 { spi_num }
    }

    /// One reading of each of the four channels, in channel order.
    ///
    /// Refused with `InvalidDeviceSelector` if the bus index is neither 0
    /// nor 1.
    pub fn read_oneshot(&self) -> (run: Result<Acquisition, Error>)
        ensures
            match request_error(Self::profile(), self.spi_num as u16, 4) {
                Some(error) => run is Err && run->Err_0 == error,
                None => run is Ok && run->Ok_0@ == AcquisitionView::fresh(
                    Self::profile(),
                    device_of(Self::profile(), self.spi_num as u16)->0,
                    1,
                    0,
                    None,
                ),
            },
    {
        Acquisition::once(ChipProfile::FamilyA(SelectorByte::First), self.spi_num as u16, 4)
    }

    /// `n_samples` readings of each of the four channels, `sleep_msec`
    /// milliseconds apart.
    ///
    /// Refused with `InvalidDeviceSelector` if the bus index is neither 0
    /// nor 1.
    pub fn read_continuous(&self, n_samples: u32, sleep_msec: u16) -> (run: Result<
        Acquisition,
        Error,
    >)
        ensures
            match request_error(Self::profile(), self.spi_num as u16, 4) {
                Some(error) => run is Err && run->Err_0 == error,
                None => run is Ok && run->Ok_0@ == AcquisitionView::fresh(
                    Self::profile(),
                    device_of(Self::profile(), self.spi_num as u16)->0,
                    n_samples as nat,
                    sleep_msec,
                    Some(pace_of(Self::profile(), sleep_msec)),
                ),
            },
    {
        Acquisition::series(
            ChipProfile::FamilyA(SelectorByte::First),
            self.spi_num as u16,
            4,
            n_samples,
            sleep_msec,
        )
    }
}

/// An eight-channel, 12-bit converter on serial bus `spi_num`.
#[derive(Debug, Clone, Copy, PartialEq, Eq, Structural)]
pub struct MCP3208 {
    /// The index of the bus: 0 or 1.
    pub spi_num: u8,
}

impl MCP3208 {
    /// The chip's profile.
    pub open spec fn profile() -> ChipProfile {
        ChipProfile::FamilyB
    }

    /// The chip on bus `spi_num`. The index is checked when a reading is
    /// asked for.
    pub fn new(spi_num: u8) -> (chip: MCP3208)
        ensures
            chip.spi_num == spi_num,
    {
        MCP3208 { spi_num }
    }

    /// One reading of each of the eight channels, in channel order.
    ///
    /// Refused with `InvalidDeviceSelector` if the bus index is neither 0
    /// nor 1.
    pub fn read_oneshot(&self) -> (run: Result<Acquisition, Error>)
        ensures
            match request_error(Self::profile(), self.spi_num as u16, 8) {
                Some(error) => run is Err && run->Err_0 == error,
                None => run is Ok && run->Ok_0@ == AcquisitionView::fresh(
                    Self::profile(),
                    device_of(Self::profile(), self.spi_num as u16)->0,
                    1,
                    0,
                    None,
                ),
            },
    {
        Acquisition::once(ChipProfile::FamilyB, self.spi_num as u16, 8)
    }

    /// `n_samples` readings of each of the eight channels, `sleep_msec`
    /// milliseconds apart.
    ///
    /// Refused with `InvalidDeviceSelector` if the bus index is neither 0
    /// nor 1.
    pub fn read_continuous(&self, n_samples: u32, sleep_msec: u16) -> (run: Result<
        Acquisition,
        Error,
    >)
        ensures
            match request_error(Self::profile(), self.spi_num as u16, 8) {
                Some(error) => run is Err && run->Err_0 == error,
                None => run is Ok && run->Ok_0@ == AcquisitionView::fresh(
                    Self::profile(),
                    device_of(Self::profile(), self.spi_num as u16)->0,
                    n_samples as nat,
                    sleep_msec,
                    Some(pace_of(Self::profile(), sleep_msec)),
                ),
            },
    {
        Acquisition::series(ChipProfile::FamilyB, self.spi_num as u16, 8, n_samples, sleep_msec)
    }
}

} // verus!
