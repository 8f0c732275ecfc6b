//! The failures that a request or a running program can report.

use vstd::prelude::*;

verus! {

/// Why a request was refused, or why a running acquisition stopped.
///
/// Every variant but [`Error::DeviceIoFailure`] is found while the request is
/// checked, before any command has been handed out.
#[derive(Debug, Clone, Copy, PartialEq, Eq, Structural)]
pub enum Error {
    /// A requested line is not on the allow-list of usable output pins.
    InvalidPin,
    /// The unit tag is none of `"sec"`, `"msec"`, `"usec"`.
    InvalidUnit,
    /// The bus index names no bus of the board.
    InvalidDeviceSelector,
    /// A pulse period given in microseconds is shorter than the minimum.
    PitchTooSmall,
    /// A duration does not fit in 64 bits once expressed in microseconds.
    DurationOverflow,
    /// The requested channel count is not the one of the chip's channel table.
    InvalidChannelCount,
    /// A bus transaction failed, or answered with the wrong number of bytes.
    DeviceIoFailure,
}

impl Error {
    /// The text of the failure.
    pub open spec fn text(self) -> Seq<char> {
        match self {
            Error::InvalidPin => "Invalid pin number"@,
            Error::InvalidUnit => "Invalid unit"@,
            Error::InvalidDeviceSelector => "Invalid SPI number"@,
            Error::PitchTooSmall => "Pitch must be at least 1000 usec"@,
            Error::DurationOverflow => "Duration does not fit in 64 bits of microseconds"@,
            Error::InvalidChannelCount => "Invalid channel count"@,
            Error::DeviceIoFailure => "Device I/O failure"@,
        }
    }

    /// The text of the failure, for whoever reports it.
    pub fn message(&self) -> (text: &'static str)
        ensures
            text@ == self.text(),
    {
        match self {
            Error::InvalidPin => "Invalid pin number",
            Error::InvalidUnit => "Invalid unit",
            Error::InvalidDeviceSelector => "Invalid SPI number",
            Error::PitchTooSmall => "Pitch must be at least 1000 usec",
            Error::DurationOverflow => "Duration does not fit in 64 bits of microseconds",
            Error::InvalidChannelCount => "Invalid channel count",
            Error::DeviceIoFailure => "Device I/O failure",
        }
    }
}

} // verus!
