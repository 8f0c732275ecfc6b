//! Signal timing and multi-channel acquisition for single-board-computer
//! peripherals.
//!
//! The crate decides *what* is sent to the hardware and *when*: which lines
//! are driven to which level, how long each wait lasts, which command frame
//! selects which converter channel, and how the answers are laid out as a
//! time-indexed series. It never touches a device itself. Each program is a
//! small state machine that hands out one command at a time; the caller
//! performs the command on the real pin or bus and reports back.

pub mod acquisition;
pub mod basic;
pub mod codec;
pub mod edges;
pub mod error;
pub mod i2c_adc;
pub mod pins;
pub mod series;
pub mod spi_adc;
pub mod units;
pub mod waveform;
