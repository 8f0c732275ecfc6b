//! The acquisition loop as a state machine.
//!
//! An [`Acquisition`] knows the whole sequence of bus commands of a run, its
//! *script*: for every sample, one exchange with the chip per channel, with
//! the waits that the protocol and the sampling period ask for. It hands the
//! commands out one at a time. The caller performs the pending command on the
//! real bus and reports how it ended; the machine decodes each answer and
//! files the code under its sample and channel. When the script is exhausted
//! the readings leave as a [`SampleSeries`].

use vstd::prelude::*;
use crate::codec::ChipProfile;
use crate::error::Error;
use crate::series::{SampleSeries, SeriesView};

verus! {

/// Wait after each channel of a paced acquisition, in microseconds.
pub const SETTLE_MICROS: u64 = 10;

/// Wait between starting a conversion on a register-addressed chip and
/// reading its result, in microseconds.
pub const CONVERSION_MICROS: u64 = 10_000;

/// Clock of the serial bus in hertz.
pub const SPI_CLOCK_HZ: u32 = 1_000_000;

/// Where the chip is attached.
#[derive(Debug, Clone, Copy, PartialEq, Eq, Structural)]
pub enum Device {
    /// First serial bus, first chip select.
    Spi0,
    /// Second serial bus, first chip select.
    Spi1,
    /// The addressed bus, at this address.
    I2c(u16),
}

/// One thing for the caller to do on the bus.
#[derive(Debug, Clone, Copy, PartialEq, Eq)]
pub enum BusCommand {
    /// Send the frame and read three bytes back in the same transaction.
    Transfer([u8; 3]),
    /// Write the frame to the device.
    Write([u8; 3]),
    /// Read so many bytes from the device.
    Read(usize),
    /// Block for so many microseconds.
    Wait(u64),
}

impl BusCommand {
    /// Whether the command brings bytes back.
    pub open spec fn answered(self) -> bool {
        self is Transfer || self is Read
    }
}

/// The waits of a paced acquisition, in microseconds.
#[derive(Debug, Clone, Copy, PartialEq, Eq, Structural)]
pub struct Pace {
    /// After each channel.
    pub settle: u64,
    /// After the last channel of each sample.
    pub gap: u64,
}

/// The device that `selector` names for a chip of `profile`: a bus index for
/// a serial chip, an address for a register-addressed one.
pub open spec fn device_of(profile: ChipProfile, selector: u16) -> Option<Device> {
    match profile {
        ChipProfile::Register => Some(Device::I2c(selector)),
        _ => if selector == 0 {
            Some(Device::Spi0)
        } else if selector == 1 {
            Some(Device::Spi1)
        } else {
            None
        },
    }
}

/// The time that one channel spends waiting in a paced acquisition, in
/// microseconds: the settling wait, and before it the conversion wait of a
/// register-addressed chip.
pub open spec fn channel_waits(profile: ChipProfile) -> int {
    match profile {
        ChipProfile::Register => CONVERSION_MICROS + SETTLE_MICROS,
        _ => SETTLE_MICROS as int,
    }
}

/// The waits that keep samples `period_ms` apart: the settling wait after
/// each channel, and after the last channel what is left of the period once
/// the waits of the channels are taken off, or nothing if they use it up.
pub open spec fn pace_of(profile: ChipProfile, period_ms: u16) -> Pace {
    let spent = profile.channel_count() * channel_waits(profile);
    let period = period_ms * 1000;
    Pace {
        settle: SETTLE_MICROS,
        gap: if period >= spent {
            (period - spent) as u64
        } else {
            0
        },
    }
}

/// Why a request is refused, if it is: the device is checked first, then the
/// channel count.
pub open spec fn request_error(profile: ChipProfile, selector: u16, channel_count: usize) -> Option<
    Error,
> {
    if device_of(profile, selector) is None {
        Some(Error::InvalidDeviceSelector)
    } else if channel_count != profile.channel_count() {
        Some(Error::InvalidChannelCount)
    } else {
        None
    }
}

/// The commands that convert `channel` once and fetch the code.
///
/// A serial chip answers within the transfer that carries the command. A
/// register-addressed chip is told to convert, left alone for the conversion
/// time, and then read.
pub open spec fn exchange(profile: ChipProfile, channel: int) -> Seq<BusCommand> {
    match profile {
        ChipProfile::Register => seq![
            BusCommand::Write(profile.frame(channel)),
            BusCommand::Wait(CONVERSION_MICROS),
            BusCommand::Read(2),
        ],
        _ => seq![BusCommand::Transfer(profile.frame(channel))],
    }
}

/// The wait after a channel: none when the acquisition is not paced.
pub open spec fn settle(pace: Option<Pace>) -> Seq<BusCommand> {
    match pace {
        Some(p) => seq![BusCommand::Wait(p.settle)],
        None => Seq::empty(),
    }
}

/// The wait after the last channel of a sample: none when the acquisition is
/// not paced.
pub open spec fn gap(pace: Option<Pace>) -> Seq<BusCommand> {
    match pace {
        Some(p) => seq![BusCommand::Wait(p.gap)],
        None => Seq::empty(),
    }
}

/// The commands of one sample from channel `from` on: each channel's
/// exchange, followed by the settling wait, in channel order.
pub open spec fn sweep(profile: ChipProfile, pace: Option<Pace>, from: int) -> Seq<BusCommand>
    decreases profile.channel_count() - from,
{
    if from >= profile.channel_count() {
        Seq::empty()
    } else {
        exchange(profile, from) + settle(pace) + sweep(profile, pace, from + 1)
    }
}

/// The commands of one sample: all channels, then the gap.
pub open spec fn round(profile: ChipProfile, pace: Option<Pace>) -> Seq<BusCommand> {
    sweep(profile, pace, 0) + gap(pace)
}

/// The commands of a whole run of `samples` samples.
pub open spec fn script(profile: ChipProfile, pace: Option<Pace>, samples: nat) -> Seq<BusCommand>
    decreases samples,
{
    if samples == 0 {
        Seq::empty()
    } else {
        round(profile, pace) + script(profile, pace, (samples - 1) as nat)
    }
}

/// What an acquisition is, seen from outside.
#[verifier::ext_equal]
pub struct AcquisitionView {
    /// The chip.
    pub profile: ChipProfile,
    /// Where it is attached.
    pub device: Device,
    /// How many samples the run takes.
    pub samples: nat,
    /// Nominal distance of two samples in milliseconds.
    pub period_ms: u16,
    /// The commands not yet performed; the first is the pending one.
    pub remaining: Seq<BusCommand>,
    /// The complete rows so far: one code per channel each.
    pub table: Seq<Seq<u16>>,
    /// The codes of the sample in progress, in channel order.
    pub partial: Seq<u16>,
    /// Whether a bus transaction failed.
    pub failed: bool,
}

impl AcquisitionView {
    /// A run that has not begun.
    pub open spec fn fresh(
        profile: ChipProfile,
        device: Device,
        samples: nat,
        period_ms: u16,
        pace: Option<Pace>,
    ) -> AcquisitionView {
        AcquisitionView {
            profile,
            device,
            samples,
            period_ms,
            remaining: script(profile, pace, samples),
            table: Seq::empty(),
            partial: Seq::empty(),
            failed: false,
        }
    }

    /// A command is pending.
    pub open spec fn running(self) -> bool {
        self.remaining.len() > 0
    }

    /// Every command was performed and answered.
    pub open spec fn finished(self) -> bool {
        !self.failed && self.remaining.len() == 0
    }

    /// The readings once `code` is filed: it joins the sample in progress,
    /// and a sample that has a code for every channel becomes a row.
    pub open spec fn filed(self, code: u16) -> AcquisitionView {
        if self.partial.len() + 1 >= self.profile.channel_count() {
            AcquisitionView {
                table: self.table.push(self.partial.push(code)),
                partial: Seq::empty(),
                ..self
            }
        } else {
            AcquisitionView { partial: self.partial.push(code), ..self }
        }
    }

    /// The state after the pending command failed on the bus: the run is
    /// over, nothing more is handed out. Without a pending command nothing
    /// can fail.
    pub open spec fn faulted(self) -> AcquisitionView {
        if self.running() {
            AcquisitionView { failed: true, remaining: Seq::empty(), ..self }
        } else {
            self
        }
    }

    /// The state after the pending command was performed and brought `reply`.
    ///
    /// The answer to a transfer or a read is decoded and filed; one of the
    /// wrong length ends the run as a failed transaction. What a write or a
    /// wait brings is ignored. Without a pending command nothing changes.
    pub open spec fn advanced(self, reply: Seq<u8>) -> AcquisitionView {
        if !self.running() {
            self
        } else if self.remaining[0].answered() {
            match self.profile.decoded(reply) {
                Some(code) => AcquisitionView {
                    remaining: self.remaining.skip(1),
                    ..self.filed(code)
                },
                None => self.faulted(),
            }
        } else {
            AcquisitionView { remaining: self.remaining.skip(1), ..self }
        }
    }
}

/// Where in its script an acquisition stands.
#[derive(Debug, Clone, Copy)]
enum Cursor {
    /// Before command `step` of the exchange of `channel` in `sample`.
    Exchange { sample: u32, channel: usize, step: usize },
    /// Before the settling wait after `channel` in `sample`.
    Settle { sample: u32, channel: usize },
    /// Before the gap that ends `sample`.
    Gap { sample: u32 },
    /// Past the last command.
    Finished,
    /// Stopped by a failed transaction.
    Aborted,
}

/// The number of commands in one exchange.
spec fn exchange_steps(profile: ChipProfile) -> nat {
    match profile {
        ChipProfile::Register => 3,
        _ => 1,
    }
}

/// What follows the gap of `sample`.
spec fn past_round(profile: ChipProfile, pace: Option<Pace>, samples: nat, sample: int) -> Seq<
    BusCommand,
> {
    script(profile, pace, (samples - sample - 1) as nat)
}

/// What follows the last settling wait of `sample`.
spec fn past_sweep(profile: ChipProfile, pace: Option<Pace>, samples: nat, sample: int) -> Seq<
    BusCommand,
> {
    gap(pace) + past_round(profile, pace, samples, sample)
}

/// What follows the settling wait after `channel` in `sample`.
spec fn past_channel(
    profile: ChipProfile,
    pace: Option<Pace>,
    samples: nat,
    sample: int,
    channel: int,
) -> Seq<BusCommand> {
    sweep(profile, pace, channel + 1) + past_sweep(profile, pace, samples, sample)
}

/// What follows the exchange of `channel` in `sample`.
spec fn past_exchange(
    profile: ChipProfile,
    pace: Option<Pace>,
    samples: nat,
    sample: int,
    channel: int,
) -> Seq<BusCommand> {
    settle(pace) + past_channel(profile, pace, samples, sample, channel)
}

impl Cursor {
    /// The cursor points into the script.
    spec fn valid(self, profile: ChipProfile, pace: Option<Pace>, samples: nat) -> bool {
        match self {
            Cursor::Exchange { sample, channel, step } => {
                &&& sample < samples
                &&& channel < profile.channel_count()
                &&& step < exchange_steps(profile)
            },
            Cursor::Settle { sample, channel } => {
                &&& pace is Some
                &&& sample < samples
                &&& channel < profile.channel_count()
            },
            Cursor::Gap { sample } => pace is Some && sample < samples,
            Cursor::Finished => true,
            Cursor::Aborted => true,
        }
    }

    /// The commands from the cursor on.
    spec fn remaining(self, profile: ChipProfile, pace: Option<Pace>, samples: nat) -> Seq<
        BusCommand,
    > {
        match self {
            Cursor::Exchange { sample, channel, step } => exchange(profile, channel as int).skip(
                step as int,
            ) + past_exchange(profile, pace, samples, sample as int, channel as int),
            Cursor::Settle { sample, channel } => past_exchange(
                profile,
                pace,
                samples,
                sample as int,
                channel as int,
            ),
            Cursor::Gap { sample } => past_sweep(profile, pace, samples, sample as int),
            Cursor::Finished => Seq::empty(),
            Cursor::Aborted => Seq::empty(),
        }
    }

    /// How many rows are complete when the cursor stands here.
    spec fn rows(self, profile: ChipProfile, samples: nat) -> nat {
        match self {
            Cursor::Exchange { sample, .. } => sample as nat,
            Cursor::Settle { sample, channel } => if channel + 1 < profile.channel_count() {
                sample as nat
            } else {
                (sample + 1) as nat
            },
            Cursor::Gap { sample } => (sample + 1) as nat,
            Cursor::Finished => samples,
            Cursor::Aborted => 0,
        }
    }

    /// How many codes the sample in progress has when the cursor stands here.
    spec fn codes(self, profile: ChipProfile) -> nat {
        match self {
            Cursor::Exchange { channel, .. } => channel as nat,
            Cursor::Settle { channel, .. } => if channel + 1 < profile.channel_count() {
                (channel + 1) as nat
            } else {
                0
            },
            _ => 0,
        }
    }

    /// The cursor stands where a run stands that has just filed the code of
    /// `channel` in `sample`.
    spec fn follows_code(self, profile: ChipProfile, samples: nat, sample: int, channel: int) -> bool {
        if channel + 1 < profile.channel_count() {
            self.rows(profile, samples) == sample && self.codes(profile) == channel + 1
        } else {
            self.rows(profile, samples) == sample + 1 && self.codes(profile) == 0
        }
    }

    /// The cursor at the start of `sample`, or past the script if the run has
    /// no such sample.
    fn at_sample(profile: ChipProfile, pace: Option<Pace>, samples: u32, sample: u32) -> (cursor:
        Cursor)
        requires
            sample <= samples,
        ensures
            cursor.valid(profile, pace, samples as nat),
            cursor.remaining(profile, pace, samples as nat) == script(
                profile,
                pace,
                (samples - sample) as nat,
            ),
            cursor.rows(profile, samples as nat) == sample,
            cursor.codes(profile) == 0,
            !(cursor is Aborted),
    {
        if sample < samples {
            let cursor = Cursor::Exchange { sample, channel: 0, step: 0 };
            proof {
                let rest = script(profile, pace, (samples - sample - 1) as nat);
                let first = exchange(profile, 0);
                assert(first.skip(0) =~= first);
                assert(sweep(profile, pace, 0) == first + settle(pace) + sweep(profile, pace, 1));
                assert(cursor.remaining(profile, pace, samples as nat) =~= round(profile, pace)
                    + rest);
            }
            cursor
        } else {
            Cursor::Finished
        }
    }

    /// The cursor past the gap of `sample`.
    fn after_round(profile: ChipProfile, pace: Option<Pace>, samples: u32, sample: u32) -> (cursor:
        Cursor)
        requires
            sample < samples,
        ensures
            cursor.valid(profile, pace, samples as nat),
            cursor.remaining(profile, pace, samples as nat) == past_round(
                profile,
                pace,
                samples as nat,
                sample as int,
            ),
            cursor.rows(profile, samples as nat) == sample + 1,
            cursor.codes(profile) == 0,
            !(cursor is Aborted),
    {
        Cursor::at_sample(profile, pace, samples, sample + 1)
    }

    /// The cursor past the last settling wait of `sample`.
    fn after_sweep(profile: ChipProfile, pace: Option<Pace>, samples: u32, sample: u32) -> (cursor:
        Cursor)
        requires
            sample < samples,
        ensures
            cursor.valid(profile, pace, samples as nat),
            cursor.remaining(profile, pace, samples as nat) == past_sweep(
                profile,
                pace,
                samples as nat,
                sample as int,
            ),
            cursor.rows(profile, samples as nat) == sample + 1,
            cursor.codes(profile) == 0,
            !(cursor is Aborted),
    {
        if pace.is_some() {
            Cursor::Gap { sample }
        } else {
            let cursor = Cursor::after_round(profile, pace, samples, sample);
            assert(cursor.remaining(profile, pace, samples as nat) =~= past_sweep(
                profile,
                pace,
                samples as nat,
                sample as int,
            ));
            cursor
        }
    }

    /// The cursor past the settling wait after `channel` in `sample`.
    fn after_channel(
        profile: ChipProfile,
        pace: Option<Pace>,
        samples: u32,
        sample: u32,
        channel: usize,
    ) -> (cursor: Cursor)
        requires
            sample < samples,
            channel < profile.channel_count(),
        ensures
            cursor.valid(profile, pace, samples as nat),
            cursor.remaining(profile, pace, samples as nat) == past_channel(
                profile,
                pace,
                samples as nat,
                sample as int,
                channel as int,
            ),
            cursor.follows_code(profile, samples as nat, sample as int, channel as int),
            !(cursor is Aborted),
    {
        if channel + 1 < profile.channels() {
            let cursor = Cursor::Exchange { sample, channel: channel + 1, step: 0 };
            proof {
                let next = exchange(profile, channel + 1);
                assert(next.skip(0) =~= next);
                assert(sweep(profile, pace, channel + 1) == next + settle(pace) + sweep(
                    profile,
                    pace,
                    channel + 2,
                ));
                assert(cursor.remaining(profile, pace, samples as nat) =~= past_channel(
                    profile,
                    pace,
                    samples as nat,
                    sample as int,
                    channel as int,
                ));
            }
            cursor
        } else {
            let cursor = Cursor::after_sweep(profile, pace, samples, sample);
            assert(cursor.remaining(profile, pace, samples as nat) =~= past_channel(
                profile,
                pace,
                samples as nat,
                sample as int,
                channel as int,
            ));
            cursor
        }
    }

    /// The cursor past the exchange of `channel` in `sample`.
    fn after_exchange(
        profile: ChipProfile,
        pace: Option<Pace>,
        samples: u32,
        sample: u32,
        channel: usize,
    ) -> (cursor: Cursor)
        requires
            sample < samples,
            channel < profile.channel_count(),
        ensures
            cursor.valid(profile, pace, samples as nat),
            cursor.remaining(profile, pace, samples as nat) == past_exchange(
                profile,
                pace,
                samples as nat,
                sample as int,
                channel as int,
            ),
            cursor.follows_code(profile, samples as nat, sample as int, channel as int),
            !(cursor is Aborted),
    {
        if pace.is_some() {
            Cursor::Settle { sample, channel }
        } else {
            let cursor = Cursor::after_channel(profile, pace, samples, sample, channel);
            assert(cursor.remaining(profile, pace, samples as nat) =~= past_exchange(
                profile,
                pace,
                samples as nat,
                sample as int,
                channel as int,
            ));
            cursor
        }
    }
}

/// A run of the acquisition loop: one chip, a fixed number of samples.
#[derive(Debug)]
pub struct Acquisition {
    profile: ChipProfile,
    device: Device,
    samples: u32,
    pace: Option<Pace>,
    cursor: Cursor,
    done: SampleSeries,
    current: Vec<u16>,
}

impl View for Acquisition {
    type V = AcquisitionView;

    closed spec fn view(&self) -> AcquisitionView {
        AcquisitionView {
            profile: self.profile,
            device: self.device,
            samples: self.samples as nat,
            period_ms: self.done@.period_ms,
            remaining: self.cursor.remaining(self.profile, self.pace, self.samples as nat),
            table: self.done@.table,
            partial: self.current@,
            failed: self.cursor is Aborted,
        }
    }
}

impl Acquisition {
    #[verifier::type_invariant]
    spec fn inv(self) -> bool {
        &&& self.done@.channels == self.profile.channel_count()
        &&& self.done@.aligned()
        &&& self.cursor.valid(self.profile, self.pace, self.samples as nat)
        &&& !(self.cursor is Aborted) ==> {
            &&& self.done@.table.len() == self.cursor.rows(self.profile, self.samples as nat)
            &&& self.current@.len() == self.cursor.codes(self.profile)
        }
    }

    /// A run at the start of its script.
    fn start(
        profile: ChipProfile,
        device: Device,
        samples: u32,
        period_ms: u16,
        pace: Option<Pace>,
    ) -> (run: Acquisition)
        ensures
            run@ == AcquisitionView::fresh(profile, device, samples as nat, period_ms, pace),
    {
        let cursor = Cursor::at_sample(profile, pace, samples, 0);
        let done = SampleSeries::empty(profile.channels(), period_ms);
        let run = Acquisition { profile, device, samples, pace, cursor, done, current: Vec::new() };
        assert(run@ =~= AcquisitionView::fresh(profile, device, samples as nat, period_ms, pace));
        run
    }

    /// The device that `selector` names for a chip of `profile`.
    fn resolve(profile: ChipProfile, selector: u16) -> (device: Option<Device>)
        ensures
            device == device_of(profile, selector),
    {
        match profile {
            ChipProfile::Register => Some(Device::I2c(selector)),
            _ => if selector == 0 {
                Some(Device::Spi0)
            } else if selector == 1 {
                Some(Device::Spi1)
            } else {
                None
            },
        }
    }

    /// A run that converts every channel of the chip once, without waits
    /// between the channels.
    ///
    /// `selector` is the bus index of a serial chip, the address of a
    /// register-addressed one. The request is refused, before any command
    /// exists, if a serial chip's bus index is neither 0 nor 1, or else if
    /// `channel_count` is not the chip's number of channels.
    pub fn once(profile: ChipProfile, selector: u16, channel_count: usize) -> (run: Result<
        Acquisition,
        Error,
    >)
        ensures
            match request_error(profile, selector, channel_count) {
                Some(error) => run is Err && run->Err_0 == error,
                None => run is Ok && run->Ok_0@ == AcquisitionView::fresh(
                    profile,
                    device_of(profile, selector)->0,
                    1,
                    0,
                    None,
                ),
            },
    {
        let device = match Acquisition::resolve(profile, selector) {
            Some(device) => device,
            None => return Err(Error::InvalidDeviceSelector),
        };
        if channel_count != profile.channels() {
            return Err(Error::InvalidChannelCount);
        }
        Ok(Acquisition::start(profile, device, 1, 0, None))
    }

    /// A run that takes `n_samples` samples of every channel, nominally
    /// `period_ms` milliseconds apart.
    ///
    /// Each channel is followed by the settling wait, each sample by a wait
    /// for the rest of the period. `selector` and the refusals are those of
    /// [`Acquisition::once`].
    pub fn series(
        profile: ChipProfile,
        selector: u16,
        channel_count: usize,
        n_samples: u32,
        period_ms: u16,
    ) -> (run: Result<Acquisition, Error>)
        ensures
            match request_error(profile, selector, channel_count) {
                Some(error) => run is Err && run->Err_0 == error,
                None => run is Ok && run->Ok_0@ == AcquisitionView::fresh(
                    profile,
                    device_of(profile, selector)->0,
                    n_samples as nat,
                    period_ms,
                    Some(pace_of(profile, period_ms)),
                ),
            },
    {
        let device = match Acquisition::resolve(profile, selector) {
            Some(device) => device,
            None => return Err(Error::InvalidDeviceSelector),
        };
        if channel_count != profile.channels() {
            return Err(Error::InvalidChannelCount);
        }
        let waits: u64 = match profile {
            ChipProfile::Register => CONVERSION_MICROS + SETTLE_MICROS,
            _ => SETTLE_MICROS,
        };
        let spent: u64 = (profile.channels() as u64) * waits;
        let period: u64 = (period_ms as u64) * 1000;
        let gap: u64 = if period >= spent {
            period - spent
        } else {
            0
        };
        let pace = Pace { settle: SETTLE_MICROS, gap };
        Ok(Acquisition::start(profile, device, n_samples, period_ms, Some(pace)))
    }

    /// The chip.
    pub fn profile(&self) -> (profile: ChipProfile)
        ensures
            profile == self@.profile,
    {
        self.profile
    }

    /// Where the chip is attached.
    pub fn device(&self) -> (device: Device)
        ensures
            device == self@.device,
    {
        self.device
    }

    /// The command to perform now; `None` once the run is over.
    pub fn pending(&self) -> (command: Option<BusCommand>)
        ensures
            self@.running() ==> command == Some(self@.remaining[0]),
            !self@.running() ==> command is None,
    {
        proof {
            use_type_invariant(self);
        }
        match self.cursor {
            Cursor::Exchange { sample, channel, step } => {
                let frame = match self.profile.encode(channel) {
                    Some(frame) => frame,
                    None => return None,
                };
                let command = match self.profile {
                    ChipProfile::Register => if step == 0 {
                        BusCommand::Write(frame)
                    } else if step == 1 {
                        BusCommand::Wait(CONVERSION_MICROS)
                    } else {
                        BusCommand::Read(2)
                    },
                    _ => BusCommand::Transfer(frame),
                };
                assert(command == exchange(self.profile, channel as int)[step as int]);
                Some(command)
            },
            Cursor::Settle { .. } => match self.pace {
                Some(pace) => Some(BusCommand::Wait(pace.settle)),
                None => None,
            },
            Cursor::Gap { .. } => match self.pace {
                Some(pace) => Some(BusCommand::Wait(pace.gap)),
                None => None,
            },
            Cursor::Finished => None,
            Cursor::Aborted => None,
        }
    }

    /// Whether a bus transaction failed; the run is then over.
    pub fn failure(&self) -> (error: Option<Error>)
        ensures
            self@.failed ==> error == Some(Error::DeviceIoFailure),
            !self@.failed ==> error is None,
    {
        match self.cursor {
            Cursor::Aborted => Some(Error::DeviceIoFailure),
            _ => None,
        }
    }

    /// The run after the pending command was performed and brought `reply`
    /// (empty for a command that brings nothing).
    pub fn advance(self, reply: &[u8]) -> (next: Acquisition)
        ensures
            next@ == self@.advanced(reply@),
    {
        proof {
            use_type_invariant(&self);
        }
        let ghost before = self@;
        let Acquisition { profile, device, samples, pace, cursor, done, current } = self;
        match cursor {
            Cursor::Exchange { sample, channel, step } => {
                let ghost block = exchange(profile, channel as int);
                let ghost rest = past_exchange(
                    profile,
                    pace,
                    samples as nat,
                    sample as int,
                    channel as int,
                );
                assert(before.remaining[0] == block[step as int]);
                let steps: usize = match profile {
                    ChipProfile::Register => 3,
                    _ => 1,
                };
                if step + 1 < steps {
                    let cursor = Cursor::Exchange { sample, channel, step: step + 1 };
                    let next = Acquisition { profile, device, samples, pace, cursor, done, current };
                    assert(next@.remaining =~= before.remaining.skip(1));
                    assert(next@ =~= before.advanced(reply@));
                    next
                } else {
                    assert((block.skip(step as int) + rest).skip(1) =~= rest);
                    match profile.decode(reply) {
                        Ok(code) => {
                            let cursor = Cursor::after_exchange(
                                profile,
                                pace,
                                samples,
                                sample,
                                channel,
                            );
                            let mut current = current;
                            current.push(code);
                            if channel + 1 < profile.channels() {
                                let next = Acquisition {
                                    profile,
                                    device,
                                    samples,
                                    pace,
                                    cursor,
                                    done,
                                    current,
                                };
                                assert(next@ =~= before.advanced(reply@));
                                next
                            } else {
                                let done = done.append(current);
                                let next = Acquisition {
                                    profile,
                                    device,
                                    samples,
                                    pace,
                                    cursor,
                                    done,
                                    current: Vec::new(),
                                };
                                assert(next@ =~= before.advanced(reply@));
                                next
                            }
                        },
                        Err(_) => {
                            let next = Acquisition {
                                profile,
                                device,
                                samples,
                                pace,
                                cursor: Cursor::Aborted,
                                done,
                                current,
                            };
                            assert(next@ =~= before.advanced(reply@));
                            next
                        },
                    }
                }
            },
            Cursor::Settle { sample, channel } => {
                let ghost rest = past_channel(
                    profile,
                    pace,
                    samples as nat,
                    sample as int,
                    channel as int,
                );
                assert((settle(pace) + rest).skip(1) =~= rest);
                let cursor = Cursor::after_channel(profile, pace, samples, sample, channel);
                let next = Acquisition { profile, device, samples, pace, cursor, done, current };
                assert(next@ =~= before.advanced(reply@));
                next
            },
            Cursor::Gap { sample } => {
                let ghost rest = past_round(profile, pace, samples as nat, sample as int);
                assert((gap(pace) + rest).skip(1) =~= rest);
                let cursor = Cursor::after_round(profile, pace, samples, sample);
                let next = Acquisition { profile, device, samples, pace, cursor, done, current };
                assert(next@ =~= before.advanced(reply@));
                next
            },
            Cursor::Finished => {
                let next = Acquisition { profile, device, samples, pace, cursor, done, current };
                assert(next@ =~= before.advanced(reply@));
                next
            },
            Cursor::Aborted => {
                let next = Acquisition { profile, device, samples, pace, cursor, done, current };
                assert(next@ =~= before.advanced(reply@));
                next
            },
        }
    }

    /// The run after the pending command failed on the bus.
    pub fn fail(self) -> (next: Acquisition)
        ensures
            next@ == self@.faulted(),
    {
        proof {
            use_type_invariant(&self);
        }
        let ghost before = self@;
        let Acquisition { profile, device, samples, pace, cursor, done, current } = self;
        match cursor {
            Cursor::Finished => {
                let next = Acquisition { profile, device, samples, pace, cursor, done, current };
                assert(next@ =~= before.faulted());
                next
            },
            _ => {
                let next = Acquisition {
                    profile,
                    device,
                    samples,
                    pace,
                    cursor: Cursor::Aborted,
                    done,
                    current,
                };
                assert(next@ =~= before.faulted());
                next
            },
        }
    }

    /// The readings of a finished run; `None` while commands remain or after
    /// a failure.
    ///
    /// The series has one row per sample, each with one code per channel in
    /// channel order, and the sampling period of the run.
    pub fn into_series(self) -> (series: Option<SampleSeries>)
        ensures
            self@.finished() ==> series is Some && series->0@ == (SeriesView {
                channels: self@.profile.channel_count(),
                period_ms: self@.period_ms,
                table: self@.table,
            }) && self@.table.len() == self@.samples && series->0@.aligned(),
            !self@.finished() ==> series is None,
    {
        proof {
            use_type_invariant(&self);
        }
        match self.cursor {
            Cursor::Finished => Some(self.done),
            _ => None,
        }
    }
}

/// The time that one command spends waiting, in microseconds.
pub open spec fn wait_of(command: BusCommand) -> int {
    match command {
        BusCommand::Wait(micros) => micros as int,
        _ => 0,
    }
}

/// The time that the commands spend waiting, in microseconds.
pub open spec fn waiting(commands: Seq<BusCommand>) -> int
    decreases commands.len(),
{
    if commands.len() == 0 {
        0
    } else {
        waiting(commands.drop_last()) + wait_of(commands.last())
    }
}

/// The waits of a concatenation are those of its parts.
pub proof fn lemma_waiting_concat(first: Seq<BusCommand>, second: Seq<BusCommand>)
    ensures
        waiting(first + second) == waiting(first) + waiting(second),
    decreases second.len(),
{
    if second.len() == 0 {
        assert(first + second =~= first);
    } else {
        assert((first + second).drop_last() =~= first + second.drop_last());
        lemma_waiting_concat(first, second.drop_last());
    }
}

/// A single command waits for as long as it says.
proof fn lemma_waiting_one(command: BusCommand)
    ensures
        waiting(seq![command]) == wait_of(command),
{
    assert(seq![command].drop_last() =~= Seq::<BusCommand>::empty());
    assert(waiting(Seq::<BusCommand>::empty()) == 0);
}

/// One exchange waits for the conversion, if the chip needs one.
proof fn lemma_waiting_exchange(profile: ChipProfile, channel: int)
    ensures
        waiting(exchange(profile, channel)) == channel_waits(profile) - SETTLE_MICROS,
{
    match profile {
        ChipProfile::Register => {
            let write = BusCommand::Write(profile.frame(channel));
            let wait = BusCommand::Wait(CONVERSION_MICROS);
            let read = BusCommand::Read(2);
            assert(exchange(profile, channel) =~= seq![write] + seq![wait] + seq![read]);
            lemma_waiting_one(write);
            lemma_waiting_one(wait);
            lemma_waiting_one(read);
            lemma_waiting_concat(seq![write], seq![wait]);
            lemma_waiting_concat(seq![write] + seq![wait], seq![read]);
        },
        _ => {
            lemma_waiting_one(BusCommand::Transfer(profile.frame(channel)));
        },
    }
}

/// The waits of the channels from `from` on, in one sample of a paced
/// acquisition.
proof fn lemma_waiting_sweep(profile: ChipProfile, pace: Pace, from: int)
    requires
        0 <= from <= profile.channel_count(),
        pace.settle == SETTLE_MICROS,
    ensures
        waiting(sweep(profile, Some(pace), from)) == (profile.channel_count() - from)
            * channel_waits(profile),
    decreases profile.channel_count() - from,
{
    if from < profile.channel_count() {
        let one = exchange(profile, from);
        let pause = settle(Some(pace));
        let rest = sweep(profile, Some(pace), from + 1);
        lemma_waiting_sweep(profile, pace, from + 1);
        lemma_waiting_concat(one + pause, rest);
        lemma_waiting_concat(one, pause);
        lemma_waiting_one(BusCommand::Wait(pace.settle));
        lemma_waiting_exchange(profile, from);
        assert((profile.channel_count() - from) * channel_waits(profile) == channel_waits(profile)
            + (profile.channel_count() - from - 1) * channel_waits(profile)) by (nonlinear_arith);
    } else {
        assert(waiting(Seq::<BusCommand>::empty()) == 0);
    }
}

/// Where the period is at least as long as the waits of the channels, the
/// waits of one sample of a paced acquisition add up to the period.
pub proof fn lemma_round_fills_period(profile: ChipProfile, period_ms: u16)
    requires
        period_ms * 1000 >= profile.channel_count() * channel_waits(profile),
    ensures
        waiting(round(profile, Some(pace_of(profile, period_ms)))) == period_ms * 1000,
{
    let pace = pace_of(profile, period_ms);
    lemma_waiting_sweep(profile, pace, 0);
    lemma_waiting_concat(sweep(profile, Some(pace), 0), gap(Some(pace)));
    lemma_waiting_one(BusCommand::Wait(pace.gap));
}

/// Where the period is at least as long as the waits of the channels, a
/// paced run waits one period per sample: sample `i` begins `i` periods after
/// the start, at the time that its row carries.
pub proof fn lemma_script_keeps_period(profile: ChipProfile, period_ms: u16, samples: nat)
    requires
        period_ms * 1000 >= profile.channel_count() * channel_waits(profile),
    ensures
        waiting(script(profile, Some(pace_of(profile, period_ms)), samples)) == samples * (period_ms
            * 1000),
    decreases samples,
{
    let pace = Some(pace_of(profile, period_ms));
    if samples == 0 {
        assert(waiting(Seq::<BusCommand>::empty()) == 0);
    } else {
        lemma_round_fills_period(profile, period_ms);
        lemma_script_keeps_period(profile, period_ms, (samples - 1) as nat);
        lemma_waiting_concat(round(profile, pace), script(profile, pace, (samples - 1) as nat));
        assert(samples * (period_ms * 1000) == period_ms * 1000 + (samples - 1) * (period_ms
            * 1000)) by (nonlinear_arith);
    }
}

} // verus!
