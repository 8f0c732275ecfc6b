//! The three waveform programs: blinking one line, blinking several lines
//! together, and a pulse train from a table of duty cycles.
//!
//! Each function checks its request and, if nothing is wrong with it, answers
//! with the [`Waveform`] to perform. A refused request yields no waveform, so
//! no line is claimed and none changes.

use vstd::prelude::*;
use crate::error::Error;
use crate::pins::{all_allowed, allowed, check_pins, is_allowed};
use crate::units::{normalize, normalized, Unit};
use crate::waveform::{duty_pulses, fixed_pulses, Pulse, Waveform, WaveformView};

verus! {

/// The shortest period, in microseconds, that a period given in microseconds
/// may have.
pub const MIN_PITCH_MICROS: u64 = 1_000;

/// Why a request to blink is refused, if it is. The pins are checked first,
/// then the unit, then the on time and the off time.
pub open spec fn blink_error(pins: Seq<u8>, on_time: u64, off_time: u64, unit: Seq<char>) -> Option<
    Error,
> {
    if !all_allowed(pins) {
        Some(Error::InvalidPin)
    } else if normalized(on_time, unit) is Err {
        Some(normalized(on_time, unit)->Err_0)
    } else if normalized(off_time, unit) is Err {
        Some(normalized(off_time, unit)->Err_0)
    } else {
        None
    }
}

/// The pulse of a blink: the on time and the off time in microseconds.
pub open spec fn blink_pulse(on_time: u64, off_time: u64, unit: Seq<char>) -> Pulse {
    Pulse { high: normalized(on_time, unit)->Ok_0, low: normalized(off_time, unit)->Ok_0 }
}

/// Why a request for a pulse train is refused, if it is. The pin is checked
/// first, then the period against the minimum, which holds only for a period
/// given in microseconds, then the unit, then the size of the period.
pub open spec fn pwm_error(pin: u8, pitch: u64, unit: Seq<char>) -> Option<Error> {
    if !allowed(pin) {
        Some(Error::InvalidPin)
    } else if pitch < MIN_PITCH_MICROS && Unit::from_tag(unit) == Some(Unit::Microseconds) {
        Some(Error::PitchTooSmall)
    } else if normalized(pitch, unit) is Err {
        Some(normalized(pitch, unit)->Err_0)
    } else {
        None
    }
}

/// Blinks one line: `n_cycles` times high for `on_time`, low for `off_time`,
/// both in `unit`, and low at the end.
pub fn blink_single(pin_id: u8, on_time: u64, off_time: u64, n_cycles: usize, unit: String) -> (wave:
    Result<Waveform, Error>)
    ensures
        match blink_error(seq![pin_id], on_time, off_time, unit@) {
            Some(error) => wave is Err && wave->Err_0 == error,
            None => wave is Ok && wave->Ok_0@ == WaveformView::fresh(
                seq![pin_id],
                fixed_pulses(blink_pulse(on_time, off_time, unit@), n_cycles as nat),
            ),
        },
{
    let mut pin_ids: Vec<u8> = Vec::new();
    pin_ids.push(pin_id);
    assert(pin_ids@ =~= seq![pin_id]);
    blink_multiple(pin_ids, on_time, off_time, n_cycles, unit)
}

/// Blinks several lines together: `n_cycles` times all high for `on_time`,
/// all low for `off_time`, both in `unit`, and all low at the end.
///
/// If any line is refused, the whole request is.
pub fn blink_multiple(
    pin_ids: Vec<u8>,
    on_time: u64,
    off_time: u64,
    n_cycles: usize,
    unit: String,
) -> (wave: Result<Waveform, Error>)
    ensures
        match blink_error(pin_ids@, on_time, off_time, unit@) {
            Some(error) => wave is Err && wave->Err_0 == error,
            None => wave is Ok && wave->Ok_0@ == WaveformView::fresh(
                pin_ids@,
                fixed_pulses(blink_pulse(on_time, off_time, unit@), n_cycles as nat),
            ),
        },
{
    match check_pins(&pin_ids) {
        Ok(()) => {},
        Err(error) => return Err(error),
    }
    let high = match normalize(on_time, unit.as_str()) {
        Ok(micros) => micros,
        Err(error) => return Err(error),
    };
    let low = match normalize(off_time, unit.as_str()) {
        Ok(micros) => micros,
        Err(error) => return Err(error),
    };
    Ok(Waveform::blink(pin_ids, Pulse { high, low }, n_cycles))
}

/// A pulse train on one line: one pulse per entry of `duties`, each entry the
/// percentage of the period `pitch`, given in `unit`, that the line is high.
pub fn pwm_single(pin_id: u8, pitch: u64, duties: Vec<u64>, unit: String) -> (wave: Result<
    Waveform,
    Error,
>)
    ensures
        match pwm_error(pin_id, pitch, unit@) {
            Some(error) => wave is Err && wave->Err_0 == error,
            None => wave is Ok && wave->Ok_0@ == WaveformView::fresh(
                seq![pin_id],
                duty_pulses(normalized(pitch, unit@)->Ok_0, duties@),
            ),
        },
{
    if !is_allowed(pin_id) {
        return Err(Error::InvalidPin);
    }
    let named = Unit::parse(unit.as_str());
    if pitch < MIN_PITCH_MICROS {
        match named {
            Ok(Unit::Microseconds) => return Err(Error::PitchTooSmall),
            _ => {},
        }
    }
    let period = match normalize(pitch, unit.as_str()) {
        Ok(micros) => micros,
        Err(error) => return Err(error),
    };
    Ok(Waveform::modulate(pin_id, period, duties))
}

/// A request that names a line outside the allow-list is refused with
/// `InvalidPin`, whatever else it holds: no waveform exists, so no line is
/// claimed, the allowed ones of the request neither.
pub proof fn lemma_disallowed_pin_refused(
    pins: Seq<u8>,
    which: int,
    on_time: u64,
    off_time: u64,
    pitch: u64,
    unit: Seq<char>,
)
    requires
        0 <= which < pins.len(),
        !allowed(pins[which]),
    ensures
        blink_error(pins, on_time, off_time, unit) == Some(Error::InvalidPin),
        blink_error(seq![pins[which]], on_time, off_time, unit) == Some(Error::InvalidPin),
        pwm_error(pins[which], pitch, unit) == Some(Error::InvalidPin),
{
    let single = seq![pins[which]];
    assert(!allowed(single[0]));
}

/// A request whose unit tag names no unit is refused with `InvalidUnit`,
/// provided its lines are allowed: a refused line is reported first.
pub proof fn lemma_unknown_unit_refused(
    pins: Seq<u8>,
    pin: u8,
    on_time: u64,
    off_time: u64,
    pitch: u64,
    unit: Seq<char>,
)
    requires
        Unit::from_tag(unit) is None,
        all_allowed(pins),
        allowed(pin),
    ensures
        normalized(pitch, unit) == Err::<u64, Error>(Error::InvalidUnit),
        blink_error(pins, on_time, off_time, unit) == Some(Error::InvalidUnit),
        blink_error(seq![pin], on_time, off_time, unit) == Some(Error::InvalidUnit),
        pwm_error(pin, pitch, unit) == Some(Error::InvalidUnit),
{
}

} // verus!
