use raspecio::basic::{blink_multiple, blink_single, pwm_single, MIN_PITCH_MICROS};
use raspecio::error::Error;
use raspecio::waveform::{pulse_of_duty, Command, Level, Pulse, State, Waveform};

fn claim(pin: u8) -> Command {
    Command::Claim { pin }
}

fn high(pin: u8) -> Command {
    Command::Write { pin, level: Level::High }
}

fn low(pin: u8) -> Command {
    Command::Write { pin, level: Level::Low }
}

fn wait(micros: u64) -> Command {
    Command::Wait { micros }
}

fn run(mut wave: Waveform) -> Vec<Command> {
    let mut performed = Vec::new();
    while let Some(command) = wave.pending() {
        assert_ne!(wave.state(), State::Done);
        performed.push(command);
        wave = wave.advance();
    }
    assert_eq!(wave.state(), State::Done);
    let after = wave.advance();
    assert_eq!(after.pending(), None);
    assert_eq!(after.state(), State::Done);
    performed
}

fn states(mut wave: Waveform) -> Vec<State> {
    let mut passed = vec![wave.state()];
    while wave.pending().is_some() {
        wave = wave.advance();
        passed.push(wave.state());
    }
    passed
}

fn refusal(wave: Result<Waveform, Error>) -> Error {
    match wave {
        Ok(_) => panic!("the request was accepted"),
        Err(error) => error,
    }
}

#[test]
fn blink_single_two_cycles() {
    let wave = blink_single(17, 3, 2, 2, String::from("msec")).unwrap();
    assert_eq!(wave.pins(), &vec![17]);
    assert_eq!(wave.pulse_count(), 2);
    assert_eq!(
        run(wave),
        vec![
            claim(17),
            high(17),
            wait(3_000),
            low(17),
            wait(2_000),
            high(17),
            wait(3_000),
            low(17),
            wait(2_000),
            low(17),
        ]
    );
}

#[test]
fn blink_passes_from_idle_through_high_and_low_to_done() {
    let wave = blink_single(17, 3, 2, 2, String::from("msec")).unwrap();
    assert_eq!(
        states(wave),
        vec![
            State::Idle,
            State::Idle,
            State::High,
            State::High,
            State::Low,
            State::Low,
            State::High,
            State::High,
            State::Low,
            State::Low,
            State::Done,
        ]
    );
    let none = blink_multiple(vec![], 1, 1, 0, String::from("sec")).unwrap();
    assert_eq!(states(none), vec![State::Done]);
    let parked = blink_single(5, 1, 1, 0, String::from("sec")).unwrap();
    assert_eq!(states(parked), vec![State::Idle, State::Idle, State::Done]);
    let group = blink_multiple(vec![5, 6], 1, 1, 1, String::from("usec")).unwrap();
    assert_eq!(
        states(group),
        vec![
            State::Idle,
            State::Idle,
            State::Idle,
            State::High,
            State::High,
            State::High,
            State::Low,
            State::Low,
            State::Low,
            State::Low,
            State::Done,
        ]
    );
}

#[test]
fn blink_changes_the_level_twice_per_cycle_and_ends_low() {
    for cycles in [0usize, 1, 2, 7, 50] {
        let performed = run(blink_single(5, 10, 20, cycles, String::from("usec")).unwrap());
        let mut level = Level::Low;
        let mut rises = 0;
        let mut falls = 0;
        for command in performed.iter() {
            if let Command::Write { pin, level: written } = command {
                assert_eq!(*pin, 5);
                if *written != level {
                    match written {
                        Level::High => rises += 1,
                        Level::Low => falls += 1,
                    }
                    level = *written;
                }
            }
        }
        assert_eq!(rises, cycles);
        assert_eq!(falls, cycles);
        assert_eq!(level, Level::Low);
        assert_eq!(performed.last(), Some(&low(5)));
        assert_eq!(performed.len(), 4 * cycles + 2);
    }
}

#[test]
fn blink_without_cycles_only_parks_the_line() {
    let performed = run(blink_single(26, 1, 1, 0, String::from("sec")).unwrap());
    assert_eq!(performed, vec![claim(26), low(26)]);
}

#[test]
fn blink_multiple_claims_all_lines_before_any_write() {
    let wave = blink_multiple(vec![12, 5, 21], 1, 4, 1, String::from("sec")).unwrap();
    assert_eq!(wave.pins(), &vec![12, 5, 21]);
    assert_eq!(
        run(wave),
        vec![
            claim(12),
            claim(5),
            claim(21),
            high(12),
            high(5),
            high(21),
            wait(1_000_000),
            low(12),
            low(5),
            low(21),
            wait(4_000_000),
            low(12),
            low(5),
            low(21),
        ]
    );
}

#[test]
fn blink_multiple_without_lines_only_waits() {
    let performed = run(blink_multiple(vec![], 5, 6, 2, String::from("usec")).unwrap());
    assert_eq!(performed, vec![wait(5), wait(6), wait(5), wait(6)]);
}

#[test]
fn blink_on_pin_99_is_refused() {
    assert_eq!(refusal(blink_single(99, 1, 1, 1, String::from("sec"))), Error::InvalidPin);
}

#[test]
fn one_refused_line_refuses_the_group() {
    assert_eq!(
        refusal(blink_multiple(vec![5, 99, 6], 1, 1, 1, String::from("sec"))),
        Error::InvalidPin
    );
    assert_eq!(
        refusal(blink_multiple(vec![5, 6, 27], 1, 1, 1, String::from("sec"))),
        Error::InvalidPin
    );
    assert_eq!(refusal(pwm_single(99, 1000, vec![50], String::from("usec"))), Error::InvalidPin);
    assert_eq!(refusal(pwm_single(27, 1000, vec![50], String::from("usec"))), Error::InvalidPin);
}

#[test]
fn an_unknown_unit_is_refused() {
    assert_eq!(refusal(blink_single(5, 1, 1, 1, String::from("hours"))), Error::InvalidUnit);
    assert_eq!(
        refusal(blink_multiple(vec![5, 6], 1, 1, 1, String::from("minutes"))),
        Error::InvalidUnit
    );
    assert_eq!(refusal(pwm_single(5, 5000, vec![50], String::from(""))), Error::InvalidUnit);
    assert_eq!(refusal(pwm_single(5, 10, vec![50], String::from("us"))), Error::InvalidUnit);
}

#[test]
fn a_refused_line_is_reported_before_the_unit() {
    assert_eq!(refusal(blink_single(99, 1, 1, 1, String::from("hours"))), Error::InvalidPin);
    assert_eq!(
        refusal(blink_multiple(vec![5, 99], 1, 1, 1, String::from("hours"))),
        Error::InvalidPin
    );
    assert_eq!(refusal(pwm_single(99, 10, vec![50], String::from("hours"))), Error::InvalidPin);
    assert_eq!(refusal(pwm_single(99, 10, vec![50], String::from("usec"))), Error::InvalidPin);
}

#[test]
fn a_time_that_does_not_fit_is_refused() {
    assert_eq!(
        refusal(blink_single(5, u64::MAX, 1, 1, String::from("sec"))),
        Error::DurationOverflow
    );
    assert_eq!(
        refusal(blink_single(5, 1, u64::MAX, 1, String::from("msec"))),
        Error::DurationOverflow
    );
    assert_eq!(
        refusal(pwm_single(5, u64::MAX, vec![50], String::from("sec"))),
        Error::DurationOverflow
    );
    assert!(blink_single(5, u64::MAX, u64::MAX, 1, String::from("usec")).is_ok());
}

#[test]
fn a_short_pitch_is_refused_only_in_microseconds() {
    assert_eq!(MIN_PITCH_MICROS, 1_000);
    assert_eq!(refusal(pwm_single(5, 999, vec![50], String::from("usec"))), Error::PitchTooSmall);
    assert_eq!(refusal(pwm_single(5, 0, vec![], String::from("usec"))), Error::PitchTooSmall);
    assert!(pwm_single(5, 1_000, vec![50], String::from("usec")).is_ok());
    assert!(pwm_single(5, 999, vec![50], String::from("msec")).is_ok());
    assert!(pwm_single(5, 1, vec![50], String::from("sec")).is_ok());
    assert!(pwm_single(5, 0, vec![50], String::from("msec")).is_ok());
}

#[test]
fn pwm_table_of_zero_fifty_and_hundred_percent() {
    let wave = pwm_single(13, 1000, vec![0, 50, 100], String::from("usec")).unwrap();
    assert_eq!(wave.pins(), &vec![13]);
    assert_eq!(wave.pulse_count(), 3);
    assert_eq!(
        run(wave),
        vec![
            claim(13),
            high(13),
            wait(0),
            low(13),
            wait(1000),
            high(13),
            wait(500),
            low(13),
            wait(500),
            high(13),
            wait(1000),
            low(13),
            wait(0),
            low(13),
        ]
    );
}

#[test]
fn pwm_in_milliseconds_scales_the_pitch() {
    let performed = run(pwm_single(6, 2, vec![25], String::from("msec")).unwrap());
    assert_eq!(performed, vec![claim(6), high(6), wait(500), low(6), wait(1500), low(6)]);
}

#[test]
fn pwm_without_duties_only_parks_the_line() {
    let performed = run(pwm_single(6, 2, vec![], String::from("sec")).unwrap());
    assert_eq!(performed, vec![claim(6), low(6)]);
}

#[test]
fn a_duty_cycle_rounds_to_the_nearest_microsecond() {
    assert_eq!(pulse_of_duty(1000, 0), Pulse { high: 0, low: 1000 });
    assert_eq!(pulse_of_duty(1000, 50), Pulse { high: 500, low: 500 });
    assert_eq!(pulse_of_duty(1000, 100), Pulse { high: 1000, low: 0 });
    assert_eq!(pulse_of_duty(1001, 50), Pulse { high: 501, low: 500 });
    assert_eq!(pulse_of_duty(1049, 1), Pulse { high: 10, low: 1039 });
    assert_eq!(pulse_of_duty(1050, 1), Pulse { high: 11, low: 1039 });
    assert_eq!(pulse_of_duty(1000, 33), Pulse { high: 330, low: 670 });
    assert_eq!(pulse_of_duty(u64::MAX, 100), Pulse { high: u64::MAX, low: 0 });
    assert_eq!(pulse_of_duty(u64::MAX, 50).high + pulse_of_duty(u64::MAX, 50).low, u64::MAX);
}

#[test]
fn a_duty_cycle_above_hundred_percent_leaves_no_low_time() {
    assert_eq!(pulse_of_duty(1000, 150), Pulse { high: 1500, low: 0 });
    assert_eq!(pulse_of_duty(u64::MAX, 200), Pulse { high: u64::MAX, low: 0 });
    assert_eq!(pulse_of_duty(u64::MAX, u64::MAX), Pulse { high: u64::MAX, low: 0 });
}

#[test]
fn every_duty_cycle_up_to_hundred_fills_the_pitch() {
    for pitch in [0u64, 1, 99, 1000, 1001, 123_456_789, u64::MAX] {
        for duty in 0..=100u64 {
            let pulse = pulse_of_duty(pitch, duty);
            assert_eq!(pulse.high as u128 + pulse.low as u128, pitch as u128);
            let exact = pitch as u128 * duty as u128;
            assert!(pulse.high as u128 * 100 <= exact + 50);
            assert!(exact + 50 < pulse.high as u128 * 100 + 100);
        }
    }
}
