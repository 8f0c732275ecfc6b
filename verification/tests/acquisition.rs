use raspecio::acquisition::{
    Acquisition, BusCommand, Device, CONVERSION_MICROS, SETTLE_MICROS, SPI_CLOCK_HZ,
};
use raspecio::codec::{ChipProfile, SelectorByte};
use raspecio::error::Error;
use raspecio::i2c_adc::ADS1015;
use raspecio::series::{Sample, SampleSeries};
use raspecio::spi_adc::{MCP3204, MCP3208};

/// Performs a run against a chip that answers every exchange with the next
/// code of `codes`, and returns the commands and the finished run.
fn run(mut acquisition: Acquisition, codes: &[u16]) -> (Vec<BusCommand>, Acquisition) {
    let mut performed = Vec::new();
    let mut answered = 0;
    while let Some(command) = acquisition.pending() {
        performed.push(command);
        acquisition = match command {
            BusCommand::Transfer(_) => {
                let code = codes[answered];
                answered += 1;
                acquisition.advance(&[0xFF, (code >> 8) as u8, code as u8])
            }
            BusCommand::Read(length) => {
                assert_eq!(length, 2);
                let code = codes[answered];
                answered += 1;
                acquisition.advance(&[(code >> 8) as u8, code as u8])
            }
            BusCommand::Write(_) | BusCommand::Wait(_) => acquisition.advance(&[]),
        };
    }
    assert_eq!(answered, codes.len());
    (performed, acquisition)
}

fn refusal(run: Result<Acquisition, Error>) -> Error {
    match run {
        Ok(_) => panic!("the request was accepted"),
        Err(error) => error,
    }
}

fn series_of(acquisition: Acquisition) -> SampleSeries {
    assert_eq!(acquisition.failure(), None);
    acquisition.into_series().expect("the run is finished")
}

#[test]
fn three_samples_of_four_channels_a_hundred_milliseconds_apart() {
    let chip = MCP3204::new(0);
    let acquisition = chip.read_continuous(3, 100).unwrap();
    assert_eq!(acquisition.profile(), ChipProfile::FamilyA(SelectorByte::First));
    assert_eq!(acquisition.device(), Device::Spi0);
    let codes: Vec<u16> = (0..12).map(|i| 100 * (i / 4) + i % 4).collect();
    let (performed, finished) = run(acquisition, &codes);

    let mut one_sample = Vec::new();
    for first in [0x06u8, 0x46, 0x86, 0xC6] {
        one_sample.push(BusCommand::Transfer([first, 0, 0]));
        one_sample.push(BusCommand::Wait(10));
    }
    one_sample.push(BusCommand::Wait(99_960));
    let mut expected = Vec::new();
    for _ in 0..3 {
        expected.extend(one_sample.iter().copied());
    }
    assert_eq!(performed, expected);

    let series = series_of(finished);
    assert_eq!(series.len(), 3);
    assert_eq!(series.channels(), 4);
    assert_eq!(series.period_ms(), 100);
    assert_eq!(series.elapsed_ms(), vec![0, 100, 200]);
    let seconds: Vec<f64> = series.elapsed_ms().iter().map(|ms| *ms as f64 * 0.001).collect();
    assert_eq!(seconds, vec![0.0, 0.1, 0.2]);
    for channel in 0..4u16 {
        let column = series.column(channel as usize).unwrap();
        assert_eq!(column.len(), 3);
        assert_eq!(column, vec![channel, 100 + channel, 200 + channel]);
    }
    assert_eq!(series.column(4), None);
    assert_eq!(series.row(0), Some(vec![0, 1, 2, 3]));
    assert_eq!(series.row(2), Some(vec![200, 201, 202, 203]));
    assert_eq!(series.row(3), None);
    assert_eq!(series.sample(1, 2), Some(Sample { elapsed_ms: 100, channel: 2, raw: 102 }));
    assert_eq!(series.sample(3, 0), None);
    assert_eq!(series.sample(0, 4), None);
}

#[test]
fn the_waits_of_a_sample_add_up_to_the_period() {
    assert_eq!(SETTLE_MICROS, 10);
    let (performed, _) = run(MCP3208::new(1).read_continuous(1, 7).unwrap(), &[0; 8]);
    let waited: u64 = performed
        .iter()
        .map(|command| match command {
            BusCommand::Wait(micros) => *micros,
            _ => 0,
        })
        .sum();
    assert_eq!(waited, 7_000);
    assert_eq!(performed.last(), Some(&BusCommand::Wait(7_000 - 80)));
}

#[test]
fn a_period_of_zero_leaves_no_gap() {
    let (performed, finished) = run(MCP3204::new(1).read_continuous(2, 0).unwrap(), &[9; 8]);
    assert_eq!(performed.len(), 18);
    assert_eq!(performed[8], BusCommand::Wait(0));
    assert_eq!(performed[17], BusCommand::Wait(0));
    assert_eq!(performed[1], BusCommand::Wait(10));
    assert_eq!(series_of(finished).elapsed_ms(), vec![0, 0]);
}

#[test]
fn the_longest_period() {
    let (performed, finished) = run(MCP3204::new(0).read_continuous(2, u16::MAX).unwrap(), &[1; 8]);
    assert_eq!(performed[8], BusCommand::Wait(65_535_000 - 40));
    assert_eq!(series_of(finished).elapsed_ms(), vec![0, 65_535]);
}

#[test]
fn no_samples_no_commands() {
    let acquisition = MCP3208::new(0).read_continuous(0, 100).unwrap();
    assert_eq!(acquisition.pending(), None);
    assert_eq!(acquisition.failure(), None);
    let series = acquisition.into_series().unwrap();
    assert_eq!(series.len(), 0);
    assert_eq!(series.channels(), 8);
    assert_eq!(series.elapsed_ms(), Vec::<u64>::new());
    assert_eq!(series.column(7), Some(vec![]));
    assert_eq!(series.column(8), None);
    assert_eq!(series.row(0), None);
}

#[test]
fn one_shot_of_the_four_channel_chip() {
    let acquisition = MCP3204::new(1).read_oneshot().unwrap();
    assert_eq!(acquisition.device(), Device::Spi1);
    let (performed, finished) = run(acquisition, &[4095, 0, 2803, 17]);
    assert_eq!(
        performed,
        vec![
            BusCommand::Transfer([0x06, 0, 0]),
            BusCommand::Transfer([0x46, 0, 0]),
            BusCommand::Transfer([0x86, 0, 0]),
            BusCommand::Transfer([0xC6, 0, 0]),
        ]
    );
    let series = series_of(finished);
    assert_eq!(series.len(), 1);
    assert_eq!(series.row(0), Some(vec![4095, 0, 2803, 17]));
    assert_eq!(series.elapsed_ms(), vec![0]);
}

#[test]
fn one_shot_of_the_eight_channel_chip() {
    let acquisition = MCP3208::new(0).read_oneshot().unwrap();
    assert_eq!(acquisition.profile(), ChipProfile::FamilyB);
    let (performed, finished) = run(acquisition, &[10, 11, 12, 13, 14, 15, 16, 17]);
    let second_bytes = [0x00u8, 0x40, 0x80, 0xC0, 0x20, 0x60, 0xA0, 0xE0];
    let expected: Vec<BusCommand> =
        second_bytes.iter().map(|byte| BusCommand::Transfer([0x06, *byte, 0])).collect();
    assert_eq!(performed, expected);
    assert_eq!(series_of(finished).row(0), Some(vec![10, 11, 12, 13, 14, 15, 16, 17]));
}

#[test]
fn one_shot_of_the_register_chip() {
    assert_eq!(CONVERSION_MICROS, 10_000);
    let acquisition = ADS1015::new(0x48).read_oneshot().unwrap();
    assert_eq!(acquisition.profile(), ChipProfile::Register);
    assert_eq!(acquisition.device(), Device::I2c(0x48));
    let (performed, finished) = run(acquisition, &[0x1234, 0, 0x7FFF, 0xFFFF]);
    let mut expected = Vec::new();
    for high in [0xC5u8, 0xD5, 0xE5, 0xF5] {
        expected.push(BusCommand::Write([0x01, high, 0x83]));
        expected.push(BusCommand::Wait(10_000));
        expected.push(BusCommand::Read(2));
    }
    assert_eq!(performed, expected);
    assert_eq!(series_of(finished).row(0), Some(vec![0x1234, 0, 0x7FFF, 0xFFFF]));
}

#[test]
fn a_series_of_the_register_chip_settles_after_each_read() {
    let acquisition = Acquisition::series(ChipProfile::Register, 0x49, 4, 2, 50).unwrap();
    assert_eq!(acquisition.device(), Device::I2c(0x49));
    let (performed, finished) = run(acquisition, &[1, 2, 3, 4, 5, 6, 7, 8]);
    assert_eq!(performed.len(), 2 * (4 * 4 + 1));
    assert_eq!(performed[0], BusCommand::Write([0x01, 0xC5, 0x83]));
    assert_eq!(performed[1], BusCommand::Wait(10_000));
    assert_eq!(performed[2], BusCommand::Read(2));
    assert_eq!(performed[3], BusCommand::Wait(10));
    assert_eq!(performed[16], BusCommand::Wait(9_960));
    let series = series_of(finished);
    assert_eq!(series.column(1), Some(vec![2, 6]));
    assert_eq!(series.elapsed_ms(), vec![0, 50]);
}

#[test]
fn a_period_shorter_than_the_conversions_leaves_no_gap() {
    let acquisition = Acquisition::series(ChipProfile::Register, 0x48, 4, 1, 40).unwrap();
    let (performed, _) = run(acquisition, &[1, 2, 3, 4]);
    assert_eq!(performed[16], BusCommand::Wait(0));
    let acquisition = Acquisition::series(ChipProfile::Register, 0x48, 4, 1, 41).unwrap();
    let (performed, _) = run(acquisition, &[1, 2, 3, 4]);
    assert_eq!(performed[16], BusCommand::Wait(960));
}

#[test]
fn the_other_four_channel_profile_puts_the_selector_in_the_second_byte() {
    let acquisition = Acquisition::once(ChipProfile::FamilyA(SelectorByte::Second), 0, 4).unwrap();
    let (performed, _) = run(acquisition, &[0; 4]);
    assert_eq!(
        performed,
        vec![
            BusCommand::Transfer([0x06, 0x00, 0]),
            BusCommand::Transfer([0x06, 0x40, 0]),
            BusCommand::Transfer([0x06, 0x80, 0]),
            BusCommand::Transfer([0x06, 0xC0, 0]),
        ]
    );
}

#[test]
fn an_unknown_bus_is_refused() {
    assert_eq!(SPI_CLOCK_HZ, 1_000_000);
    assert_eq!(refusal(MCP3204::new(2).read_oneshot()), Error::InvalidDeviceSelector);
    assert_eq!(refusal(MCP3204::new(2).read_continuous(3, 100)), Error::InvalidDeviceSelector);
    assert_eq!(refusal(MCP3208::new(255).read_oneshot()), Error::InvalidDeviceSelector);
    assert_eq!(refusal(MCP3208::new(2).read_continuous(3, 100)), Error::InvalidDeviceSelector);
    assert_eq!(
        refusal(Acquisition::once(ChipProfile::FamilyB, 256, 8)),
        Error::InvalidDeviceSelector
    );
}

#[test]
fn a_wrong_channel_count_is_refused() {
    assert_eq!(
        refusal(Acquisition::series(ChipProfile::FamilyB, 0, 4, 3, 100)),
        Error::InvalidChannelCount
    );
    assert_eq!(
        refusal(Acquisition::once(ChipProfile::FamilyA(SelectorByte::First), 1, 8)),
        Error::InvalidChannelCount
    );
    assert_eq!(
        refusal(Acquisition::once(ChipProfile::Register, 0x48, 0)),
        Error::InvalidChannelCount
    );
    assert_eq!(
        refusal(Acquisition::series(ChipProfile::FamilyB, 2, 4, 3, 100)),
        Error::InvalidDeviceSelector
    );
}

#[test]
fn a_failed_transaction_ends_the_run() {
    let mut acquisition = MCP3204::new(0).read_continuous(2, 10).unwrap();
    acquisition = acquisition.advance(&[0, 0x01, 0x02]);
    acquisition = acquisition.advance(&[]);
    assert_eq!(acquisition.pending(), Some(BusCommand::Transfer([0x46, 0, 0])));
    acquisition = acquisition.fail();
    assert_eq!(acquisition.pending(), None);
    assert_eq!(acquisition.failure(), Some(Error::DeviceIoFailure));
    acquisition = acquisition.advance(&[0, 0, 0]);
    assert_eq!(acquisition.pending(), None);
    assert_eq!(acquisition.failure(), Some(Error::DeviceIoFailure));
    assert!(acquisition.into_series().is_none());
}

#[test]
fn a_short_answer_ends_the_run() {
    let mut acquisition = MCP3208::new(1).read_oneshot().unwrap();
    acquisition = acquisition.advance(&[0, 0x01]);
    assert_eq!(acquisition.pending(), None);
    assert_eq!(acquisition.failure(), Some(Error::DeviceIoFailure));
    assert!(acquisition.into_series().is_none());

    let mut register = ADS1015::new(0x48).read_oneshot().unwrap();
    register = register.advance(&[]);
    register = register.advance(&[]);
    assert_eq!(register.pending(), Some(BusCommand::Read(2)));
    register = register.advance(&[0x12, 0x34, 0x56]);
    assert_eq!(register.failure(), Some(Error::DeviceIoFailure));
}

#[test]
fn nothing_fails_without_a_pending_command() {
    let (_, finished) = run(MCP3204::new(0).read_oneshot().unwrap(), &[1, 2, 3, 4]);
    let finished = finished.fail();
    assert_eq!(finished.failure(), None);
    let finished = finished.advance(&[1, 2, 3]);
    assert_eq!(finished.pending(), None);
    assert_eq!(finished.into_series().unwrap().row(0), Some(vec![1, 2, 3, 4]));
}

#[test]
fn an_unfinished_run_has_no_series() {
    let mut acquisition = MCP3204::new(0).read_oneshot().unwrap();
    acquisition = acquisition.advance(&[0, 0, 1]);
    assert_eq!(acquisition.failure(), None);
    assert!(acquisition.into_series().is_none());
}

#[test]
fn what_a_wait_brings_is_ignored() {
    let mut acquisition = MCP3204::new(0).read_continuous(1, 1).unwrap();
    acquisition = acquisition.advance(&[0, 0x0F, 0xFF]);
    assert_eq!(acquisition.pending(), Some(BusCommand::Wait(10)));
    acquisition = acquisition.advance(&[1, 2, 3, 4, 5]);
    assert_eq!(acquisition.failure(), None);
    assert_eq!(acquisition.pending(), Some(BusCommand::Transfer([0x46, 0, 0])));
}
