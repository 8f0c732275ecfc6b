use raspecio::error::Error;

#[test]
fn every_failure_has_its_text() {
    assert_eq!(Error::InvalidPin.message(), "Invalid pin number");
    assert_eq!(Error::InvalidUnit.message(), "Invalid unit");
    assert_eq!(Error::InvalidDeviceSelector.message(), "Invalid SPI number");
    assert_eq!(Error::PitchTooSmall.message(), "Pitch must be at least 1000 usec");
    assert_eq!(
        Error::DurationOverflow.message(),
        "Duration does not fit in 64 bits of microseconds"
    );
    assert_eq!(Error::InvalidChannelCount.message(), "Invalid channel count");
    assert_eq!(Error::DeviceIoFailure.message(), "Device I/O failure");
}
