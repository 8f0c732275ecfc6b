use raspecio::error::Error;
use raspecio::units::{normalize, Duration, Unit};

#[test]
fn normalize_multiplies_by_the_unit() {
    assert_eq!(normalize(3, "sec"), Ok(3_000_000));
    assert_eq!(normalize(3, "msec"), Ok(3_000));
    assert_eq!(normalize(3, "usec"), Ok(3));
    assert_eq!(normalize(0, "sec"), Ok(0));
    assert_eq!(normalize(250, "msec"), Ok(250_000));
}

#[test]
fn normalize_refuses_other_tags() {
    assert_eq!(normalize(1, "hours"), Err(Error::InvalidUnit));
    assert_eq!(normalize(1, ""), Err(Error::InvalidUnit));
    assert_eq!(normalize(1, "Sec"), Err(Error::InvalidUnit));
    assert_eq!(normalize(1, "sec "), Err(Error::InvalidUnit));
    assert_eq!(normalize(1, "se"), Err(Error::InvalidUnit));
    assert_eq!(normalize(1, "µsec"), Err(Error::InvalidUnit));
    assert_eq!(normalize(1, "msecs"), Err(Error::InvalidUnit));
}

#[test]
fn normalize_reports_overflow() {
    let most_seconds = u64::MAX / 1_000_000;
    assert_eq!(normalize(most_seconds, "sec"), Ok(most_seconds * 1_000_000));
    assert_eq!(normalize(most_seconds + 1, "sec"), Err(Error::DurationOverflow));
    let most_millis = u64::MAX / 1_000;
    assert_eq!(normalize(most_millis, "msec"), Ok(most_millis * 1_000));
    assert_eq!(normalize(most_millis + 1, "msec"), Err(Error::DurationOverflow));
    assert_eq!(normalize(u64::MAX, "usec"), Ok(u64::MAX));
    assert_eq!(normalize(u64::MAX, "sec"), Err(Error::DurationOverflow));
}

#[test]
fn an_unknown_unit_wins_over_the_magnitude() {
    assert_eq!(normalize(u64::MAX, "hours"), Err(Error::InvalidUnit));
}

#[test]
fn units_parse_from_their_tags() {
    assert_eq!(Unit::parse("sec"), Ok(Unit::Seconds));
    assert_eq!(Unit::parse("msec"), Ok(Unit::Milliseconds));
    assert_eq!(Unit::parse("usec"), Ok(Unit::Microseconds));
    assert_eq!(Unit::parse("nsec"), Err(Error::InvalidUnit));
    assert_eq!(Unit::Seconds.multiplier(), 1_000_000);
    assert_eq!(Unit::Milliseconds.multiplier(), 1_000);
    assert_eq!(Unit::Microseconds.multiplier(), 1);
}

#[test]
fn a_duration_reads_back_from_its_microseconds() {
    let duration = Duration { magnitude: 7, unit: Unit::Seconds };
    let micros = duration.micros().unwrap();
    assert_eq!(micros, 7_000_000);
    assert_eq!(micros / Unit::Seconds.multiplier(), 7);
    assert_eq!(micros % Unit::Seconds.multiplier(), 0);
    let too_long = Duration { magnitude: u64::MAX, unit: Unit::Milliseconds };
    assert_eq!(too_long.micros(), Err(Error::DurationOverflow));
}
