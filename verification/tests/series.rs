use raspecio::series::SampleSeries;

#[test]
fn an_empty_series() {
    let series = SampleSeries::empty(4, 250);
    assert_eq!(series.len(), 0);
    assert_eq!(series.channels(), 4);
    assert_eq!(series.period_ms(), 250);
    assert_eq!(series.elapsed_ms(), Vec::<u64>::new());
    assert_eq!(series.row(0), None);
    assert_eq!(series.column(0), Some(vec![]));
    assert_eq!(series.column(3), Some(vec![]));
    assert_eq!(series.column(4), None);
    assert_eq!(series.sample(0, 0), None);
}

#[test]
fn a_series_without_channels() {
    let series = SampleSeries::empty(0, 1);
    assert_eq!(series.channels(), 0);
    assert_eq!(series.column(0), None);
}
