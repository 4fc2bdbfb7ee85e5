//! Tests for the rolling metric series: window shape, monotonic-total
//! tolerance, the rate formula, and the end-to-end restart scenario.
//!
//! Times are milliseconds; totals are milli-units; rates are milli-units
//! per minute.

use lolburst::series::{rate_display_parts, ConfigError, RollingMetricSeries};

#[test]
fn zero_capacity_is_a_fatal_misconfiguration() {
    let result = RollingMetricSeries::initialize(0, 1000, 0);
    assert!(matches!(result, Err(ConfigError::ZeroCapacity)));
}

#[test]
fn initialize_backfills_the_window() {
    let series = RollingMetricSeries::initialize(5, 60_000, 0).unwrap();
    let timestamps: Vec<i64> = series.samples.iter().map(|s| s.timestamp).collect();
    assert_eq!(timestamps, vec![-240_000, -180_000, -120_000, -60_000, 0]);
    assert!(series.samples.iter().all(|s| s.rate == 0));
    assert_eq!(series.running_total, 0);
    assert_eq!(series.last_raw_value, None);
}

#[test]
fn window_invariant_after_any_number_of_advances() {
    let mut series = RollingMetricSeries::initialize(4, 30_000, 0).unwrap();
    for step in 1..20i64 {
        series.record_rate_direct(step as u64 * 1_000);
        series.advance(step * 30_000);
        assert_eq!(series.samples.len(), 4);
        for pair in series.samples.windows(2) {
            assert!(pair[0].timestamp <= pair[1].timestamp);
        }
    }
}

#[test]
fn monotonic_total_tolerance() {
    // A decrease (the 480 after 520) simulates a game restart: it must
    // contribute nothing, not a negative delta. Values are milli-units of
    // the spec's 500, 520, 480, 530.
    let mut series = RollingMetricSeries::initialize(1, 1000, 0).unwrap();
    let readings = [500_000u64, 520_000, 480_000, 530_000];
    let expected_totals = [0u64, 20_000, 20_000, 70_000];
    for (reading, expected) in readings.iter().zip(expected_totals.iter()) {
        series.record_cumulative(*reading);
        assert_eq!(series.running_total, *expected);
        assert_eq!(series.last_raw_value, Some(*reading));
    }
}

#[test]
fn rate_formula_boundary() {
    let mut series = RollingMetricSeries::initialize(1, 1000, 0).unwrap();
    // running_total = 100 units.
    series.record_rate_direct(100_000);
    // At 0.5 s the time bucket is clamped up to one minute: 100.0 per minute.
    assert_eq!(series.compute_rate_per_minute(500), 100_000);
    // At 120 s: 100 / 2 minutes = 50.0 per minute.
    assert_eq!(series.compute_rate_per_minute(120_000), 50_000);
}

#[test]
fn rate_floors_the_total_to_whole_units() {
    let mut series = RollingMetricSeries::initialize(1, 1000, 0).unwrap();
    // 100.9 units floor to 100 before the division.
    series.record_rate_direct(100_900);
    assert_eq!(series.compute_rate_per_minute(120_000), 50_000);
}

#[test]
fn record_rate_direct_replaces_the_total() {
    let mut series = RollingMetricSeries::initialize(1, 1000, 0).unwrap();
    series.record_rate_direct(42_000);
    assert_eq!(series.running_total, 42_000);
    series.record_rate_direct(7_000);
    assert_eq!(series.running_total, 7_000);
}

#[test]
fn end_to_end_restart_scenario() {
    // Game restarts at clock 0: the window is re-seeded with synthetic
    // past timestamps, the first reading only sets the baseline, and the
    // first advance at 60 s lands a rate of 10.0 per minute.
    let mut series = RollingMetricSeries::initialize(5, 60_000, 0).unwrap();
    let timestamps: Vec<i64> = series.samples.iter().map(|s| s.timestamp).collect();
    assert_eq!(timestamps, vec![-240_000, -180_000, -120_000, -60_000, 0]);

    series.record_cumulative(500_000);
    assert_eq!(series.running_total, 0);
    series.record_cumulative(510_000);
    assert_eq!(series.running_total, 10_000);

    series.advance(60_000);
    let timestamps: Vec<i64> = series.samples.iter().map(|s| s.timestamp).collect();
    assert_eq!(timestamps, vec![-180_000, -120_000, -60_000, 0, 60_000]);
    assert_eq!(series.samples.last().unwrap().rate, 10_000);
    assert_eq!(series.x_axis_bounds(), (-180_000, 60_000));
}

#[test]
fn x_axis_bounds_are_the_window_edges() {
    let mut series = RollingMetricSeries::initialize(3, 10_000, 0).unwrap();
    assert_eq!(series.x_axis_bounds(), (-20_000, 0));
    series.advance(10_000);
    assert_eq!(series.x_axis_bounds(), (-10_000, 10_000));
}

#[test]
fn rate_display_parts_truncate_to_one_decimal() {
    assert_eq!(rate_display_parts(50_000), (50, 0));
    assert_eq!(rate_display_parts(10_940), (10, 9));
    assert_eq!(rate_display_parts(999), (0, 9));
    assert_eq!(rate_display_parts(99), (0, 0));
}
