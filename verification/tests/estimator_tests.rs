use wheel_speed::estimator::RateEstimator;
use wheel_speed::snapshot::StatusSnapshot;

fn snap(rate_millirpm: u64, count: u64, elapsed_secs: u64, running: bool) -> StatusSnapshot {
    StatusSnapshot { rate_millirpm, count, elapsed_secs, running }
}

#[test]
fn steady_rotation_reaches_sixty_rpm() {
    // Edges one second apart: 60 RPM instantaneous every time, so the
    // smoothed rate is 60 RPM (60000 milli-RPM) after the third edge.
    let mut e = RateEstimator::new();
    assert_eq!(e.on_edge(1000), Some(snap(60_000, 1, 1, true)));
    assert_eq!(e.on_edge(2000), Some(snap(60_000, 2, 2, true)));
    assert_eq!(e.on_edge(3000), Some(snap(60_000, 3, 3, true)));
    assert_eq!(e.current_millirpm(), 60_000);
    assert_eq!(e.revolution_count(), 3);
}

#[test]
fn fast_rotation_then_timeout_resets_rate() {
    // Edges half a second apart: 120 RPM twice, mean 120 RPM; then a
    // timeout zeroes the rate, keeps the count, and emits exactly once.
    let mut e = RateEstimator::new();
    assert_eq!(e.on_edge(500), Some(snap(120_000, 1, 0, true)));
    assert_eq!(e.on_edge(1000), Some(snap(120_000, 2, 1, true)));
    assert_eq!(e.on_timeout(3000), Some(snap(0, 2, 3, true)));
    assert_eq!(e.current_millirpm(), 0);
    assert_eq!(e.revolution_count(), 2);
    // A second timeout before any new edge emits nothing.
    assert_eq!(e.on_timeout(5000), None);
    assert_eq!(e.revolution_count(), 2);
}

#[test]
fn window_keeps_only_last_three_samples() {
    // Instantaneous rates 60000, 120000, 60000, 240000 milli-RPM; after
    // the fourth edge the oldest sample is evicted and the mean is over
    // the last three: (120000 + 60000 + 240000) / 3 = 140000.
    let mut e = RateEstimator::new();
    assert_eq!(e.on_edge(1000), Some(snap(60_000, 1, 1, true)));
    assert_eq!(e.on_edge(1500), Some(snap(90_000, 2, 1, true)));
    assert_eq!(e.on_edge(2500), Some(snap(80_000, 3, 2, true)));
    assert_eq!(e.on_edge(2750), Some(snap(140_000, 4, 2, true)));
}

#[test]
fn non_monotonic_edge_is_skipped() {
    let mut e = RateEstimator::new();
    assert_eq!(e.on_edge(1000), Some(snap(60_000, 1, 1, true)));
    // Same timestamp again: a zero interval would divide by zero, so
    // the edge is invalid and nothing changes.
    assert_eq!(e.on_edge(1000), None);
    // An earlier timestamp (clock went backwards) is skipped too.
    assert_eq!(e.on_edge(400), None);
    assert_eq!(e.revolution_count(), 1);
    assert_eq!(e.current_millirpm(), 60_000);
}

#[test]
fn timeout_on_fresh_estimator_emits_nothing() {
    let mut e = RateEstimator::new();
    assert_eq!(e.on_timeout(2000), None);
    assert_eq!(e.current_millirpm(), 0);
    assert_eq!(e.revolution_count(), 0);
}

#[test]
fn very_slow_rotation_floors_to_zero() {
    // An interval longer than one revolution per 0.001 RPM floors the
    // instantaneous rate to 0 milli-RPM; the edge still counts.
    let mut e = RateEstimator::new();
    let r = e.on_edge(70_000_000_000);
    assert_eq!(r, Some(snap(0, 1, 70_000_000, true)));
}

#[test]
fn rates_recover_after_timeout() {
    // After the abrupt reset the window restarts empty: the next edge's
    // mean is its own instantaneous rate alone.
    let mut e = RateEstimator::new();
    assert_eq!(e.on_edge(500), Some(snap(120_000, 1, 0, true)));
    assert_eq!(e.on_timeout(2500), Some(snap(0, 1, 2, true)));
    assert_eq!(e.on_edge(4500), Some(snap(15_000, 2, 4, true)));
}
