use wheel_speed::controller::SensingLoop;
use wheel_speed::controller::SensorEvent;
use wheel_speed::publisher::SnapshotQueue;
use wheel_speed::snapshot::StatusSnapshot;

fn snap(rate_millirpm: u64, count: u64, elapsed_secs: u64, running: bool) -> StatusSnapshot {
    StatusSnapshot { rate_millirpm, count, elapsed_secs, running }
}

#[test]
fn startup_emits_zeroed_running_snapshot() {
    let mut l = SensingLoop::new();
    let s = l.start(250);
    assert_eq!(s, snap(0, 0, 0, true));
}

#[test]
fn emissions_follow_event_order() {
    // A synthetic trace: three edges, a timeout, a duplicate timeout
    // and an invalid edge. The published snapshots are exactly the
    // emissions of the triggering events, in that order.
    let mut l = SensingLoop::new();
    l.start(0);
    let events = vec![
        SensorEvent::Edge { now_ms: 1000 },
        SensorEvent::Edge { now_ms: 2000 },
        SensorEvent::Edge { now_ms: 1500 },  // clock went backwards: skipped
        SensorEvent::Timeout { now_ms: 4000 },
        SensorEvent::Timeout { now_ms: 6000 },  // rate already zero: suppressed
        SensorEvent::Edge { now_ms: 7000 },
    ];
    let out = l.run_events(&events);
    assert_eq!(
        out,
        vec![
            snap(60_000, 1, 1, true),
            snap(60_000, 2, 2, true),
            snap(0, 2, 4, true),
            snap(12_000, 3, 7, true),
        ]
    );
}

#[test]
fn final_snapshot_reports_not_running_and_preserves_state() {
    let mut l = SensingLoop::new();
    l.start(0);
    let events = vec![
        SensorEvent::Edge { now_ms: 500 },
        SensorEvent::Edge { now_ms: 1000 },
    ];
    l.run_events(&events);
    let last = l.observe_shutdown(1800);
    assert_eq!(last, snap(120_000, 2, 1, false));
    assert!(!last.running);
}

#[test]
fn release_is_idempotent() {
    // Once on a fatal init failure, once again on the normal path:
    // neither call may panic, and the second finds the source already
    // released.
    let mut l = SensingLoop::new();
    assert!(!l.release());
    assert!(l.release());

    let mut l2 = SensingLoop::new();
    l2.start(0);
    l2.observe_shutdown(100);
    assert!(!l2.release());
    assert!(l2.release());
}

#[test]
fn shutdown_scenario_drains_then_releases_once() {
    // Rotation in progress, then the shutdown flag is observed: the
    // loop emits one final not-running snapshot that preserves the
    // last rate and count, and releases the edge source exactly once.
    let mut l = SensingLoop::new();
    let mut q = SnapshotQueue::new();
    q.publish(l.start(0));
    let events = vec![
        SensorEvent::Edge { now_ms: 1000 },
        SensorEvent::Edge { now_ms: 2000 },
    ];
    for s in l.run_events(&events) {
        q.publish(s);
    }
    q.publish(l.observe_shutdown(2600));
    let already_released = l.release();
    assert!(!already_released);
    assert!(l.release());

    let written = q.drain();
    assert_eq!(
        written,
        vec![
            snap(0, 0, 0, true),
            snap(60_000, 1, 1, true),
            snap(60_000, 2, 2, true),
            snap(60_000, 2, 2, false),
        ]
    );
    assert_eq!(written.last().map(|s| s.running), Some(false));
}

#[test]
fn queue_hands_snapshots_out_in_submission_order() {
    let mut q = SnapshotQueue::new();
    assert_eq!(q.len(), 0);
    assert_eq!(q.take_next(), None);
    q.publish(snap(1, 1, 1, true));
    q.publish(snap(2, 2, 2, true));
    q.publish(snap(3, 3, 3, false));
    assert_eq!(q.len(), 3);
    assert_eq!(q.take_next(), Some(snap(1, 1, 1, true)));
    assert_eq!(q.take_next(), Some(snap(2, 2, 2, true)));
    assert_eq!(q.take_next(), Some(snap(3, 3, 3, false)));
    assert_eq!(q.take_next(), None);
}
