//! General properties of the estimator and of the event trace, proved
//! once and for all inputs.
use vstd::prelude::*;

use crate::controller::SensorEvent;
use crate::controller::emissions;
use crate::controller::estimator_after;
use crate::controller::event_emission;
use crate::estimator::EstimatorView;
use crate::estimator::WINDOW_CAPACITY;
use crate::estimator::initial_estimator;
use crate::estimator::instant_rate;
use crate::estimator::mean;
use crate::estimator::timeout_step;

verus! {

/// The edge preceding edge `i`: the previous timestamp, or the start
/// of monotonic time for the first edge.
pub open spec fn prior_time(times: Seq<u64>, i: int) -> u64 {
    if i == 0 {
        0u64
    } else {
        times[i - 1]
    }
}

/// Every inter-arrival interval is strictly positive.
pub open spec fn edge_times_valid(times: Seq<u64>) -> bool {
    forall|i: int| 0 <= i < times.len() ==> prior_time(times, i) < times[i]
}

/// The edge timestamps as a trace of edge events.
pub open spec fn edge_events(times: Seq<u64>) -> Seq<SensorEvent> {
    Seq::new(times.len(), |i: int| SensorEvent::Edge { now_ms: times[i] })
}

/// The instantaneous rate of each edge in `times`.
pub open spec fn instant_rates(times: Seq<u64>) -> Seq<u64> {
    Seq::new(times.len(), |i: int| instant_rate(prior_time(times, i), times[i]))
}

/// Index of the oldest sample the window retains after `n` edges.
pub open spec fn window_start(n: int) -> int {
    if n <= WINDOW_CAPACITY {
        0
    } else {
        n - WINDOW_CAPACITY
    }
}

/// After processing edges at strictly increasing times `times[0..n]`
/// from a fresh estimator, the revolution count equals `n`, the
/// smoothing window holds exactly the instantaneous rates of the last
/// up-to-three edges, the current rate is their mean, and the last
/// accepted edge is the last timestamp.
pub proof fn lemma_rate_after_edges(times: Seq<u64>)
    requires
        edge_times_valid(times),
        times.len() <= u64::MAX,
    ensures
        ({
            let m = estimator_after(initial_estimator(), edge_events(times));
            &&& m.revolution_count == times.len()
            &&& m.window == instant_rates(times).skip(window_start(times.len() as int))
            &&& m.current_millirpm == mean(instant_rates(times).skip(window_start(times.len() as int)))
            &&& m.last_edge_ms == (if times.len() == 0 { 0u64 } else { times.last() })
            &&& m.wf()
        }),
    decreases times.len(),
{
    if times.len() == 0 {
        assert(edge_events(times) =~= Seq::<SensorEvent>::empty());
        assert(instant_rates(times).skip(0) =~= Seq::<u64>::empty());
    } else {
        let n = times.len() - 1;
        let ts = times.drop_last();
        let t = times.last();
        assert forall|i: int| 0 <= i < ts.len() implies prior_time(ts, i) < ts[i] by {
            assert(prior_time(ts, i) == prior_time(times, i));
        }
        lemma_rate_after_edges(ts);
        assert(edge_events(times).drop_last() =~= edge_events(ts));
        assert(edge_events(times).last() == SensorEvent::Edge { now_ms: t });
        let mp = estimator_after(initial_estimator(), edge_events(ts));
        assert(mp.last_edge_ms == prior_time(times, n));
        assert(prior_time(times, n) < times[n]);
        assert(instant_rates(ts) =~= instant_rates(times).take(n));
        let r = instant_rate(mp.last_edge_ms, t);
        assert(r == instant_rates(times)[n]);
        let m = estimator_after(initial_estimator(), edge_events(times));
        assert(m == crate::estimator::edge_step(mp, t));
        if times.len() <= WINDOW_CAPACITY {
            assert(m.window =~= instant_rates(times).skip(window_start(times.len() as int)));
        } else {
            assert forall|j: int|
                0 <= j < m.window.len() implies m.window[j] == instant_rates(times).skip(
                window_start(times.len() as int),
            )[j] by {
                if j < m.window.len() - 1 {
                    assert(m.window[j] == mp.window[j + 1]);
                }
            }
            assert(m.window =~= instant_rates(times).skip(window_start(times.len() as int)));
        }
    }
}

/// A timeout that finds a non-zero rate resets it: afterwards the rate
/// is zero and the smoothing window is empty while the revolution
/// count is untouched; every further timeout before a new edge changes
/// nothing and emits nothing.
pub proof fn lemma_timeout_resets_then_idempotent(m: EstimatorView, now_ms: u64)
    requires
        m.current_millirpm != 0,
    ensures
        timeout_step(m).current_millirpm == 0,
        timeout_step(m).window.len() == 0,
        timeout_step(m).revolution_count == m.revolution_count,
        timeout_step(timeout_step(m)) == timeout_step(m),
        event_emission(timeout_step(m), SensorEvent::Timeout { now_ms }) is None,
{
}

/// Snapshots are emitted in exactly the order of the triggering
/// events: processing further events leaves every earlier emission in
/// place and only appends the emissions of the new events.
pub proof fn lemma_emissions_in_event_order(
    m: EstimatorView,
    evts: Seq<SensorEvent>,
    more: Seq<SensorEvent>,
)
    ensures
        estimator_after(m, evts + more) == estimator_after(estimator_after(m, evts), more),
        emissions(m, evts + more) == emissions(m, evts) + emissions(
            estimator_after(m, evts),
            more,
        ),
    decreases more.len(),
{
    if more.len() == 0 {
        assert(evts + more =~= evts);
        assert(emissions(m, evts) + emissions(estimator_after(m, evts), more) =~= emissions(
            m,
            evts,
        ));
    } else {
        lemma_emissions_in_event_order(m, evts, more.drop_last());
        assert((evts + more).drop_last() =~= evts + more.drop_last());
        assert((evts + more).last() == more.last());
        let prior = estimator_after(estimator_after(m, evts), more.drop_last());
        match event_emission(prior, more.last()) {
            Some(s) => {
                assert(emissions(m, evts) + emissions(estimator_after(m, evts), more) =~= (
                emissions(m, evts) + emissions(estimator_after(m, evts), more.drop_last())).push(
                    s,
                ));
            },
            None => {},
        }
    }
}

} // verus!
