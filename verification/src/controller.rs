//! The sensing loop's control logic as a verified state machine.
//!
//! The loop proper performs the blocking waits, the GPIO acquisition
//! and the signal handling outside this library; every decision it
//! takes — which snapshot to emit for which event, when to drain, when
//! the edge source counts as released — is made here.
use vstd::prelude::*;

use crate::estimator::EstimatorView;
use crate::estimator::RateEstimator;
use crate::estimator::edge_snapshot;
use crate::estimator::edge_step;
use crate::estimator::initial_estimator;
use crate::estimator::timeout_snapshot;
use crate::estimator::timeout_step;
use crate::snapshot::StatusSnapshot;

verus! {

/// Outcome of one bounded wait on the edge source, stamped with the
/// monotonic time (ms) at which the wait ended.
#[derive(Clone, Copy, PartialEq, Eq, Structural, Debug)]
pub enum SensorEvent {
    /// A falling edge was reported.
    Edge { now_ms: u64 },
    /// The wait window expired with no edge.
    Timeout { now_ms: u64 },
}

/// Lifecycle of the sensing loop.
#[derive(Clone, Copy, PartialEq, Eq, Structural, Debug)]
pub enum LoopPhase {
    /// The edge source is being acquired; no snapshot emitted yet.
    Initializing,
    /// Edges are being consumed and snapshots emitted.
    Running,
    /// The shutdown flag was observed; the final snapshot is out.
    Draining,
    /// The edge source is released.
    Terminated,
}

/// Mathematical model of the sensing loop's state.
#[verifier::ext_equal]
pub struct SensingLoopView {
    pub estimator: EstimatorView,
    pub phase: LoopPhase,
    pub source_released: bool,
}

/// Estimator state after one event: an edge with a strictly positive
/// interval is accepted, any other edge is skipped, a timeout resets a
/// non-zero rate.
pub open spec fn event_step(m: EstimatorView, ev: SensorEvent) -> EstimatorView {
    match ev {
        SensorEvent::Edge { now_ms } => if now_ms > m.last_edge_ms {
            edge_step(m, now_ms)
        } else {
            m
        },
        SensorEvent::Timeout { now_ms: _ } => timeout_step(m),
    }
}

/// The snapshot an event causes to be emitted, if any: accepted edges
/// always emit; a timeout emits only the first time it brings a
/// non-zero rate down to zero.
pub open spec fn event_emission(m: EstimatorView, ev: SensorEvent) -> Option<StatusSnapshot> {
    match ev {
        SensorEvent::Edge { now_ms } => if now_ms > m.last_edge_ms {
            Some(edge_snapshot(m, now_ms))
        } else {
            None
        },
        SensorEvent::Timeout { now_ms } => if m.current_millirpm != 0 {
            Some(timeout_snapshot(m, now_ms))
        } else {
            None
        },
    }
}

/// Estimator state after a whole sequence of events, in order.
pub open spec fn estimator_after(m: EstimatorView, evts: Seq<SensorEvent>) -> EstimatorView
    decreases evts.len(),
{
    if evts.len() == 0 {
        m
    } else {
        event_step(estimator_after(m, evts.drop_last()), evts.last())
    }
}

/// The snapshots a sequence of events causes to be emitted, in the
/// exact order of their triggering events.
pub open spec fn emissions(m: EstimatorView, evts: Seq<SensorEvent>) -> Seq<StatusSnapshot>
    decreases evts.len(),
{
    if evts.len() == 0 {
        Seq::empty()
    } else {
        let prior = emissions(m, evts.drop_last());
        match event_emission(estimator_after(m, evts.drop_last()), evts.last()) {
            Some(s) => prior.push(s),
            None => prior,
        }
    }
}

/// Drives the rate estimator from edge-source events and decides every
/// emission, including the final one of the drain phase, and the
/// release of the edge source.
pub struct SensingLoop {
    estimator: RateEstimator,
    phase: LoopPhase,
    source_released: bool,
}

impl View for SensingLoop {
    type V = SensingLoopView;

    closed spec fn view(&self) -> SensingLoopView {
        SensingLoopView {
            estimator: self.estimator@,
            phase: self.phase,
            source_released: self.source_released,
        }
    }
}

impl SensingLoop {
    pub open spec fn wf(&self) -> bool {
        self@.estimator.wf()
    }

    /// A loop about to acquire its edge source.
    pub fn new() -> (l: SensingLoop)
        ensures
            l@.estimator == initial_estimator(),
            l@.phase == LoopPhase::Initializing,
            !l@.source_released,
            l.wf(),
    {
        SensingLoop {
            estimator: RateEstimator::new(),
            phase: LoopPhase::Initializing,
            source_released: false,
        }
    }

    /// Marks the edge source acquired and produces the initial
    /// snapshot, emitted before the first wait.
    pub fn start(&mut self, now_ms: u64) -> (s: StatusSnapshot)
        requires
            old(self)@.phase == LoopPhase::Initializing,
        ensures
            final(self)@.phase == LoopPhase::Running,
            final(self)@.estimator == old(self)@.estimator,
            final(self)@.source_released == old(self)@.source_released,
            final(self).wf() == old(self).wf(),
            s == (StatusSnapshot {
                rate_millirpm: 0u64,
                count: 0u64,
                elapsed_secs: now_ms / 1000,
                running: true,
            }),
    {
        self.phase = LoopPhase::Running;
        StatusSnapshot::initial(now_ms)
    }

    /// Edges accepted so far.
    pub fn revolution_count(&self) -> (n: u64)
        ensures
            n == self@.estimator.revolution_count,
    {
        self.estimator.revolution_count()
    }

    /// Current smoothed rate in milli-RPM.
    pub fn current_millirpm(&self) -> (r: u64)
        ensures
            r == self@.estimator.current_millirpm,
    {
        self.estimator.current_millirpm()
    }

    /// Reacts to the outcome of one bounded wait: feeds the estimator
    /// and returns the snapshot to hand to the publisher, if any.
    pub fn handle_wait(&mut self, ev: SensorEvent) -> (r: Option<StatusSnapshot>)
        requires
            old(self)@.phase == LoopPhase::Running,
            old(self).wf(),
            old(self)@.estimator.revolution_count < u64::MAX,
        ensures
            final(self).wf(),
            final(self)@.phase == old(self)@.phase,
            final(self)@.source_released == old(self)@.source_released,
            final(self)@.estimator == event_step(old(self)@.estimator, ev),
            r == event_emission(old(self)@.estimator, ev),
    {
        match ev {
            SensorEvent::Edge { now_ms } => self.estimator.on_edge(now_ms),
            SensorEvent::Timeout { now_ms } => self.estimator.on_timeout(now_ms),
        }
    }

    /// Reacts to the shutdown flag: enters the drain phase and returns
    /// the final snapshot, which reports `running == false` while
    /// preserving the last computed rate and count.
    pub fn observe_shutdown(&mut self, now_ms: u64) -> (s: StatusSnapshot)
        requires
            old(self)@.phase == LoopPhase::Running,
        ensures
            final(self)@.phase == LoopPhase::Draining,
            final(self)@.estimator == old(self)@.estimator,
            final(self)@.source_released == old(self)@.source_released,
            final(self).wf() == old(self).wf(),
            s == (StatusSnapshot {
                rate_millirpm: old(self)@.estimator.current_millirpm,
                count: old(self)@.estimator.revolution_count,
                elapsed_secs: now_ms / 1000,
                running: false,
            }),
    {
        self.phase = LoopPhase::Draining;
        StatusSnapshot {
            rate_millirpm: self.estimator.current_millirpm(),
            count: self.estimator.revolution_count(),
            elapsed_secs: now_ms / 1000,
            running: false,
        }
    }

    /// Marks the edge source released and the loop terminated. Safe on
    /// every exit path — after a failed acquisition, after a normal
    /// drain, or again on an already released loop: the call is
    /// idempotent and never fails.
    pub fn release(&mut self) -> (was_released: bool)
        ensures
            final(self)@.phase == LoopPhase::Terminated,
            final(self)@.source_released,
            final(self)@.estimator == old(self)@.estimator,
            final(self).wf() == old(self).wf(),
            was_released == old(self)@.source_released,
    {
        let was_released = self.source_released;
        self.source_released = true;
        self.phase = LoopPhase::Terminated;
        was_released
    }

    /// Processes a whole sequence of wait outcomes and returns the
    /// emitted snapshots: exactly the emissions of the event sequence,
    /// in the order of the triggering events.
    pub fn run_events(&mut self, events: &Vec<SensorEvent>) -> (out: Vec<StatusSnapshot>)
        requires
            old(self)@.phase == LoopPhase::Running,
            old(self).wf(),
            old(self)@.estimator.revolution_count + events@.len() <= u64::MAX,
        ensures
            final(self).wf(),
            final(self)@.phase == old(self)@.phase,
            final(self)@.source_released == old(self)@.source_released,
            final(self)@.estimator == estimator_after(old(self)@.estimator, events@),
            out@ == emissions(old(self)@.estimator, events@),
    {
        let ghost m0 = self@.estimator;
        let mut out: Vec<StatusSnapshot> = Vec::new();
        let mut i: usize = 0;
        while i < events.len()
            invariant
                i <= events@.len(),
                self@.phase == LoopPhase::Running,
                self@.source_released == old(self)@.source_released,
                self.wf(),
                self@.estimator == estimator_after(m0, events@.take(i as int)),
                self@.estimator.revolution_count <= m0.revolution_count + i,
                m0.revolution_count + events@.len() <= u64::MAX,
                out@ == emissions(m0, events@.take(i as int)),
            decreases events@.len() - i,
        {
            proof {
                assert(events@.take(i as int + 1).drop_last() =~= events@.take(i as int));
                assert(events@.take(i as int + 1).last() == events@[i as int]);
            }
            let ev = events[i];
            match self.handle_wait(ev) {
                Some(s) => out.push(s),
                None => (),
            }
            i = i + 1;
        }
        proof {
            assert(events@.take(events@.len() as int) =~= events@);
        }
        out
    }
}

} // verus!
