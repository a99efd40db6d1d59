//! Edge-triggered rate estimation with short-window smoothing.
//!
//! Each accepted edge yields an instantaneous rate `60_000_000 / dt_ms`
//! in milli-RPM (one pulse per revolution). The last few samples are
//! kept in a FIFO smoothing window whose arithmetic mean is the
//! published rate. A no-rotation timeout resets the rate to zero and
//! clears the window abruptly.
use vstd::prelude::*;

use crate::snapshot::StatusSnapshot;

verus! {

/// Capacity of the smoothing window: the rate is averaged over the last
/// three instantaneous samples.
pub const WINDOW_CAPACITY: usize = 3;

/// `instant rate [milli-RPM] = INSTANT_RATE_NUMERATOR / dt [ms]`, i.e.
/// 60 seconds per minute times 1000 ms per second times 1000 milli-RPM
/// per RPM. It also bounds every sample the window can hold.
pub const INSTANT_RATE_NUMERATOR: u64 = 60_000_000;

/// Mathematical model of the estimator state.
#[verifier::ext_equal]
pub struct EstimatorView {
    /// Monotonic time (ms) of the most recently accepted edge.
    pub last_edge_ms: u64,
    /// Smoothing window, oldest sample first, in milli-RPM.
    pub window: Seq<u64>,
    /// Mean of `window` in milli-RPM; 0 while the window is empty.
    pub current_millirpm: u64,
    /// Edges accepted so far; never decreases.
    pub revolution_count: u64,
}

/// Sum of a sequence of samples, as an unbounded integer.
pub open spec fn sum(s: Seq<u64>) -> int
    decreases s.len(),
{
    if s.len() == 0 {
        0
    } else {
        sum(s.drop_last()) + s.last()
    }
}

/// Arithmetic mean with integer (floor) division; 0 for an empty
/// sequence. The mean of `u64` samples always fits in `u64`.
pub open spec fn mean(s: Seq<u64>) -> u64 {
    if s.len() == 0 {
        0u64
    } else {
        ((sum(s) / (s.len() as int)) as u64)
    }
}

/// Instantaneous rate in milli-RPM for an edge at `now_ms` following
/// one at `prev_ms`.
pub open spec fn instant_rate(prev_ms: u64, now_ms: u64) -> u64
    recommends
        prev_ms < now_ms,
{
    (((INSTANT_RATE_NUMERATOR as int) / (now_ms - prev_ms)) as u64)
}

/// Appends a sample, evicting the oldest one once the capacity is
/// exceeded.
pub open spec fn push_sample(w: Seq<u64>, r: u64) -> Seq<u64> {
    let grown = w.push(r);
    if grown.len() > WINDOW_CAPACITY {
        grown.skip(1)
    } else {
        grown
    }
}

/// State after accepting an edge at `now_ms`.
pub open spec fn edge_step(m: EstimatorView, now_ms: u64) -> EstimatorView
    recommends
        m.last_edge_ms < now_ms,
        m.revolution_count < u64::MAX,
{
    let w = push_sample(m.window, instant_rate(m.last_edge_ms, now_ms));
    EstimatorView {
        last_edge_ms: now_ms,
        window: w,
        current_millirpm: mean(w),
        revolution_count: ((m.revolution_count + 1) as u64),
    }
}

/// State after a no-rotation timeout: an abrupt reset to zero if any
/// rate was being reported, a no-op otherwise.
pub open spec fn timeout_step(m: EstimatorView) -> EstimatorView {
    if m.current_millirpm == 0 {
        m
    } else {
        EstimatorView {
            last_edge_ms: m.last_edge_ms,
            window: Seq::empty(),
            current_millirpm: 0u64,
            revolution_count: m.revolution_count,
        }
    }
}

/// The snapshot emitted for an edge accepted at `now_ms` from state `m`.
pub open spec fn edge_snapshot(m: EstimatorView, now_ms: u64) -> StatusSnapshot {
    StatusSnapshot {
        rate_millirpm: edge_step(m, now_ms).current_millirpm,
        count: edge_step(m, now_ms).revolution_count,
        elapsed_secs: ((now_ms / 1000) as u64),
        running: true,
    }
}

/// The snapshot emitted when rotation stops (first timeout at a
/// non-zero rate).
pub open spec fn timeout_snapshot(m: EstimatorView, now_ms: u64) -> StatusSnapshot {
    StatusSnapshot {
        rate_millirpm: 0u64,
        count: m.revolution_count,
        elapsed_secs: ((now_ms / 1000) as u64),
        running: true,
    }
}

/// Estimator state before any edge.
pub open spec fn initial_estimator() -> EstimatorView {
    EstimatorView {
        last_edge_ms: 0u64,
        window: Seq::empty(),
        current_millirpm: 0u64,
        revolution_count: 0u64,
    }
}

impl EstimatorView {
    /// Well-formedness: the window is within capacity, every sample is
    /// a genuine instantaneous rate (hence bounded by the numerator),
    /// and the reported rate is the window's mean.
    pub open spec fn wf(self) -> bool {
        &&& self.window.len() <= WINDOW_CAPACITY
        &&& forall|i: int| 0 <= i < self.window.len() ==> self.window[i] <= INSTANT_RATE_NUMERATOR
        &&& self.current_millirpm == mean(self.window)
    }
}

/// Consumes edge timestamps and maintains the smoothed rotational
/// speed and the cumulative revolution count.
pub struct RateEstimator {
    last_edge_ms: u64,
    window: Vec<u64>,
    current_millirpm: u64,
    revolution_count: u64,
}

impl View for RateEstimator {
    type V = EstimatorView;

    closed spec fn view(&self) -> EstimatorView {
        EstimatorView {
            last_edge_ms: self.last_edge_ms,
            window: self.window@,
            current_millirpm: self.current_millirpm,
            revolution_count: self.revolution_count,
        }
    }
}

impl RateEstimator {
    pub open spec fn wf(&self) -> bool {
        self@.wf()
    }

    /// A fresh estimator: no edge seen, zero rate, zero count.
    pub fn new() -> (e: RateEstimator)
        ensures
            e@ == initial_estimator(),
            e.wf(),
    {
        let e = RateEstimator {
            last_edge_ms: 0,
            window: Vec::new(),
            current_millirpm: 0,
            revolution_count: 0,
        };
        proof {
            assert(e@ =~= initial_estimator());
        }
        e
    }

    /// Current smoothed rate in milli-RPM.
    pub fn current_millirpm(&self) -> (r: u64)
        ensures
            r == self@.current_millirpm,
    {
        self.current_millirpm
    }

    /// Edges accepted so far.
    pub fn revolution_count(&self) -> (n: u64)
        ensures
            n == self@.revolution_count,
    {
        self.revolution_count
    }

    /// Processes one detected edge at monotonic time `now_ms` and
    /// returns the snapshot to publish.
    ///
    /// An edge whose inter-edge interval is not strictly positive
    /// (clock non-monotonicity) is invalid: the whole update is skipped
    /// and nothing is emitted, so the process cannot divide by zero.
    pub fn on_edge(&mut self, now_ms: u64) -> (r: Option<StatusSnapshot>)
        requires
            old(self).wf(),
            old(self)@.revolution_count < u64::MAX,
        ensures
            final(self).wf(),
            now_ms <= old(self)@.last_edge_ms ==> final(self)@ == old(self)@ && r is None,
            now_ms > old(self)@.last_edge_ms ==> final(self)@ == edge_step(old(self)@, now_ms)
                && r == Some(edge_snapshot(old(self)@, now_ms)),
    {
        if now_ms <= self.last_edge_ms {
            return None;
        }
        let ghost m0 = self@;
        let dt: u64 = now_ms - self.last_edge_ms;
        let inst: u64 = INSTANT_RATE_NUMERATOR / dt;
        self.window.push(inst);
        if self.window.len() > WINDOW_CAPACITY {
            self.window.remove(0);
        }
        proof {
            assert(self.window@ =~= push_sample(m0.window, instant_rate(m0.last_edge_ms, now_ms)));
        }
        let total: u64 = Self::window_sum(&self.window);
        self.current_millirpm = total / (self.window.len() as u64);
        self.revolution_count = self.revolution_count + 1;
        self.last_edge_ms = now_ms;
        proof {
            assert(self@ =~= edge_step(m0, now_ms));
        }
        Some(
            StatusSnapshot {
                rate_millirpm: self.current_millirpm,
                count: self.revolution_count,
                elapsed_secs: now_ms / 1000,
                running: true,
            },
        )
    }

    /// Handles the expiry of a wait window with no edge. The first
    /// timeout at a non-zero rate emits a zeroed snapshot; once the
    /// rate is already zero the call changes nothing and emits nothing,
    /// so duplicate zero-state publications are suppressed.
    pub fn on_timeout(&mut self, now_ms: u64) -> (r: Option<StatusSnapshot>)
        requires
            old(self).wf(),
        ensures
            final(self).wf(),
            final(self)@ == timeout_step(old(self)@),
            old(self)@.current_millirpm == 0 ==> final(self)@ == old(self)@ && r is None,
            old(self)@.current_millirpm != 0 ==> r == Some(timeout_snapshot(old(self)@, now_ms)),
    {
        if self.current_millirpm == 0 {
            proof {
                assert(self@ =~= timeout_step(self@));
            }
            return None;
        }
        let ghost m0 = self@;
        self.current_millirpm = 0;
        self.window.clear();
        proof {
            assert(self@ =~= timeout_step(m0));
        }
        Some(
            StatusSnapshot {
                rate_millirpm: 0,
                count: self.revolution_count,
                elapsed_secs: now_ms / 1000,
                running: true,
            },
        )
    }

    /// Sum of the window's samples; total fits because each sample is a
    /// bounded instantaneous rate and the window is within capacity.
    fn window_sum(w: &Vec<u64>) -> (total: u64)
        requires
            w@.len() <= WINDOW_CAPACITY,
            forall|i: int| 0 <= i < w@.len() ==> w@[i] <= INSTANT_RATE_NUMERATOR,
        ensures
            total == sum(w@),
    {
        let mut total: u64 = 0;
        let mut i: usize = 0;
        while i < w.len()
            invariant
                i <= w@.len(),
                w@.len() <= WINDOW_CAPACITY,
                forall|k: int| 0 <= k < w@.len() ==> w@[k] <= INSTANT_RATE_NUMERATOR,
                total == sum(w@.take(i as int)),
                total <= i * INSTANT_RATE_NUMERATOR,
            decreases w@.len() - i,
        {
            proof {
                assert(w@.take(i as int + 1).drop_last() =~= w@.take(i as int));
                assert(w@.take(i as int + 1).last() == w@[i as int]);
            }
            total = total + w[i];
            i = i + 1;
        }
        proof {
            assert(w@.take(w@.len() as int) =~= w@);
        }
        total
    }
}

} // verus!
