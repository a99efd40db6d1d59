//! The status publisher's queue: snapshots are handed over without
//! blocking the sensing loop, and the writer drains them strictly in
//! submission order — the queue never reorders or drops an entry.
//!
//! The file write itself, and the worker that performs it, live
//! outside this library; a failed write only skips one snapshot and
//! never reaches back into the loop.
use vstd::prelude::*;

use crate::snapshot::StatusSnapshot;

verus! {

/// Unbounded FIFO queue of pending snapshots, oldest first.
pub struct SnapshotQueue {
    items: Vec<StatusSnapshot>,
}

impl View for SnapshotQueue {
    type V = Seq<StatusSnapshot>;

    closed spec fn view(&self) -> Seq<StatusSnapshot> {
        self.items@
    }
}

impl SnapshotQueue {
    /// An empty queue.
    pub fn new() -> (q: SnapshotQueue)
        ensures
            q@ == Seq::<StatusSnapshot>::empty(),
    {
        SnapshotQueue { items: Vec::new() }
    }

    /// Number of pending snapshots.
    pub fn len(&self) -> (n: usize)
        ensures
            n == self@.len(),
    {
        self.items.len()
    }

    /// Hands a snapshot to the publisher: appended at the back, after
    /// everything submitted earlier.
    pub fn publish(&mut self, s: StatusSnapshot)
        ensures
            final(self)@ == old(self)@.push(s),
    {
        self.items.push(s);
    }

    /// Takes the oldest pending snapshot for writing, or `None` when
    /// the queue is drained.
    pub fn take_next(&mut self) -> (r: Option<StatusSnapshot>)
        ensures
            old(self)@.len() == 0 ==> r is None && final(self)@ == old(self)@,
            old(self)@.len() > 0 ==> r == Some(old(self)@[0]) && final(self)@ == old(self)@.skip(
                1,
            ),
    {
        if self.items.len() == 0 {
            None
        } else {
            let s = self.items.remove(0);
            proof {
                assert(self.items@ =~= old(self)@.skip(1));
            }
            Some(s)
        }
    }

    /// Drains the whole queue: the snapshots come out exactly in the
    /// order they were submitted.
    pub fn drain(&mut self) -> (out: Vec<StatusSnapshot>)
        ensures
            out@ == old(self)@,
            final(self)@ == Seq::<StatusSnapshot>::empty(),
    {
        let mut out: Vec<StatusSnapshot> = Vec::new();
        while self.items.len() > 0
            invariant
                out@ + self@ == old(self)@,
            decreases self@.len(),
        {
            let next = self.take_next();
            match next {
                Some(s) => {
                    out.push(s);
                    proof {
                        assert(out@ + self@ =~= old(self)@);
                    }
                },
                None => (),
            }
        }
        proof {
            assert(out@ =~= out@ + self@);
        }
        out
    }
}

} // verus!
