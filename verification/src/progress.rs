//! The progress report of one transfer.
//!
//! The engine owns no progress state between calls: the caller hands in a
//! log, the engine appends one event per completed chunk, and the caller
//! reads the events back (or forwards each to a UI as it likes). Within one
//! call the `copied` components of the appended events are monotonically
//! non-decreasing, and on success the last event reports the whole total.

use vstd::prelude::*;

verus! {

/// One progress report: cumulative bytes confirmed copied so far, and the
/// total the transfer is expected to move.
#[derive(Clone, Copy, Debug, PartialEq, Eq, Structural)]
pub struct ProgressEvent {
    /// Bytes confirmed copied so far in this call.
    pub copied: u64,
    /// Total bytes this transfer is expected to copy.
    pub total: u64,
}

/// An append-only record of the progress events of one or more transfers.
pub struct ProgressLog {
    entries: Vec<ProgressEvent>,
}

impl View for ProgressLog {
    type V = Seq<ProgressEvent>;

    /// The recorded events, oldest first.
    closed spec fn view(&self) -> Seq<ProgressEvent> {
        self.entries@
    }
}

impl ProgressLog {
    /// An empty log.
    pub fn new() -> (r: ProgressLog)
        ensures
            r@ == Seq::<ProgressEvent>::empty(),
    {
        ProgressLog { entries: Vec::new() }
    }

    /// Appends one event.
    pub fn record(&mut self, copied: u64, total: u64)
        ensures
            final(self)@ == old(self)@.push(ProgressEvent { copied, total }),
    {
        self.entries.push(ProgressEvent { copied, total });
    }

    /// How many events are recorded.
    pub fn len(&self) -> (r: usize)
        ensures
            r == self@.len(),
    {
        self.entries.len()
    }

    /// The event at position `i`, oldest first.
    pub fn get(&self, i: usize) -> (r: ProgressEvent)
        requires
            i < self@.len(),
        ensures
            r == self@[i as int],
    {
        self.entries[i]
    }
}

/// The events appended after position `from` report `total` as their total,
/// never claim more than `total` copied, and are monotonically
/// non-decreasing in their `copied` component.
pub open spec fn reports_monotone_from(log: Seq<ProgressEvent>, from: int, total: u64) -> bool {
    &&& forall|i: int| from <= i < log.len() ==> (#[trigger] log[i]).total == total
    &&& forall|i: int| from <= i < log.len() ==> (#[trigger] log[i]).copied <= total
    &&& forall|i: int, j: int|
        from <= i <= j < log.len() ==> (#[trigger] log[i]).copied <= (#[trigger] log[j]).copied
}

} // verus!
