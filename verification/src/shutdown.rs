//! The shutdown coordinator: a flag that moves from running to shutting
//! down exactly once and never back.
//!
//! The process shares one such flag across the observer callbacks and the
//! worker loops; each consumer polls it cooperatively at its safe points —
//! before blocking on the next queued path, and on entry of an observer
//! callback, which drops events that arrive after shutdown. In-flight work
//! is never aborted. The sharing itself (one atomic boolean behind a
//! reference) is the surrounding process's; this model carries the
//! transition discipline every holder relies on.

use vstd::prelude::*;

verus! {

/// The coordinator's state: whether shutdown has been requested.
pub struct ShutdownFlag {
    pub fired: bool,
}

impl ShutdownFlag {
    /// A fresh flag: the process is running.
    pub fn new() -> (f: Self)
        ensures
            !f.fired,
    {
        ShutdownFlag { fired: false }
    }

    /// Requests shutdown. Returns whether this call made the transition:
    /// the first request does, every repeat is a no-op — the flag is
    /// monotonic, once fired it stays fired.
    pub fn signal(&mut self) -> (first: bool)
        ensures
            final(self).fired,
            first == !old(self).fired,
    {
        let first = !self.fired;
        self.fired = true;
        first
    }

    /// Whether a consumer at a safe point must wind down instead of taking
    /// up new work.
    pub fn is_set(&self) -> (r: bool)
        ensures
            r == self.fired,
    {
        self.fired
    }

    /// Whether an event arriving at an observer callback is still accepted:
    /// events after shutdown are dropped.
    pub fn accepts_events(&self) -> (r: bool)
        ensures
            r == !self.fired,
    {
        !self.fired
    }
}

} // verus!
