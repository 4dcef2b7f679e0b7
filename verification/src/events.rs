//! The scheduler's window to the host platform: a non-blocking drain of
//! pending input events, and the idle wait between deadlines.

use vstd::prelude::*;

verus! {

/// An external source of input events and the host's sleep primitive.
/// Nothing is promised of either: the drain yields whatever events are
/// pending, in order, and the wait is a lower-bound request the host may
/// cut short.  The scheduler is verified for every possible outcome.
pub trait EventSource<Ev>: Sized {
    /// Drains all currently pending events, non-blockingly, in order.
    fn poll_events(&mut self) -> (events: Vec<Ev>);

    /// Asks the host to suspend the calling thread for about `nanos`
    /// nanoseconds.
    fn sleep(&mut self, nanos: u64);
}

} // verus!
