//! Points in time and spans of time, in nanoseconds.

use vstd::prelude::*;

verus! {

/// A span of time.
#[derive(Clone, Copy, Debug, PartialEq, Eq, Structural)]
pub struct Duration {
    pub nanos: u128,
}

/// A point in time, as the span since a fixed origin.
#[derive(Clone, Copy, Debug, PartialEq, Eq, Structural)]
pub struct Instant {
    pub nanos: u128,
}

impl Duration {
    /// A span of whole seconds.
    pub fn from_secs(secs: u64) -> (span: Duration)
        ensures
            span.nanos == secs * 1_000_000_000,
    {
        Duration { nanos: secs as u128 * 1_000_000_000 }
    }
}

impl Instant {
    /// The point in time a span after another. A point that is too far off for the clock never
    /// comes.
    pub open spec fn spec_after(self, span: Duration) -> Option<Instant> {
        if self.nanos + span.nanos <= u128::MAX {
            Some(Instant { nanos: (self.nanos + span.nanos) as u128 })
        } else {
            None
        }
    }

    /// The point in time a span after this one, or `None` where the clock never gets there.
    pub fn after(self, span: Duration) -> (later: Option<Instant>)
        ensures
            later == self.spec_after(span),
    {
        match self.nanos.checked_add(span.nanos) {
            Some(nanos) => Some(Instant { nanos }),
            None => None,
        }
    }
}

/// A deadline has come by a point in time.
pub open spec fn has_come(deadline: Option<Instant>, now: Instant) -> bool {
    match deadline {
        Some(deadline) => deadline.nanos <= now.nanos,
        None => false,
    }
}

/// The deadline that a timeout sets when it starts to run.
pub open spec fn deadline_after(timeout: Option<Duration>, start: Instant) -> Option<Instant> {
    match timeout {
        Some(timeout) => start.spec_after(timeout),
        None => None,
    }
}

/// Starts a timeout.
pub fn start_timeout(timeout: Option<Duration>, start: Instant) -> (deadline: Option<Instant>)
    ensures
        deadline == deadline_after(timeout, start),
        deadline is Some ==> timeout is Some && deadline->0.nanos == start.nanos
            + timeout->0.nanos,
        deadline is None <==> (timeout is Some ==> start.nanos + timeout->0.nanos > u128::MAX),
{
    match timeout {
        Some(timeout) => start.after(timeout),
        None => None,
    }
}

/// Tests whether a deadline has come.
pub fn reached(deadline: Option<Instant>, now: Instant) -> (come: bool)
    ensures
        come == has_come(deadline, now),
        come <==> deadline is Some && deadline->0.nanos <= now.nanos,
{
    match deadline {
        Some(deadline) => deadline.nanos <= now.nanos,
        None => false,
    }
}

} // verus!
