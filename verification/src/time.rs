//! Points on the monotonic clock and the spans between them, in whole nanoseconds.
use vstd::prelude::*;

verus! {

pub const NANOS_PER_MILLI: u64 = 1_000_000;

/// A span of time.
#[derive(Clone, Copy, Debug, PartialEq, Eq, PartialOrd, Ord, Hash, Structural)]
pub struct Duration {
    pub nanos: u64,
}

impl Duration {
    pub fn from_nanos(nanos: u64) -> (span: Self)
        ensures
            span == (Duration { nanos }),
    {
        Duration { nanos }
    }

    pub fn from_millis(millis: u64) -> (span: Self)
        requires
            millis * NANOS_PER_MILLI <= u64::MAX,
        ensures
            span.nanos == millis * NANOS_PER_MILLI,
    {
        Duration { nanos: millis * NANOS_PER_MILLI }
    }

    pub fn as_nanos(self) -> (nanos: u64)
        ensures
            nanos == self.nanos,
    {
        self.nanos
    }
}

/// A reading of the monotonic clock, counted from an origin that never moves while the
/// program runs.
#[derive(Clone, Copy, Debug, PartialEq, Eq, PartialOrd, Ord, Hash, Structural)]
pub struct Instant {
    pub nanos: u64,
}

impl Instant {
    pub fn from_nanos(nanos: u64) -> (at: Self)
        ensures
            at == (Instant { nanos }),
    {
        Instant { nanos }
    }

    pub fn as_nanos(self) -> (nanos: u64)
        ensures
            nanos == self.nanos,
    {
        self.nanos
    }

    /// Whether the clock can still show the point `span` after this one.
    pub open spec fn has_room(self, span: Duration) -> bool {
        self.nanos + span.nanos <= u64::MAX
    }

    /// The point `span` after this one.
    pub open spec fn after(self, span: Duration) -> Instant {
        Instant { nanos: (self.nanos + span.nanos) as u64 }
    }

    /// The span from `earlier` to this point; zero when `earlier` is in fact later.
    pub fn duration_since(self, earlier: Instant) -> (span: Duration)
        ensures
            span.nanos == if self.nanos >= earlier.nanos {
                self.nanos - earlier.nanos
            } else {
                0
            },
    {
        if self.nanos >= earlier.nanos {
            Duration { nanos: self.nanos - earlier.nanos }
        } else {
            Duration { nanos: 0 }
        }
    }
}

impl core::ops::Add<Duration> for Instant {
    type Output = Instant;

    fn add(self, span: Duration) -> (at: Instant) {
        Instant { nanos: self.nanos + span.nanos }
    }
}

impl vstd::std_specs::ops::AddSpecImpl<Duration> for Instant {
    open spec fn obeys_add_spec() -> bool {
        true
    }

    open spec fn add_req(self, span: Duration) -> bool {
        self.has_room(span)
    }

    open spec fn add_spec(self, span: Duration) -> Instant {
        self.after(span)
    }
}

} // verus!
