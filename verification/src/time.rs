//! Points in time and spans of time, in whole nanoseconds.
//!
//! An [`Instant`] counts nanoseconds of a monotonic clock from an origin that
//! the program picks once; only differences between instants carry meaning.

use vstd::prelude::*;

verus! {

/// Nanoseconds in one second.
pub const NANOS_PER_SEC: u128 = 1_000_000_000;

/// Nanoseconds in one millisecond.
pub const NANOS_PER_MILLI: u128 = 1_000_000;

/// A span of time.
#[derive(Clone, Copy, Debug, PartialEq, Eq, Hash, Structural)]
pub struct Duration {
    pub nanos: u128,
}

/// A reading of a monotonic clock.
#[derive(Clone, Copy, Debug, PartialEq, Eq, Hash, Structural)]
pub struct Instant {
    pub nanos: u128,
}

/// The nanoseconds in `secs` seconds.
pub open spec fn nanos_of_secs(secs: u64) -> int {
    secs * NANOS_PER_SEC
}

/// The nanoseconds in `millis` milliseconds.
pub open spec fn nanos_of_millis(millis: u64) -> int {
    millis * NANOS_PER_MILLI
}

impl Duration {
    /// The span of `secs` whole seconds.
    pub fn from_secs(secs: u64) -> (span: Duration)
        ensures
            span.nanos == nanos_of_secs(secs),
    {
        assert(secs * NANOS_PER_SEC <= u64::MAX * NANOS_PER_SEC) by (nonlinear_arith)
            requires
                0 <= secs <= u64::MAX,
        ;
        Duration { nanos: (secs as u128) * NANOS_PER_SEC }
    }

    /// The span of `millis` whole milliseconds.
    pub fn from_millis(millis: u64) -> (span: Duration)
        ensures
            span.nanos == nanos_of_millis(millis),
    {
        assert(millis * NANOS_PER_MILLI <= u64::MAX * NANOS_PER_MILLI) by (nonlinear_arith)
            requires
                0 <= millis <= u64::MAX,
        ;
        Duration { nanos: (millis as u128) * NANOS_PER_MILLI }
    }
}

/// The whole seconds from `earlier` to `later`, none if `later` is not later.
pub open spec fn whole_seconds_between(earlier: Instant, later: Instant) -> int {
    if later.nanos <= earlier.nanos {
        0
    } else {
        (later.nanos - earlier.nanos) / (NANOS_PER_SEC as int)
    }
}

/// The seconds after which a source without polling would come up again: far
/// beyond the life of any program.
pub const FAR_FUTURE_SECS: u64 = 0x3fff_ffff_ffff_ffff;

impl Instant {
    /// Whether the far future, seen from this instant, is still an instant. It is
    /// for every reading of a clock that has run for less than the age of the
    /// universe.
    pub open spec fn has_room(self) -> bool {
        self.nanos + FAR_FUTURE_SECS * NANOS_PER_SEC <= u128::MAX
    }

    /// The instant `span` after this one.
    pub fn plus(self, span: Duration) -> (later: Instant)
        requires
            self.nanos + span.nanos <= u128::MAX,
        ensures
            later.nanos == self.nanos + span.nanos,
    {
        Instant { nanos: self.nanos + span.nanos }
    }

    /// The time from `earlier` to this instant, empty if this one is not later.
    pub fn duration_since(self, earlier: Instant) -> (span: Duration)
        ensures
            span.nanos == if self.nanos <= earlier.nanos {
                0
            } else {
                self.nanos - earlier.nanos
            },
    {
        if self.nanos <= earlier.nanos {
            Duration { nanos: 0 }
        } else {
            Duration { nanos: self.nanos - earlier.nanos }
        }
    }

    /// The whole seconds from `earlier` to this instant.
    pub fn seconds_since(self, earlier: Instant) -> (secs: u128)
        ensures
            secs == whole_seconds_between(earlier, self),
    {
        self.duration_since(earlier).nanos / NANOS_PER_SEC
    }
}

} // verus!
