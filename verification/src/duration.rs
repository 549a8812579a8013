//! Spans of time.
use crate::value::Value;
use vstd::prelude::*;

verus! {

/// A span of time: whole seconds, and the nanoseconds beyond them, which are less than a second.
#[derive(Clone, Copy, Debug, PartialEq, Eq, Structural)]
pub struct Duration {
    pub secs: u64,
    pub nanos: u32,
}

impl DeepView for Duration {
    type V = Duration;

    open spec fn deep_view(&self) -> Duration {
        *self
    }
}

impl Value for Duration {
    fn duplicate(&self) -> (copy: Self) {
        *self
    }

    fn same_as(&self, other: &Self) -> (same: bool) {
        *self == *other
    }
}

impl Duration {
    /// A span of that many seconds.
    pub open spec fn spec_from_secs(secs: u64) -> Duration {
        Duration { secs, nanos: 0 }
    }

    /// A span of that many seconds.
    pub fn from_secs(secs: u64) -> (duration: Duration)
        ensures
            duration == Duration::spec_from_secs(secs),
    {
        Duration { secs, nanos: 0 }
    }

    /// The length of the span in nanoseconds.
    pub open spec fn spec_as_nanos(self) -> nat {
        (self.secs * 1_000_000_000 + self.nanos) as nat
    }

    /// The length of the span in nanoseconds.
    pub fn as_nanos(&self) -> (nanos: u128)
        ensures
            nanos == self.spec_as_nanos(),
    {
        self.secs as u128 * 1_000_000_000 + self.nanos as u128
    }
}

} // verus!
