//! Logical simulation time: timestamps, durations, and the tick clock.
//!
//! All time is measured in whole ticks (one tick is a hundredth of a
//! simulated second); the engine treats a timestamp as an opaque ordered
//! integer counting ticks since simulation start.

use vstd::prelude::*;

verus! {

/// Time since simulation start, in ticks.
#[derive(Clone, Copy, PartialEq, Eq, Structural, PartialOrd, Ord, Debug)]
pub struct Timestamp(pub i32);

/// Difference between two `Timestamp`s, in ticks. May be negative.
#[derive(Clone, Copy, PartialEq, Eq, Structural, PartialOrd, Ord, Debug)]
pub struct Duration(pub i32);

impl Timestamp {
    /// The timestamp `d` ticks after `self`.
    pub open spec fn spec_plus(self, d: Duration) -> Timestamp {
        Timestamp((self.0 + d.0) as i32)
    }

    /// The timestamp `d` ticks before `self`.
    pub open spec fn spec_minus(self, d: Duration) -> Timestamp {
        Timestamp((self.0 - d.0) as i32)
    }

    /// The elapsed time from `earlier` to `self`.
    pub open spec fn spec_since(self, earlier: Timestamp) -> Duration {
        Duration((self.0 - earlier.0) as i32)
    }
}

impl core::ops::Add<Duration> for Timestamp {
    type Output = Timestamp;

    /// The timestamp `duration` ticks after `self`.
    fn add(self, duration: Duration) -> Timestamp {
        Timestamp(self.0 + duration.0)
    }
}

impl vstd::std_specs::ops::AddSpecImpl<Duration> for Timestamp {
    open spec fn obeys_add_spec() -> bool {
        true
    }

    open spec fn add_req(self, rhs: Duration) -> bool {
        i32::MIN <= self.0 + rhs.0 <= i32::MAX
    }

    open spec fn add_spec(self, rhs: Duration) -> Timestamp {
        self.spec_plus(rhs)
    }
}

impl core::ops::Sub<Duration> for Timestamp {
    type Output = Timestamp;

    /// The timestamp `duration` ticks before `self`.
    fn sub(self, duration: Duration) -> Timestamp {
        Timestamp(self.0 - duration.0)
    }
}

impl vstd::std_specs::ops::SubSpecImpl<Duration> for Timestamp {
    open spec fn obeys_sub_spec() -> bool {
        true
    }

    open spec fn sub_req(self, rhs: Duration) -> bool {
        i32::MIN <= self.0 - rhs.0 <= i32::MAX
    }

    open spec fn sub_spec(self, rhs: Duration) -> Timestamp {
        self.spec_minus(rhs)
    }
}

impl core::ops::Sub<Timestamp> for Timestamp {
    type Output = Duration;

    /// The elapsed time from `timestamp` to `self`.
    fn sub(self, timestamp: Timestamp) -> Duration {
        Duration(self.0 - timestamp.0)
    }
}

impl vstd::std_specs::ops::SubSpecImpl<Timestamp> for Timestamp {
    open spec fn obeys_sub_spec() -> bool {
        true
    }

    open spec fn sub_req(self, rhs: Timestamp) -> bool {
        i32::MIN <= self.0 - rhs.0 <= i32::MAX
    }

    open spec fn sub_spec(self, rhs: Timestamp) -> Duration {
        self.spec_since(rhs)
    }
}

impl Duration {
    /// The difference of two durations.
    pub open spec fn spec_minus(self, d: Duration) -> Duration {
        Duration((self.0 - d.0) as i32)
    }
}

impl core::ops::Sub<Duration> for Duration {
    type Output = Duration;

    fn sub(self, duration: Duration) -> Duration {
        Duration(self.0 - duration.0)
    }
}

impl vstd::std_specs::ops::SubSpecImpl<Duration> for Duration {
    open spec fn obeys_sub_spec() -> bool {
        true
    }

    open spec fn sub_req(self, rhs: Duration) -> bool {
        i32::MIN <= self.0 - rhs.0 <= i32::MAX
    }

    open spec fn sub_spec(self, rhs: Duration) -> Duration {
        self.spec_minus(rhs)
    }
}

/// Adding a duration to a timestamp and then subtracting either summand
/// recovers the other: timestamp/duration algebra round-trips, provided the
/// sum stays within the representable range of a timestamp.
pub proof fn lemma_time_algebra_round_trip(t: Timestamp, d: Duration)
    requires
        i32::MIN <= t.0 + d.0 <= i32::MAX,
    ensures
        t.spec_plus(d).spec_minus(d) == t,
        t.spec_plus(d).spec_since(t) == d,
{
}

/// The clock counting simulation time. Everything may read it, but only the
/// simulator driving the run advances it, by exactly one tick at a time.
#[derive(Clone, PartialEq, Eq, Structural, Debug)]
pub struct Clock(pub Timestamp);

impl Clock {
    pub fn new() -> (c: Clock)
        ensures
            c.0 == (Timestamp(0)),
    {
        Clock(Timestamp(0))
    }

    pub fn tick(&mut self)
        requires
            old(self).0.0 < i32::MAX,
        ensures
            final(self).0.0 == old(self).0.0 + 1,
    {
        self.0 = self.0 + Duration(1);
    }

    pub fn now(&self) -> (t: Timestamp)
        ensures
            t == self.0,
    {
        self.0
    }
}

impl Default for Clock {
    fn default() -> (c: Self)
        ensures
            c.0 == (Timestamp(0)),
    {
        Clock::new()
    }
}

} // verus!
