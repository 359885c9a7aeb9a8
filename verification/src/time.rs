//! Lengths of time and points in time, to the nanosecond.

use vstd::prelude::*;

verus! {

pub const NANOS_PER_SEC: u32 = 1_000_000_000;

/// A length of time. Its view is the number of nanoseconds.
#[derive(Clone, Copy, Debug, PartialEq, Eq, Structural)]
pub struct Duration {
    secs: u64,
    nanos: u32,
}

/// A point in time. Its view is the number of nanoseconds since the Unix epoch,
/// negative before it.
#[derive(Clone, Copy, Debug, PartialEq, Eq, Structural)]
pub struct Timestamp {
    secs: i64,
    nanos: u32,
}

/// The last point in time that a `Timestamp` can hold.
pub open spec fn last_timestamp() -> int {
    i64::MAX * NANOS_PER_SEC + NANOS_PER_SEC - 1
}

impl View for Duration {
    type V = nat;

    closed spec fn view(&self) -> nat {
        (self.secs * NANOS_PER_SEC + self.nanos) as nat
    }
}

impl DeepView for Duration {
    type V = nat;

    open spec fn deep_view(&self) -> nat {
        self@
    }
}

impl View for Timestamp {
    type V = int;

    closed spec fn view(&self) -> int {
        self.secs * NANOS_PER_SEC + self.nanos
    }
}

impl DeepView for Timestamp {
    type V = int;

    open spec fn deep_view(&self) -> int {
        self@
    }
}

impl Duration {
    #[verifier::type_invariant]
    spec fn normal(self) -> bool {
        self.nanos < NANOS_PER_SEC
    }

    pub fn new(secs: u64, nanos: u32) -> (d: Duration)
        requires
            nanos < NANOS_PER_SEC,
        ensures
            d@ == secs * NANOS_PER_SEC + nanos,
    {
        Duration { secs, nanos }
    }

    pub fn from_secs(secs: u64) -> (d: Duration)
        ensures
            d@ == secs * NANOS_PER_SEC,
    {
        Duration { secs, nanos: 0 }
    }

    /// The whole seconds of this length of time.
    pub fn as_secs(&self) -> (secs: u64)
        ensures
            secs == self@ / (NANOS_PER_SEC as nat),
    {
        proof {
            use_type_invariant(self);
        }
        self.secs
    }

    /// What is left beyond the whole seconds, in nanoseconds.
    pub fn subsec_nanos(&self) -> (nanos: u32)
        ensures
            nanos == self@ % (NANOS_PER_SEC as nat),
            nanos < NANOS_PER_SEC,
    {
        proof {
            use_type_invariant(self);
        }
        self.nanos
    }
}

impl Timestamp {
    #[verifier::type_invariant]
    spec fn normal(self) -> bool {
        self.nanos < NANOS_PER_SEC
    }

    pub fn new(secs: i64, nanos: u32) -> (t: Timestamp)
        requires
            nanos < NANOS_PER_SEC,
        ensures
            t@ == secs * NANOS_PER_SEC + nanos,
    {
        Timestamp { secs, nanos }
    }

    /// The whole seconds since the Unix epoch, rounded towards the past.
    pub fn secs(&self) -> (secs: i64)
        ensures
            secs == self@ / (NANOS_PER_SEC as int),
    {
        proof {
            use_type_invariant(self);
        }
        self.secs
    }

    /// What is left beyond the whole seconds, in nanoseconds.
    pub fn subsec_nanos(&self) -> (nanos: u32)
        ensures
            nanos == self@ % (NANOS_PER_SEC as int),
            nanos < NANOS_PER_SEC,
    {
        proof {
            use_type_invariant(self);
        }
        self.nanos
    }

    /// Whether this point in time is strictly before `other`.
    pub fn is_before(&self, other: &Timestamp) -> (b: bool)
        ensures
            b == (self@ < other@),
    {
        proof {
            use_type_invariant(self);
            use_type_invariant(other);
        }
        self.secs < other.secs || (self.secs == other.secs && self.nanos < other.nanos)
    }

    /// The point in time that comes `d` after this one, or `None` if no
    /// `Timestamp` can hold it.
    pub fn checked_add(&self, d: Duration) -> (sum: Option<Timestamp>)
        ensures
            sum is Some <==> self@ + d@ <= last_timestamp(),
            sum matches Some(t) ==> t@ == self@ + d@,
    {
        proof {
            use_type_invariant(self);
            use_type_invariant(&d);
        }
        let nanos: u32 = self.nanos + d.nanos;
        let carry: bool = nanos >= NANOS_PER_SEC;
        let secs: i128 = self.secs as i128 + d.secs as i128 + (if carry {
            1
        } else {
            0
        });
        if secs > i64::MAX as i128 {
            None
        } else {
            Some(
                Timestamp {
                    secs: secs as i64,
                    nanos: if carry {
                        nanos - NANOS_PER_SEC
                    } else {
                        nanos
                    },
                },
            )
        }
    }

    /// The time that has passed from `earlier` to this point, or `None` if
    /// `earlier` is in fact later.
    pub fn duration_since(&self, earlier: &Timestamp) -> (d: Option<Duration>)
        ensures
            d is Some <==> earlier@ <= self@,
            d matches Some(v) ==> v@ == self@ - earlier@,
    {
        proof {
            use_type_invariant(self);
            use_type_invariant(earlier);
        }
        if self.is_before(earlier) {
            None
        } else if self.nanos >= earlier.nanos {
            let secs: i128 = self.secs as i128 - earlier.secs as i128;
            Some(Duration { secs: secs as u64, nanos: self.nanos - earlier.nanos })
        } else {
            let secs: i128 = self.secs as i128 - earlier.secs as i128 - 1;
            Some(
                Duration {
                    secs: secs as u64,
                    nanos: self.nanos + NANOS_PER_SEC - earlier.nanos,
                },
            )
        }
    }
}

} // verus!
