//! Spans of time.
//!
//! Timeouts and deadlines are computed on [`Duration`], a span of time with
//! nanosecond precision whose length the contracts below speak of exactly.

use vstd::prelude::*;

verus! {

/// Nanoseconds in one second.
pub const NANOS_PER_SEC: u32 = 1_000_000_000;

/// Nanoseconds in one millisecond.
pub const NANOS_PER_MILLI: u32 = 1_000_000;

/// Nanoseconds in one microsecond.
pub const NANOS_PER_MICRO: u32 = 1_000;

/// Milliseconds in one second.
pub const MILLIS_PER_SEC: u64 = 1_000;

/// The length in nanoseconds of the longest span a [`Duration`] can hold.
pub open spec fn max_nanos() -> nat {
    u64::MAX as nat * NANOS_PER_SEC as nat + (NANOS_PER_SEC - 1) as nat
}

/// A span of time: whole seconds and the nanoseconds of the last second.
#[derive(Copy, Clone, PartialEq, Eq, Structural, Debug, Hash)]
pub struct Duration {
    secs: u64,
    nanos: u32,
}

impl Duration {
    /// The length of the span in nanoseconds.
    pub closed spec fn nanos(self) -> nat {
        self.secs as nat * NANOS_PER_SEC as nat + self.nanos as nat
    }

    /// The nanoseconds of the last, incomplete second are fewer than a second.
    #[verifier::type_invariant]
    closed spec fn wf(self) -> bool {
        self.nanos < NANOS_PER_SEC
    }

    /// Creates a span from whole seconds and additional nanoseconds, carrying
    /// whole seconds out of `nanos`.
    pub fn new(secs: u64, nanos: u32) -> (d: Duration)
        requires
            secs + nanos / NANOS_PER_SEC <= u64::MAX,
        ensures
            d.nanos() == secs * NANOS_PER_SEC + nanos,
    {
        let extra: u32 = nanos / NANOS_PER_SEC;
        let rest: u32 = nanos % NANOS_PER_SEC;
        Duration { secs: secs + extra as u64, nanos: rest }
    }

    /// The empty span.
    pub fn zero() -> (d: Duration)
        ensures
            d.nanos() == 0,
    {
        Duration { secs: 0, nanos: 0 }
    }

    /// The longest span a `Duration` can hold.
    pub fn max_value() -> (d: Duration)
        ensures
            d.nanos() == max_nanos(),
    {
        Duration { secs: u64::MAX, nanos: NANOS_PER_SEC - 1 }
    }

    /// Creates a span of whole seconds.
    pub fn from_secs(secs: u64) -> (d: Duration)
        ensures
            d.nanos() == secs * NANOS_PER_SEC,
    {
        Duration { secs, nanos: 0 }
    }

    /// Creates a span of milliseconds.
    pub fn from_millis(millis: u64) -> (d: Duration)
        ensures
            d.nanos() == millis * NANOS_PER_MILLI,
    {
        let secs: u64 = millis / MILLIS_PER_SEC;
        let rest: u64 = millis % MILLIS_PER_SEC;
        let nanos: u32 = (rest as u32) * NANOS_PER_MILLI;
        assert(secs * 1_000_000_000 + rest * 1_000_000 == millis * 1_000_000) by (nonlinear_arith)
            requires
                secs == millis / 1000,
                rest == millis % 1000,
        ;
        Duration { secs, nanos }
    }

    /// Creates a span of microseconds.
    pub fn from_micros(micros: u64) -> (d: Duration)
        ensures
            d.nanos() == micros * NANOS_PER_MICRO,
    {
        let secs: u64 = micros / 1_000_000;
        let rest: u64 = micros % 1_000_000;
        let nanos: u32 = (rest as u32) * NANOS_PER_MICRO;
        assert(secs * 1_000_000_000 + rest * 1_000 == micros * 1_000) by (nonlinear_arith)
            requires
                secs == micros / 1_000_000,
                rest == micros % 1_000_000,
        ;
        Duration { secs, nanos }
    }

    /// Creates a span of nanoseconds.
    pub fn from_nanos(nanos: u64) -> (d: Duration)
        ensures
            d.nanos() == nanos,
    {
        let secs: u64 = nanos / (NANOS_PER_SEC as u64);
        let rest: u64 = nanos % (NANOS_PER_SEC as u64);
        assert(secs * 1_000_000_000 + rest == nanos) by (nonlinear_arith)
            requires
                secs == nanos / 1_000_000_000,
                rest == nanos % 1_000_000_000,
        ;
        Duration { secs, nanos: rest as u32 }
    }

    /// Creates a span of `nanos` nanoseconds, or the longest span a `Duration`
    /// can hold where `nanos` is longer than that.
    pub fn from_nanos_saturating(nanos: u128) -> (d: Duration)
        ensures
            nanos <= max_nanos() ==> d.nanos() == nanos,
            nanos > max_nanos() ==> d.nanos() == max_nanos(),
    {
        let secs: u128 = nanos / (NANOS_PER_SEC as u128);
        let rest: u128 = nanos % (NANOS_PER_SEC as u128);
        assert(secs * 1_000_000_000 + rest == nanos) by (nonlinear_arith)
            requires
                secs == nanos / 1_000_000_000,
                rest == nanos % 1_000_000_000,
        ;
        if secs > u64::MAX as u128 {
            assert(nanos > max_nanos()) by (nonlinear_arith)
                requires
                    secs > u64::MAX,
                    secs * 1_000_000_000 + rest == nanos,
                    rest >= 0,
            ;
            Duration::max_value()
        } else {
            Duration { secs: secs as u64, nanos: rest as u32 }
        }
    }

    /// The number of whole seconds in the span.
    pub fn as_secs(&self) -> (s: u64)
        ensures
            s == self.nanos() / NANOS_PER_SEC as nat,
    {
        proof {
            use_type_invariant(self);
        }
        self.secs
    }

    /// The nanoseconds of the span that do not make up a whole second.
    pub fn subsec_nanos(&self) -> (n: u32)
        ensures
            n == self.nanos() % NANOS_PER_SEC as nat,
    {
        proof {
            use_type_invariant(self);
        }
        self.nanos
    }

    /// The number of whole milliseconds in the span.
    pub fn as_millis(&self) -> (m: u128)
        ensures
            m == self.nanos() / NANOS_PER_MILLI as nat,
    {
        proof {
            use_type_invariant(self);
        }
        let secs: u128 = self.secs as u128;
        let millis: u128 = (self.nanos / NANOS_PER_MILLI) as u128;
        proof {
            let s = self.secs as int;
            let n = self.nanos as int;
            assert((s * 1_000_000_000 + n) / 1_000_000 == s * 1000 + n / 1_000_000) by (nonlinear_arith)
                requires
                    0 <= n < 1_000_000_000,
                    s >= 0,
            ;
        }
        secs * (MILLIS_PER_SEC as u128) + millis
    }

    /// The length of the span in nanoseconds.
    pub fn as_nanos(&self) -> (n: u128)
        ensures
            n == self.nanos(),
            n <= max_nanos(),
    {
        proof {
            use_type_invariant(self);
        }
        assert(self.secs * 1_000_000_000 <= u64::MAX * 1_000_000_000) by (nonlinear_arith)
            requires
                self.secs <= u64::MAX,
        ;
        (self.secs as u128) * (NANOS_PER_SEC as u128) + (self.nanos as u128)
    }

    /// Whether the span is empty.
    pub fn is_zero(&self) -> (b: bool)
        ensures
            b == (self.nanos() == 0),
    {
        self.secs == 0 && self.nanos == 0
    }

    /// Whether `self` is at most as long as `other`.
    pub fn le(&self, other: &Duration) -> (b: bool)
        ensures
            b == (self.nanos() <= other.nanos()),
    {
        proof {
            use_type_invariant(self);
            use_type_invariant(other);
        }
        self.secs < other.secs || (self.secs == other.secs && self.nanos <= other.nanos)
    }

    /// Whether `self` is shorter than `other`.
    pub fn lt(&self, other: &Duration) -> (b: bool)
        ensures
            b == (self.nanos() < other.nanos()),
    {
        proof {
            use_type_invariant(self);
            use_type_invariant(other);
        }
        self.secs < other.secs || (self.secs == other.secs && self.nanos < other.nanos)
    }

    /// The shorter of the two spans.
    pub fn min(self, other: Duration) -> (d: Duration)
        ensures
            d == if self.nanos() <= other.nanos() { self } else { other },
    {
        if self.le(&other) {
            self
        } else {
            other
        }
    }

    /// `self - other`, or `None` where `other` is longer than `self`.
    pub fn checked_sub(self, other: Duration) -> (d: Option<Duration>)
        ensures
            d is Some <==> other.nanos() <= self.nanos(),
            d matches Some(v) ==> v.nanos() == self.nanos() - other.nanos(),
    {
        proof {
            use_type_invariant(self);
            use_type_invariant(other);
        }
        if !other.le(&self) {
            None
        } else if self.nanos >= other.nanos {
            Some(Duration { secs: self.secs - other.secs, nanos: self.nanos - other.nanos })
        } else {
            Some(
                Duration {
                    secs: self.secs - other.secs - 1,
                    nanos: self.nanos + NANOS_PER_SEC - other.nanos,
                },
            )
        }
    }

    /// `self + other`, or `None` where the sum is longer than a `Duration`
    /// can hold.
    pub fn checked_add(self, other: Duration) -> (d: Option<Duration>)
        ensures
            d is Some <==> self.nanos() + other.nanos() <= max_nanos(),
            d matches Some(v) ==> v.nanos() == self.nanos() + other.nanos(),
    {
        proof {
            use_type_invariant(self);
            use_type_invariant(other);
        }
        let total: u128 = self.as_nanos() + other.as_nanos();
        if total > Duration::max_value().as_nanos() {
            None
        } else {
            Some(Duration::from_nanos_saturating(total))
        }
    }
}

} // verus!
