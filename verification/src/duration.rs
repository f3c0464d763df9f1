//! Spans of time, counted in whole nanoseconds.
//!
//! A [`Duration`] has the range of the standard library's type of that name.
//! Its length is kept behind [`Duration::spec_nanos`]; the three lemmas of
//! the type say how lengths and spans determine each other.

use vstd::prelude::*;

verus! {

/// Nanoseconds in a second.
pub const NANOS_PER_SEC: u128 = 1_000_000_000;

/// Nanoseconds in a millisecond.
pub const NANOS_PER_MILLI: u128 = 1_000_000;

/// The longest span a [`Duration`] holds: one nanosecond short of 2^64 seconds.
pub const MAX_NANOS: u128 = 18_446_744_073_709_551_615_999_999_999;

/// A span of time between zero and [`MAX_NANOS`] nanoseconds.
#[derive(Clone, Copy, Debug, PartialEq, Eq, PartialOrd, Ord, Hash, Structural)]
pub struct Duration {
    nanos: u128,
}

impl Duration {
    /// Every `Duration` is within range.
    #[verifier::type_invariant]
    pub closed spec fn in_range(self) -> bool {
        self.nanos <= MAX_NANOS
    }

    /// The span in nanoseconds.
    pub closed spec fn spec_nanos(self) -> nat {
        self.nanos as nat
    }

    /// The span of the given length; meaningful up to [`MAX_NANOS`].
    pub closed spec fn spec_from_nanos(n: nat) -> Duration {
        Duration { nanos: n as u128 }
    }

    /// Two spans of the same length are the same span.
    pub broadcast proof fn lemma_nanos_determine(a: Duration, b: Duration)
        ensures
            #[trigger] a.spec_nanos() == #[trigger] b.spec_nanos() ==> a == b,
    {
    }

    /// A span made from a length in range has that length.
    pub broadcast proof fn lemma_from_nanos(n: nat)
        requires
            n <= MAX_NANOS,
        ensures
            (#[trigger] Duration::spec_from_nanos(n)).spec_nanos() == n,
            Duration::spec_from_nanos(n).in_range(),
    {
    }

    /// A span is the span made from its length.
    pub broadcast proof fn lemma_from_nanos_of_nanos(a: Duration)
        ensures
            Duration::spec_from_nanos(#[trigger] a.spec_nanos()) == a,
    {
    }

    /// The empty span.
    pub fn zero() -> (r: Duration)
        ensures
            r.spec_nanos() == 0,
    {
        Duration { nanos: 0 }
    }

    /// The longest span.
    pub fn max() -> (r: Duration)
        ensures
            r.spec_nanos() == MAX_NANOS,
    {
        Duration { nanos: MAX_NANOS }
    }

    pub fn from_secs(secs: u64) -> (r: Duration)
        ensures
            r.spec_nanos() == secs * NANOS_PER_SEC,
    {
        let secs_wide: u128 = secs as u128;
        Duration { nanos: secs_wide * NANOS_PER_SEC }
    }

    pub fn from_millis(millis: u64) -> (r: Duration)
        ensures
            r.spec_nanos() == millis * NANOS_PER_MILLI,
    {
        let millis_wide: u128 = millis as u128;
        Duration { nanos: millis_wide * NANOS_PER_MILLI }
    }

    pub fn from_nanos(nanos: u64) -> (r: Duration)
        ensures
            r.spec_nanos() == nanos,
    {
        Duration { nanos: nanos as u128 }
    }

    /// The span of `nanos` nanoseconds, if that is in range.
    pub fn checked_from_nanos(nanos: u128) -> (r: Option<Duration>)
        ensures
            nanos <= MAX_NANOS ==> r == Some(Duration::spec_from_nanos(nanos as nat)),
            nanos > MAX_NANOS ==> r.is_none(),
    {
        if nanos <= MAX_NANOS {
            Some(Duration { nanos })
        } else {
            None
        }
    }

    /// The span of `secs` seconds and `subsec_nanos` nanoseconds, if the
    /// second number is below one second.
    pub fn from_parts(secs: u64, subsec_nanos: u32) -> (r: Option<Duration>)
        ensures
            subsec_nanos < NANOS_PER_SEC ==> r == Some(
                Duration::spec_from_nanos((secs * NANOS_PER_SEC + subsec_nanos) as nat),
            ),
            subsec_nanos >= NANOS_PER_SEC ==> r.is_none(),
    {
        if (subsec_nanos as u128) < NANOS_PER_SEC {
            let secs_wide: u128 = secs as u128;
            Some(Duration { nanos: secs_wide * NANOS_PER_SEC + subsec_nanos as u128 })
        } else {
            None
        }
    }

    pub fn as_nanos(&self) -> (r: u128)
        ensures
            r == self.spec_nanos(),
            r <= MAX_NANOS,
    {
        proof {
            use_type_invariant(self);
        }
        self.nanos
    }

    /// Whole seconds in the span.
    pub fn as_secs(&self) -> (r: u64)
        ensures
            r == self.spec_nanos() / (NANOS_PER_SEC as nat),
    {
        proof {
            use_type_invariant(self);
        }
        (self.nanos / NANOS_PER_SEC) as u64
    }

    /// What is left of the span beyond its whole seconds, in nanoseconds.
    pub fn subsec_nanos(&self) -> (r: u32)
        ensures
            r == self.spec_nanos() % (NANOS_PER_SEC as nat),
    {
        (self.nanos % NANOS_PER_SEC) as u32
    }

    /// Whole milliseconds in the span.
    pub fn as_millis(&self) -> (r: u128)
        ensures
            r == self.spec_nanos() / (NANOS_PER_MILLI as nat),
    {
        self.nanos / NANOS_PER_MILLI
    }

    pub fn is_zero(&self) -> (r: bool)
        ensures
            r == (self.spec_nanos() == 0),
    {
        self.nanos == 0
    }

    /// The sum of two spans, if it is in range.
    pub fn checked_add(self, rhs: Duration) -> (r: Option<Duration>)
        ensures
            self.spec_nanos() + rhs.spec_nanos() <= MAX_NANOS ==> r == Some(
                Duration::spec_from_nanos(self.spec_nanos() + rhs.spec_nanos()),
            ),
            self.spec_nanos() + rhs.spec_nanos() > MAX_NANOS ==> r.is_none(),
    {
        proof {
            use_type_invariant(self);
            use_type_invariant(rhs);
        }
        let sum: u128 = self.nanos + rhs.nanos;
        if sum <= MAX_NANOS {
            Some(Duration { nanos: sum })
        } else {
            None
        }
    }

    /// What is left of this span after `rhs`, or nothing where `rhs` is the
    /// longer one.
    pub fn saturating_sub(self, rhs: Duration) -> (r: Duration)
        ensures
            r.spec_nanos() == if self.spec_nanos() >= rhs.spec_nanos() {
                self.spec_nanos() - rhs.spec_nanos()
            } else {
                0
            },
    {
        proof {
            use_type_invariant(self);
        }
        if self.nanos >= rhs.nanos {
            Duration { nanos: self.nanos - rhs.nanos }
        } else {
            Duration { nanos: 0 }
        }
    }

    /// Whether this span is longer than `rhs`.
    pub fn longer_than(self, rhs: Duration) -> (r: bool)
        ensures
            r == (self.spec_nanos() > rhs.spec_nanos()),
    {
        self.nanos > rhs.nanos
    }
}

} // verus!
