//! Spans of time counted in whole nanoseconds.

use vstd::prelude::*;

verus! {

/// Nanoseconds in one second.
pub const NANOS_PER_SEC: u128 = 1_000_000_000;

/// The longest span a [`TimeSpan`] holds: `u64::MAX` seconds and 999 999 999 nanoseconds.
pub const MAX_NANOS: u128 = 18_446_744_073_709_551_615_999_999_999;

/// A non-negative length of time, exact to the nanosecond.
///
/// Its view is the number of nanoseconds. Every value lies in `0 ..= MAX_NANOS`, so a span
/// always splits into whole seconds that fit a `u64` and a remainder below one second.
#[derive(Clone, Copy, Debug, PartialEq, Eq, Structural)]
pub struct TimeSpan {
    nanos: u128,
}

impl View for TimeSpan {
    type V = nat;

    closed spec fn view(&self) -> nat {
        self.nanos as nat
    }
}

/// The smaller of two naturals.
pub open spec fn min_nat(a: nat, b: nat) -> nat {
    if a <= b {
        a
    } else {
        b
    }
}

/// `a - b` where that is positive, else zero.
pub open spec fn monus(a: nat, b: nat) -> nat {
    if a >= b {
        (a - b) as nat
    } else {
        0
    }
}

/// The nanoseconds of a span that may be missing.
pub open spec fn nanos_of(span: Option<TimeSpan>) -> Option<nat> {
    match span {
        Some(span) => Some(span@),
        None => None,
    }
}

impl TimeSpan {
    /// What holds of every span a program can hold: it is at most `MAX_NANOS` long.
    #[verifier::type_invariant]
    pub open spec fn in_range(self) -> bool {
        self@ <= MAX_NANOS
    }

    /// Two spans with the same number of nanoseconds are the same value.
    pub proof fn lemma_view_injective(a: TimeSpan, b: TimeSpan)
        ensures
            (a@ == b@) == (a == b),
    {
    }

    /// The empty span.
    pub fn zero() -> (r: TimeSpan)
        ensures
            r@ == 0,
    {
        TimeSpan { nanos: 0 }
    }

    /// A span of `nanos` nanoseconds.
    pub fn from_nanos(nanos: u64) -> (r: TimeSpan)
        ensures
            r@ == nanos,
    {
        TimeSpan { nanos: nanos as u128 }
    }

    /// A span of `micros` microseconds.
    pub fn from_micros(micros: u64) -> (r: TimeSpan)
        ensures
            r@ == micros * 1_000,
    {
        TimeSpan { nanos: (micros as u128) * 1_000 }
    }

    /// A span of `millis` milliseconds.
    pub fn from_millis(millis: u64) -> (r: TimeSpan)
        ensures
            r@ == millis * 1_000_000,
    {
        TimeSpan { nanos: (millis as u128) * 1_000_000 }
    }

    /// A span of `secs` seconds.
    pub fn from_secs(secs: u64) -> (r: TimeSpan)
        ensures
            r@ == secs * 1_000_000_000,
    {
        TimeSpan { nanos: (secs as u128) * NANOS_PER_SEC }
    }

    /// A span of `secs` seconds and `nanos` further nanoseconds, cut off at `MAX_NANOS`.
    ///
    /// The cut can only happen where `nanos` is a second or more.
    pub fn from_parts(secs: u64, nanos: u32) -> (r: TimeSpan)
        ensures
            r@ == min_nat((secs * 1_000_000_000 + nanos) as nat, MAX_NANOS as nat),
    {
        let total: u128 = (secs as u128) * NANOS_PER_SEC + (nanos as u128);
        if total <= MAX_NANOS {
            TimeSpan { nanos: total }
        } else {
            TimeSpan { nanos: MAX_NANOS }
        }
    }

    /// The whole span in nanoseconds.
    pub fn as_nanos(&self) -> (n: u128)
        ensures
            n == self@,
            n <= MAX_NANOS,
    {
        proof {
            use_type_invariant(self);
        }
        self.nanos
    }

    /// The whole seconds in the span.
    pub fn as_secs(&self) -> (s: u64)
        ensures
            s == self@ / 1_000_000_000,
    {
        proof {
            use_type_invariant(self);
        }
        (self.nanos / NANOS_PER_SEC) as u64
    }

    /// What is left of the span beyond its whole seconds, in nanoseconds.
    pub fn subsec_nanos(&self) -> (n: u32)
        ensures
            n == self@ % 1_000_000_000,
            n < 1_000_000_000,
    {
        (self.nanos % NANOS_PER_SEC) as u32
    }

    /// Whether the span is empty.
    pub fn is_zero(&self) -> (z: bool)
        ensures
            z == (self@ == 0),
    {
        self.nanos == 0
    }

    /// `self - rhs`, or the empty span where `rhs` is the longer one.
    pub fn saturating_sub(self, rhs: TimeSpan) -> (r: TimeSpan)
        ensures
            r@ == monus(self@, rhs@),
    {
        proof {
            use_type_invariant(self);
        }
        if self.nanos >= rhs.nanos {
            TimeSpan { nanos: self.nanos - rhs.nanos }
        } else {
            TimeSpan { nanos: 0 }
        }
    }

    /// `self + rhs`, cut off at `MAX_NANOS`.
    pub fn saturating_add(self, rhs: TimeSpan) -> (r: TimeSpan)
        ensures
            r@ == min_nat(self@ + rhs@, MAX_NANOS as nat),
    {
        proof {
            use_type_invariant(self);
            use_type_invariant(rhs);
        }
        let total: u128 = self.nanos + rhs.nanos;
        if total <= MAX_NANOS {
            TimeSpan { nanos: total }
        } else {
            TimeSpan { nanos: MAX_NANOS }
        }
    }
}

impl Default for TimeSpan {
    /// The empty span.
    fn default() -> (r: TimeSpan)
        ensures
            r@ == 0,
    {
        TimeSpan { nanos: 0 }
    }
}

} // verus!
