//! An absolute point in time, as seconds and subsecond nanoseconds since the
//! Unix epoch. This is the plain-value model of a zoned date-time value: the
//! zone matters only for display and for reinterpreting naive date-times, so
//! it lives with the range, not here.

use vstd::prelude::*;

verus! {

/// Bound on the seconds field. It is divisible by 60 (so truncation to a
/// minute stays within bounds) and generously covers every instant a calendar
/// date-time library can represent.
pub const SECS_BOUND: i64 = 12_000_000_000_000;

/// An absolute instant: `secs` seconds plus `nanos` nanoseconds after the
/// Unix epoch (`secs` may be negative; `nanos` is always a non-negative
/// subsecond offset, as in a floor division).
#[derive(Clone, Copy, Debug, PartialEq, Eq, Structural)]
pub struct Instant {
    pub secs: i64,
    pub nanos: u32,
}

/// The start of the one-minute interval that the nanosecond value `n` falls in.
pub open spec fn trunc_minute(n: int) -> int {
    60_000_000_000 * (n / 60_000_000_000)
}

impl Instant {
    /// Well-formed: subsecond part in range, seconds within the model bound.
    pub open spec fn wf(self) -> bool {
        self.nanos < 1_000_000_000 && -SECS_BOUND <= self.secs <= SECS_BOUND
    }

    /// Mathematical value: total nanoseconds since the epoch.
    pub open spec fn as_nanos(self) -> int {
        self.secs as int * 1_000_000_000 + self.nanos as int
    }

    pub fn new(secs: i64, nanos: u32) -> (r: Instant)
        requires
            -SECS_BOUND <= secs <= SECS_BOUND,
            nanos < 1_000_000_000,
        ensures
            r.wf(),
            r.as_nanos() == secs as int * 1_000_000_000 + nanos as int,
            r.secs == secs,
            r.nanos == nanos,
    {
        Instant { secs, nanos }
    }

    /// Two well-formed instants are equal exactly when their nanosecond
    /// values are equal.
    pub proof fn lemma_as_nanos_injective(a: Instant, b: Instant)
        requires
            a.wf(),
            b.wf(),
        ensures
            (a == b) <==> (a.as_nanos() == b.as_nanos()),
    {
        assert((a.secs == b.secs && a.nanos == b.nanos) <==> (a.as_nanos() == b.as_nanos()))
            by (nonlinear_arith)
            requires
                a.nanos < 1_000_000_000,
                b.nanos < 1_000_000_000,
        ;
    }

    /// Strictly-before comparison of absolute instants.
    pub fn lt(&self, other: &Instant) -> (r: bool)
        requires
            self.wf(),
            other.wf(),
        ensures
            r == (self.as_nanos() < other.as_nanos()),
    {
        proof {
            assert((self.secs < other.secs || (self.secs == other.secs && self.nanos
                < other.nanos)) <==> (self.as_nanos() < other.as_nanos())) by (nonlinear_arith)
                requires
                    self.nanos < 1_000_000_000,
                    other.nanos < 1_000_000_000,
            ;
        }
        self.secs < other.secs || (self.secs == other.secs && self.nanos < other.nanos)
    }

    /// At-or-before comparison of absolute instants.
    pub fn le(&self, other: &Instant) -> (r: bool)
        requires
            self.wf(),
            other.wf(),
        ensures
            r == (self.as_nanos() <= other.as_nanos()),
    {
        !other.lt(self)
    }

    /// Drop seconds and finer: the result is the start of the minute that
    /// `self` falls in.
    pub fn truncate_to_minute(&self) -> (r: Instant)
        requires
            self.wf(),
        ensures
            r.wf(),
            r.as_nanos() == trunc_minute(self.as_nanos()),
            r.nanos == 0,
    {
        let shifted: u64 = (self.secs + SECS_BOUND) as u64;
        let rem: u64 = shifted % 60;
        let t: i64 = ((shifted - rem) as i64) - SECS_BOUND;
        proof {
            let s = self.secs as int;
            let n = self.as_nanos();
            let q = (s + SECS_BOUND as int) / 60;
            assert(shifted == s + SECS_BOUND);
            assert(t == 60 * q - SECS_BOUND);
            assert(n == 60_000_000_000 * (q - 200_000_000_000)
                + (rem * 1_000_000_000 + self.nanos)) by (nonlinear_arith)
                requires
                    shifted == s + 12_000_000_000_000,
                    q == shifted as int / 60,
                    rem == shifted as int % 60,
                    n == s * 1_000_000_000 + self.nanos,
            ;
            assert(0 <= rem * 1_000_000_000 + self.nanos < 60_000_000_000);
            vstd::arithmetic::div_mod::lemma_fundamental_div_mod_converse(
                n,
                60_000_000_000,
                q - 200_000_000_000,
                rem * 1_000_000_000 + self.nanos as int,
            );
            assert(trunc_minute(n) == 60_000_000_000 * (q - 200_000_000_000));
            assert(t as int * 1_000_000_000 == 60_000_000_000 * (q - 200_000_000_000))
                by (nonlinear_arith)
                requires
                    t == 60 * q - 12_000_000_000_000,
            ;
        }
        Instant { secs: t, nanos: 0 }
    }
}

} // verus!
