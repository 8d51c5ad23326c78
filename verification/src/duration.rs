//! A non-negative span of time, held exactly as whole seconds plus a
//! sub-second remainder in nanoseconds.
//!
//! The mathematical model of a [`Duration`] is its total length in
//! nanoseconds, an unbounded integer exposed through the view operator `@`.
//! Every operation states its result in that model; in particular
//! [`Duration::saturating_add`] is proved to clamp at [`max_nanos`] instead
//! of wrapping.

use vstd::prelude::*;

verus! {

use vstd::arithmetic::div_mod::{lemma_fundamental_div_mod, lemma_fundamental_div_mod_converse};

/// Number of nanoseconds in one second.
pub const NANOS_PER_SEC: u32 = 1_000_000_000;

/// The total length in nanoseconds of the largest representable [`Duration`]:
/// `u64::MAX` whole seconds plus the largest sub-second remainder.
pub open spec fn max_nanos() -> int {
    u64::MAX * 1_000_000_000 + 999_999_999
}

/// Addition of durations measured in nanoseconds, clamped at [`max_nanos`]
/// instead of overflowing.
pub open spec fn sat_add(a: int, b: int) -> int {
    if a + b > max_nanos() {
        max_nanos()
    } else {
        a + b
    }
}

/// A span of non-negative time with nanosecond resolution.
///
/// The stored form is exact: whole seconds plus a remainder of fewer than
/// one billion nanoseconds, so no length below `max_nanos()` nanoseconds is
/// rounded.
#[derive(Clone, Copy, Debug, PartialEq, Eq, Structural)]
pub struct Duration {
    secs: u64,
    nanos: u32,
}

impl Duration {
    /// The sub-second remainder never reaches a full second.
    #[verifier::type_invariant]
    spec fn inv(self) -> bool {
        self.nanos < NANOS_PER_SEC
    }
}

impl View for Duration {
    type V = int;

    /// The total length in nanoseconds.
    closed spec fn view(&self) -> int {
        self.secs * 1_000_000_000 + self.nanos
    }
}

impl Duration {
    /// A duration of `secs` whole seconds and `nanos` further nanoseconds.
    ///
    /// `nanos` may name one second or more; the excess is carried into the
    /// seconds, which must not overflow.
    pub fn new(secs: u64, nanos: u32) -> (r: Duration)
        requires
            secs + nanos as int / (NANOS_PER_SEC as int) <= u64::MAX,
        ensures
            r@ == secs * 1_000_000_000 + nanos,
    {
        let extra: u32 = nanos / NANOS_PER_SEC;
        let rem: u32 = nanos % NANOS_PER_SEC;
        proof {
            lemma_fundamental_div_mod(nanos as int, NANOS_PER_SEC as int);
        }
        Duration { secs: secs + extra as u64, nanos: rem }
    }

    /// A duration of `secs` whole seconds.
    pub fn from_secs(secs: u64) -> (r: Duration)
        ensures
            r@ == secs * 1_000_000_000,
    {
        Duration { secs, nanos: 0 }
    }

    /// A duration of `millis` milliseconds.
    pub fn from_millis(millis: u64) -> (r: Duration)
        ensures
            r@ == millis * 1_000_000,
    {
        let secs: u64 = millis / 1_000;
        let rem: u64 = millis % 1_000;
        proof {
            lemma_fundamental_div_mod(millis as int, 1_000);
        }
        Duration { secs, nanos: (rem as u32) * 1_000_000 }
    }

    /// A duration of `nanos` nanoseconds.
    pub fn from_nanos(nanos: u64) -> (r: Duration)
        ensures
            r@ == nanos,
    {
        let secs: u64 = nanos / (NANOS_PER_SEC as u64);
        let rem: u64 = nanos % (NANOS_PER_SEC as u64);
        proof {
            lemma_fundamental_div_mod(nanos as int, NANOS_PER_SEC as int);
        }
        Duration { secs, nanos: rem as u32 }
    }

    /// The largest representable duration.
    pub fn max_value() -> (r: Duration)
        ensures
            r@ == max_nanos(),
    {
        Duration { secs: u64::MAX, nanos: NANOS_PER_SEC - 1 }
    }

    /// The number of whole seconds in this duration.
    pub fn as_secs(&self) -> (r: u64)
        ensures
            r == self@ / 1_000_000_000,
    {
        proof {
            use_type_invariant(self);
            lemma_fundamental_div_mod_converse(
                self@,
                1_000_000_000,
                self.secs as int,
                self.nanos as int,
            );
        }
        self.secs
    }

    /// The sub-second remainder of this duration, in nanoseconds.
    pub fn subsec_nanos(&self) -> (r: u32)
        ensures
            r == self@ % 1_000_000_000,
    {
        proof {
            use_type_invariant(self);
            lemma_fundamental_div_mod_converse(
                self@,
                1_000_000_000,
                self.secs as int,
                self.nanos as int,
            );
        }
        self.nanos
    }

    /// The total length of this duration in nanoseconds.
    pub fn as_nanos(&self) -> (r: u128)
        ensures
            r == self@,
    {
        proof {
            use_type_invariant(self);
            assert((self.secs as int) * 1_000_000_000 <= u64::MAX * 1_000_000_000)
                by (nonlinear_arith)
                requires
                    self.secs <= u64::MAX,
            ;
        }
        (self.secs as u128) * (NANOS_PER_SEC as u128) + (self.nanos as u128)
    }

    /// The sum of two durations, clamped at the largest representable
    /// duration instead of overflowing.
    pub fn saturating_add(self, rhs: Duration) -> (r: Duration)
        ensures
            r@ == sat_add(self@, rhs@),
    {
        proof {
            use_type_invariant(self);
            use_type_invariant(rhs);
        }
        let nanos_sum: u32 = self.nanos + rhs.nanos;
        let (carry, nanos): (u64, u32) = if nanos_sum >= NANOS_PER_SEC {
            (1, nanos_sum - NANOS_PER_SEC)
        } else {
            (0, nanos_sum)
        };
        match self.secs.checked_add(rhs.secs) {
            Some(s) => match s.checked_add(carry) {
                Some(secs) => Duration { secs, nanos },
                None => Duration::max_value(),
            },
            None => Duration::max_value(),
        }
    }
}

impl Default for Duration {
    /// The zero-length duration.
    fn default() -> (r: Duration)
        ensures
            r@ == 0,
    {
        Duration { secs: 0, nanos: 0 }
    }
}

} // verus!
