//! Non-negative spans of time with nanosecond precision.

use vstd::prelude::*;

verus! {

/// The number of nanoseconds in the longest representable span:
/// `u64::MAX` whole seconds plus 999,999,999 nanoseconds.
pub open spec fn max_duration_nanos() -> nat {
    u64::MAX as nat * 1_000_000_000 + 999_999_999
}

/// A non-negative span of time with nanosecond precision, holding the same
/// range as `std::time::Duration`: up to `u64::MAX` whole seconds plus a
/// fraction below one second.
#[derive(Debug, Clone, Copy, PartialEq, Eq, Hash, PartialOrd, Ord)]
pub struct Duration {
    /// Total length in nanoseconds.
    nanos: u128,
}

impl Duration {
    /// The span fits the representable range.
    #[verifier::type_invariant]
    spec fn within_range(self) -> bool {
        self.nanos <= max_duration_nanos()
    }

    /// The length of this span in nanoseconds.
    pub closed spec fn as_nat(self) -> nat {
        self.nanos as nat
    }

    /// The empty span.
    pub fn zero() -> (zero: Self)
        ensures
            zero.as_nat() == 0,
    {
        Self { nanos: 0 }
    }

    /// Creates a span of `secs` seconds plus `nanos` nanoseconds; nanoseconds
    /// beyond one second carry into the seconds.
    pub fn new(secs: u64, nanos: u32) -> (span: Self)
        requires
            secs * 1_000_000_000 + nanos <= max_duration_nanos(),
        ensures
            span.as_nat() == secs * 1_000_000_000 + nanos,
    {
        Self { nanos: secs as u128 * 1_000_000_000u128 + nanos as u128 }
    }

    /// Creates a span of whole seconds.
    pub fn from_secs(secs: u64) -> (span: Self)
        ensures
            span.as_nat() == secs * 1_000_000_000,
    {
        Self { nanos: secs as u128 * 1_000_000_000u128 }
    }

    /// Creates a span of whole milliseconds.
    pub fn from_millis(millis: u64) -> (span: Self)
        ensures
            span.as_nat() == millis * 1_000_000,
    {
        Self { nanos: millis as u128 * 1_000_000u128 }
    }

    /// Creates a span of whole microseconds.
    pub fn from_micros(micros: u64) -> (span: Self)
        ensures
            span.as_nat() == micros * 1_000,
    {
        Self { nanos: micros as u128 * 1_000u128 }
    }

    /// Creates a span of nanoseconds.
    pub fn from_nanos(nanos: u64) -> (span: Self)
        ensures
            span.as_nat() == nanos,
    {
        Self { nanos: nanos as u128 }
    }

    /// Returns the whole seconds of this span.
    pub fn as_secs(&self) -> (secs: u64)
        ensures
            secs == self.as_nat() / 1_000_000_000,
    {
        proof {
            use_type_invariant(self);
        }
        (self.nanos / 1_000_000_000u128) as u64
    }

    /// Returns the fraction of this span below one second, in nanoseconds.
    pub fn subsec_nanos(&self) -> (nanos: u32)
        ensures
            nanos == self.as_nat() % 1_000_000_000,
    {
        (self.nanos % 1_000_000_000u128) as u32
    }

    /// Returns the length of this span in nanoseconds.
    pub fn as_nanos(&self) -> (nanos: u128)
        ensures
            nanos == self.as_nat(),
    {
        self.nanos
    }

    /// Returns whether `self` is at most `other`.
    pub fn le(&self, other: &Self) -> (result: bool)
        ensures
            result == (self.as_nat() <= other.as_nat()),
    {
        self.nanos <= other.nanos
    }

    /// Adds two spans when the sum is representable.
    pub fn checked_add(&self, other: &Self) -> (sum: Option<Self>)
        ensures
            match sum {
                Some(s) => s.as_nat() == self.as_nat() + other.as_nat() && s.as_nat()
                    <= max_duration_nanos(),
                None => self.as_nat() + other.as_nat() > max_duration_nanos(),
            },
    {
        proof {
            use_type_invariant(self);
            use_type_invariant(other);
        }
        let total = self.nanos + other.nanos;
        if total <= u64::MAX as u128 * 1_000_000_000u128 + 999_999_999u128 {
            Some(Self { nanos: total })
        } else {
            None
        }
    }

    /// Subtracts `other` when it is not longer than `self`.
    pub fn checked_sub(&self, other: &Self) -> (difference: Option<Self>)
        ensures
            match difference {
                Some(d) => other.as_nat() <= self.as_nat() && d.as_nat() == self.as_nat()
                    - other.as_nat(),
                None => other.as_nat() > self.as_nat(),
            },
    {
        proof {
            use_type_invariant(self);
        }
        if other.nanos <= self.nanos {
            Some(Self { nanos: self.nanos - other.nanos })
        } else {
            None
        }
    }

    /// Subtracts `other`, stopping at the empty span.
    pub fn saturating_sub(&self, other: &Self) -> (difference: Self)
        ensures
            difference.as_nat() == if other.as_nat() <= self.as_nat() {
                self.as_nat() - other.as_nat()
            } else {
                0
            },
    {
        proof {
            use_type_invariant(self);
        }
        if other.nanos <= self.nanos {
            Self { nanos: self.nanos - other.nanos }
        } else {
            Self { nanos: 0 }
        }
    }
}

} // verus!
