//! A wall-clock duration as a plain nanosecond count, with the
//! unit-selection and rounding rules used to render it for display: the
//! value is scaled to nanoseconds, microseconds, milliseconds or seconds so
//! that the printed number is at least one and below fifteen hundred, and
//! carries three decimal digits, rounded half up at the dropped digit.

use vstd::arithmetic::div_mod::lemma_fundamental_div_mod_converse;
use vstd::prelude::*;

verus! {

/// The display unit chosen for a duration.
#[derive(Clone, Copy, PartialEq, Eq, Structural, Debug)]
pub enum DurationUnit {
    Nanoseconds,
    Microseconds,
    Milliseconds,
    Seconds,
}

/// A duration rendered for display: `whole` units plus `thousandths`
/// further thousandths of the unit (three decimal digits).
pub struct DurationParts {
    pub unit: DurationUnit,
    pub whole: u128,
    pub thousandths: u16,
}

/// The unit under which `n` nanoseconds are displayed. Zero is reported in
/// seconds, as a plain zero.
pub open spec fn display_unit_of(n: int) -> DurationUnit {
    if n == 0 {
        DurationUnit::Seconds
    } else if n < 1500 {
        DurationUnit::Nanoseconds
    } else if n < 1_500_000 {
        DurationUnit::Microseconds
    } else if n < 1_500_000_000 {
        DurationUnit::Milliseconds
    } else {
        DurationUnit::Seconds
    }
}

/// `n` nanoseconds expressed in thousandths of the chosen display unit,
/// rounded half up at the dropped digit.
pub open spec fn scaled_thousandths_of(n: int) -> int {
    match display_unit_of(n) {
        DurationUnit::Nanoseconds => n * 1000,
        DurationUnit::Microseconds => n,
        DurationUnit::Milliseconds => (n + 500) / 1000,
        DurationUnit::Seconds => (n + 500_000) / 1_000_000,
    }
}

/// A duration held as a whole number of nanoseconds.
#[derive(Clone, Copy, PartialEq, Eq, Structural, Debug)]
pub struct UsefulDuration {
    nanos: u128,
}

impl UsefulDuration {
    /// The duration in nanoseconds.
    pub closed spec fn nanos_spec(self) -> u128 {
        self.nanos
    }

    /// Wrap a nanosecond count.
    pub fn from_nanos(nanos: u128) -> (r: UsefulDuration)
        ensures
            r.nanos_spec() == nanos,
    {
        UsefulDuration { nanos }
    }

    /// The duration in nanoseconds.
    pub fn as_nanos(&self) -> (r: u128)
        ensures
            r == self.nanos_spec(),
    {
        self.nanos
    }

    /// Scale the duration for display: pick the unit, split the scaled
    /// value into whole units and three decimal digits, rounding half up.
    pub fn display_parts(&self) -> (r: DurationParts)
        ensures
            r.unit == display_unit_of(self.nanos_spec() as int),
            r.whole == scaled_thousandths_of(self.nanos_spec() as int) / 1000,
            r.thousandths == scaled_thousandths_of(self.nanos_spec() as int) % 1000,
    {
        let n = self.nanos;
        if n == 0 {
            DurationParts { unit: DurationUnit::Seconds, whole: 0, thousandths: 0 }
        } else if n < 1500 {
            proof {
                lemma_fundamental_div_mod_converse(n as int * 1000, 1000, n as int, 0);
            }
            DurationParts { unit: DurationUnit::Nanoseconds, whole: n, thousandths: 0 }
        } else if n < 1_500_000 {
            DurationParts {
                unit: DurationUnit::Microseconds,
                whole: n / 1000,
                thousandths: (n % 1000) as u16,
            }
        } else if n < 1_500_000_000 {
            let t = Self::round_half_up(n, 1000);
            DurationParts {
                unit: DurationUnit::Milliseconds,
                whole: t / 1000,
                thousandths: (t % 1000) as u16,
            }
        } else {
            let t = Self::round_half_up(n, 1_000_000);
            DurationParts {
                unit: DurationUnit::Seconds,
                whole: t / 1000,
                thousandths: (t % 1000) as u16,
            }
        }
    }

    /// `n / d` rounded half up, computed without materialising `n + d/2`.
    fn round_half_up(n: u128, d: u128) -> (r: u128)
        requires
            2 <= d <= 1_000_000_000,
            d % 2 == 0,
        ensures
            r == (n + d / 2) / d as int,
    {
        let q = n / d;
        let rem = n % d;
        proof {
            assert(n == d * q + rem) by {
                vstd::arithmetic::div_mod::lemma_fundamental_div_mod(n as int, d as int);
            }
            assert(d as int * q as int == q as int * d as int) by (nonlinear_arith);
            assert((q as int + 1) * d as int == q as int * d as int + d as int)
                by (nonlinear_arith);
            assert(2 * q as int <= n as int) by (nonlinear_arith)
                requires
                    n as int == d as int * q as int + rem as int,
                    rem as int >= 0,
                    d as int >= 2,
                    q as int >= 0;
            if rem < d / 2 {
                lemma_fundamental_div_mod_converse(
                    n as int + d / 2,
                    d as int,
                    q as int,
                    rem as int + d / 2,
                );
            } else {
                lemma_fundamental_div_mod_converse(
                    n as int + d / 2,
                    d as int,
                    q as int + 1,
                    rem as int + d / 2 - d,
                );
            }
        }
        if rem < d / 2 {
            q
        } else {
            q + 1
        }
    }
}

} // verus!
