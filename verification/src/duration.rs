//! Spans of time and the number of samples they hold.

use vstd::prelude::*;

verus! {

/// Nanoseconds in one second.
pub const NANOS_PER_SEC: u128 = 1_000_000_000;

/// Nanoseconds in one millisecond.
pub const NANOS_PER_MILLI: u128 = 1_000_000;

/// `sample_rate * seconds` rounded to the nearest whole number, a half going
/// up, for a span of `nanos` nanoseconds.
pub open spec fn rounded_samples(nanos: nat, sample_rate: nat) -> nat {
    ((sample_rate * nanos + 500_000_000) / 1_000_000_000) as nat
}

/// The sample count as a 64-bit number: the rounded product, or the largest
/// 64-bit number where the product is larger.
pub open spec fn sample_count_of(nanos: nat, sample_rate: nat) -> nat {
    if rounded_samples(nanos, sample_rate) <= u64::MAX {
        rounded_samples(nanos, sample_rate)
    } else {
        u64::MAX as nat
    }
}

/// A non-negative span of time, exact to the nanosecond.
#[derive(Clone, Copy, Debug, PartialEq, Eq, Structural)]
pub struct Duration {
    nanos: u128,
}

impl View for Duration {
    type V = nat;

    /// The span in nanoseconds.
    closed spec fn view(&self) -> nat {
        self.nanos as nat
    }
}

impl Duration {
    /// The span of `nanos` nanoseconds.
    pub fn from_nanos(nanos: u128) -> (d: Duration)
        ensures
            d@ == nanos,
    {
        Duration { nanos }
    }

    /// The span of `millis` milliseconds.
    pub fn from_millis(millis: u64) -> (d: Duration)
        ensures
            d@ == millis * 1_000_000,
    {
        let wide: u128 = millis as u128;
        Duration { nanos: wide * NANOS_PER_MILLI }
    }

    /// The span in nanoseconds.
    pub fn as_nanos(&self) -> (nanos: u128)
        ensures
            nanos == self@,
    {
        self.nanos
    }

    /// The number of samples that this span holds at `sample_rate` samples per
    /// second: the exact product of rate and seconds, rounded to the nearest
    /// whole number, and capped at `u64::MAX`.
    pub fn sample_count(&self, sample_rate: u32) -> (count: u64)
        ensures
            count == sample_count_of(self@, sample_rate as nat),
    {
        let rate: u128 = sample_rate as u128;
        let ghost exact: int = rate * self.nanos;
        match self.nanos.checked_mul(rate) {
            None => {
                proof {
                    assert(self.nanos * rate == exact) by (nonlinear_arith)
                        requires
                            exact == rate * self.nanos,
                    ;
                }
                u64::MAX
            },
            Some(product) => {
                proof {
                    assert(product == exact) by (nonlinear_arith)
                        requires
                            product == self.nanos * rate,
                            exact == rate * self.nanos,
                    ;
                }
                match product.checked_add(NANOS_PER_SEC / 2) {
                    None => u64::MAX,
                    Some(shifted) => {
                        let rounded: u128 = shifted / NANOS_PER_SEC;
                        if rounded > u64::MAX as u128 {
                            u64::MAX
                        } else {
                            rounded as u64
                        }
                    },
                }
            },
        }
    }
}

/// The sample count is the whole number nearest to the exact product of rate
/// and seconds: it lies within half a sample of it, and a product that ends
/// in exactly one half goes to the number above.
pub proof fn lemma_sample_count_is_nearest(nanos: nat, sample_rate: nat)
    ensures
        2 * (rounded_samples(nanos, sample_rate) * 1_000_000_000) - 1_000_000_000 <= 2 * (
        sample_rate * nanos),
        2 * (sample_rate * nanos) < 2 * (rounded_samples(nanos, sample_rate) * 1_000_000_000)
            + 1_000_000_000,
{
}

/// No other whole number is as near: any `n` within half a sample of the
/// exact product, the half above excluded, is the sample count.
pub proof fn lemma_nearest_is_sample_count(nanos: nat, sample_rate: nat, n: nat)
    requires
        2 * (n * 1_000_000_000) - 1_000_000_000 <= 2 * (sample_rate * nanos),
        2 * (sample_rate * nanos) < 2 * (n * 1_000_000_000) + 1_000_000_000,
    ensures
        n == rounded_samples(nanos, sample_rate),
{
}

} // verus!
