//! Rates and the periods they stand for.
//!
//! A rate is a whole number of millihertz; a period is a whole number of
//! microseconds.  One period of a rate `r` lasts `10^9 / r` microseconds,
//! rounded down.

use vstd::prelude::*;

verus! {

/// Microseconds in the period of a rate of one millihertz.
pub const MICROS_PER_MILLIHERTZ_PERIOD: u64 = 1_000_000_000;

/// The period of a rate: `10^9 / rate` microseconds, rounded down, and zero
/// for a rate that is not positive.
pub open spec fn spec_period_us(rate_millihertz: int) -> nat {
    if rate_millihertz > 0 {
        (1_000_000_000int / rate_millihertz) as nat
    } else {
        0
    }
}

/// The period of a rate in microseconds.  Zero stands for "no period": the
/// rate is not positive, or it is above one megahertz.
pub fn period_us(rate_millihertz: i64) -> (period: u64)
    ensures
        period == spec_period_us(rate_millihertz as int),
        period <= MICROS_PER_MILLIHERTZ_PERIOD,
        period == 0 <==> (rate_millihertz <= 0 || rate_millihertz > 1_000_000_000),
{
    if rate_millihertz > 0 {
        let rate: u64 = rate_millihertz as u64;
        let period: u64 = MICROS_PER_MILLIHERTZ_PERIOD / rate;
        proof {
            lemma_period_bounds(rate_millihertz as int);
        }
        period
    } else {
        0
    }
}

/// The period of a positive rate is at most `10^9` microseconds, and it is
/// zero exactly when the rate is above `10^9` millihertz.
pub proof fn lemma_period_bounds(rate_millihertz: int)
    requires
        rate_millihertz > 0,
    ensures
        spec_period_us(rate_millihertz) <= 1_000_000_000,
        spec_period_us(rate_millihertz) == 0 <==> rate_millihertz > 1_000_000_000,
        spec_period_us(rate_millihertz) * rate_millihertz <= 1_000_000_000,
        1_000_000_000 < (spec_period_us(rate_millihertz) + 1) * rate_millihertz,
{
    let q: int = 1_000_000_000int / rate_millihertz;
    assert(0 <= q <= 1_000_000_000 && q * rate_millihertz <= 1_000_000_000 && 1_000_000_000 < (q + 1)
        * rate_millihertz && (q == 0 <==> rate_millihertz > 1_000_000_000)) by (nonlinear_arith)
        requires
            rate_millihertz > 0,
            q == 1_000_000_000int / rate_millihertz,
    ;
}

} // verus!
