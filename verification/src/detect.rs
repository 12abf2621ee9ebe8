//! The refresh-rate detector: from the rates that the displays report to a frame time.

use vstd::prelude::*;
use vstd::arithmetic::div_mod::lemma_div_is_ordered_by_denominator;
use vstd::arithmetic::div_mod::lemma_fundamental_div_mod;
use vstd::arithmetic::div_mod::lemma_mod_bound;
use crate::time::TimeSpan;
use crate::time::nanos_of;

verus! {

/// Half a hertz, in millihertz. Displays report whole hertz, so a reported rate may be
/// up to this much above the true one; the detector takes it off before inverting.
pub const RATE_MARGIN_MILLIHERTZ: u32 = 500;

/// One second in nanoseconds, times the millihertz in one hertz.
pub const NANOS_TIMES_MILLIHERTZ: u64 = 1_000_000_000_000;

/// The lowest rate in `rates`, or `None` where no entry holds a rate.
pub open spec fn slowest_rate(rates: Seq<Option<u32>>) -> Option<u32>
    decreases rates.len(),
{
    if rates.len() == 0 {
        None
    } else {
        match (slowest_rate(rates.drop_last()), rates.last()) {
            (Some(low), Some(rate)) => Some(if rate < low { rate } else { low }),
            (Some(low), None) => Some(low),
            (None, last) => last,
        }
    }
}

/// Whether a rate of `divisor` millihertz is one of the four whose period ends in
/// exactly half a nanosecond and goes to the nanosecond below.
///
/// Nine rates that fit a `u32` have such a period. The detector rounds as
/// `Duration::from_secs_f64(1.0 / hertz)` does with the rate in hertz as an `f64`, so
/// that a host which works in floating point gets the same nanosecond on every rate:
/// there the quotient of these four comes out just under the half, and that of the
/// other five just over it.
pub open spec fn half_goes_down(divisor: int) -> bool {
    divisor == 8_192 || divisor == 40_960 || divisor == 204_800 || divisor == 1_024_000
}

/// The period of a rate of `divisor` millihertz, rounded to the nearest nanosecond:
/// the whole nanoseconds in it, and one more where what is left over is half a
/// nanosecond or more. A period that ends in exactly half a nanosecond thus goes up,
/// but for the four rates of [`half_goes_down`].
pub open spec fn rounded_period(divisor: int) -> int
    recommends
        divisor >= 1,
{
    let whole = NANOS_TIMES_MILLIHERTZ as int / divisor;
    let rest = NANOS_TIMES_MILLIHERTZ as int % divisor;
    if 2 * rest >= divisor && !half_goes_down(divisor) {
        whole + 1
    } else {
        whole
    }
}

/// The frame time for a display that reports `rate` millihertz, in nanoseconds:
/// the period of a rate half a hertz lower, rounded to the nearest nanosecond as
/// [`rounded_period`] says. A rate of half a hertz or less has no such period.
pub open spec fn frametime_of_rate(rate: u32) -> Option<nat> {
    if rate > RATE_MARGIN_MILLIHERTZ {
        Some(rounded_period(rate - RATE_MARGIN_MILLIHERTZ) as nat)
    } else {
        None
    }
}

/// The frame time that the detector reports for the windows' rates, in nanoseconds.
pub open spec fn detected_frametime(rates: Seq<Option<u32>>) -> Option<nat> {
    match slowest_rate(rates) {
        Some(rate) => frametime_of_rate(rate),
        None => None,
    }
}

/// `slowest_rate` is the minimum: it is one of the reported rates and none is lower;
/// it is `None` exactly where nothing was reported.
pub proof fn lemma_slowest_rate_is_minimum(rates: Seq<Option<u32>>)
    ensures
        match slowest_rate(rates) {
            Some(low) => {
                &&& exists|i: int| 0 <= i < rates.len() && rates[i] == Some(low)
                &&& forall|j: int|
                    0 <= j < rates.len() ==> (#[trigger] rates[j] matches Some(rate) ==> low <= rate)
            },
            None => forall|j: int| 0 <= j < rates.len() ==> #[trigger] rates[j] is None,
        },
    decreases rates.len(),
{
    if rates.len() > 0 {
        let init = rates.drop_last();
        lemma_slowest_rate_is_minimum(init);
        let n = rates.len() - 1;
        assert forall|j: int| 0 <= j < n implies #[trigger] rates[j] == init[j] by {}
        match slowest_rate(rates) {
            Some(low) => {
                if rates.last() == Some(low) {
                    assert(rates[n] == Some(low));
                } else {
                    let i = choose|i: int| 0 <= i < init.len() && init[i] == Some(low);
                    assert(rates[i] == Some(low));
                }
                assert forall|j: int| 0 <= j < rates.len() implies (#[trigger] rates[j] matches Some(
                    rate,
                ) ==> low <= rate) by {
                    if j < n {
                        assert(rates[j] == init[j]);
                    }
                }
            },
            None => {
                assert forall|j: int| 0 <= j < rates.len() implies #[trigger] rates[j] is None by {
                    if j < n {
                        assert(rates[j] == init[j]);
                    }
                }
            },
        }
    }
}

/// `rounded_period` is the nearest whole number of nanoseconds: it lies within half a
/// nanosecond of the true period, `10^12 / divisor`. Stated without fractions, twice
/// the divisor times the rounded period is within one divisor of twice `10^12`.
pub proof fn lemma_rounded_period_is_nearest(divisor: int)
    requires
        divisor >= 1,
    ensures
        rounded_period(divisor) >= 0,
        2 * divisor * rounded_period(divisor) - divisor <= 2 * NANOS_TIMES_MILLIHERTZ,
        2 * NANOS_TIMES_MILLIHERTZ <= 2 * divisor * rounded_period(divisor) + divisor,
{
    let period = rounded_period(divisor);
    let whole = NANOS_TIMES_MILLIHERTZ as int / divisor;
    let rest = NANOS_TIMES_MILLIHERTZ as int % divisor;
    lemma_fundamental_div_mod(NANOS_TIMES_MILLIHERTZ as int, divisor);
    lemma_mod_bound(NANOS_TIMES_MILLIHERTZ as int, divisor);
    if half_goes_down(divisor) {
        // these periods end in exactly one half
        assert(2 * rest == divisor);
    }
    assert(whole >= 0) by (nonlinear_arith)
        requires
            divisor * whole + rest >= 0,
            rest < divisor,
            divisor >= 1,
    ;
    assert(2 * divisor * period == 2 * (divisor * whole) + (if period == whole {
        0
    } else {
        2 * divisor
    })) by (nonlinear_arith)
        requires
            period == whole || period == whole + 1,
    ;
}

/// A lower rate never has the shorter rounded period.
pub proof fn lemma_rounded_period_decreases(low: int, high: int)
    requires
        1 <= low <= high,
    ensures
        rounded_period(low) >= rounded_period(high),
{
    lemma_rounded_period_is_nearest(low);
    lemma_rounded_period_is_nearest(high);
    let p = rounded_period(low);
    let q = rounded_period(high);
    if low < high && p < q {
        // high * (2q - 1) <= 2 * 10^12 <= low * (2p + 1) <= low * (2q - 1)
        assert(low * (2 * q - 1) < high * (2 * q - 1)) by (nonlinear_arith)
            requires
                low < high,
                q >= 1,
        ;
        assert(low * (2 * p + 1) <= low * (2 * q - 1)) by (nonlinear_arith)
            requires
                low >= 1,
                p + 1 <= q,
        ;
        assert(2 * low * p + low == low * (2 * p + 1)) by (nonlinear_arith);
        assert(2 * high * q - high == high * (2 * q - 1)) by (nonlinear_arith);
        assert(false);
    }
}

/// The margin covers the rounding of the reported rate: at whatever rate from half a
/// hertz under the reported one upwards the display really runs, the frame time is no
/// shorter than the display's period in whole nanoseconds.
pub proof fn lemma_frametime_covers_true_period(rate: u32, true_rate: int)
    requires
        rate > RATE_MARGIN_MILLIHERTZ,
        true_rate >= rate - RATE_MARGIN_MILLIHERTZ,
    ensures
        frametime_of_rate(rate) matches Some(frametime) && frametime >= NANOS_TIMES_MILLIHERTZ as int
            / true_rate,
{
    let divisor = rate - RATE_MARGIN_MILLIHERTZ;
    lemma_div_is_ordered_by_denominator(NANOS_TIMES_MILLIHERTZ as int, divisor, true_rate);
}

/// The detected frame time is the safe one for every window: none of the reported
/// rates asks for a longer frame time.
pub proof fn lemma_detected_frametime_is_longest(rates: Seq<Option<u32>>, window: int)
    requires
        0 <= window < rates.len(),
    ensures
        (detected_frametime(rates), rates[window]) matches (Some(detected), Some(rate)) ==> (
        frametime_of_rate(rate) matches Some(frametime) && frametime <= detected),
{
    lemma_slowest_rate_is_minimum(rates);
    if let (Some(detected), Some(rate), Some(low)) = (
        detected_frametime(rates),
        rates[window],
        slowest_rate(rates),
    ) {
        assert(low <= rate);
        lemma_rounded_period_decreases(
            low - RATE_MARGIN_MILLIHERTZ,
            rate - RATE_MARGIN_MILLIHERTZ,
        );
    }
}

/// Finds the lowest refresh rate among the windows' monitors.
///
/// `rates` holds one entry per open window: the rate of its monitor in millihertz, or
/// `None` where the window, its monitor or the rate could not be had.
pub fn slowest_refresh_rate(rates: &[Option<u32>]) -> (low: Option<u32>)
    ensures
        low == slowest_rate(rates@),
{
    let mut low: Option<u32> = None;
    let mut i: usize = 0;
    while i < rates.len()
        invariant
            i <= rates.len(),
            low == slowest_rate(rates@.take(i as int)),
        decreases rates.len() - i,
    {
        proof {
            let next = rates@.take(i + 1);
            assert(next.drop_last() == rates@.take(i as int));
            assert(next.last() == rates@[i as int]);
        }
        match rates[i] {
            Some(rate) => {
                low = match low {
                    Some(seen) => Some(if rate < seen { rate } else { seen }),
                    None => Some(rate),
                };
            },
            None => {},
        }
        i += 1;
    }
    proof {
        assert(rates@.take(i as int) == rates@);
    }
    low
}

/// The frame time to aim for on a display that reports `rate` millihertz: the period
/// of a rate half a hertz lower, to the nearest nanosecond.
///
/// Returns `None` for a rate of half a hertz or less, which has no period once the
/// margin is taken off.
pub fn frametime_for_rate(rate: u32) -> (frametime: Option<TimeSpan>)
    ensures
        nanos_of(frametime) == frametime_of_rate(rate),
{
    if rate > RATE_MARGIN_MILLIHERTZ {
        let divisor: u64 = (rate - RATE_MARGIN_MILLIHERTZ) as u64;
        let whole: u64 = NANOS_TIMES_MILLIHERTZ / divisor;
        let rest: u64 = NANOS_TIMES_MILLIHERTZ % divisor;
        let half_goes_down: bool = divisor == 8_192 || divisor == 40_960 || divisor == 204_800
            || divisor == 1_024_000;
        let nanos: u64 = if 2 * rest >= divisor && !half_goes_down {
            whole + 1
        } else {
            whole
        };
        Some(TimeSpan::from_nanos(nanos))
    } else {
        None
    }
}

/// Detects the frame time from the refresh rates of the windows' monitors.
///
/// Takes the lowest reported rate, the safest where windows sit on different displays,
/// and returns its frame time. Returns `None`, for "unknown", where no rate was
/// reported or the lowest one has no period; the caller then keeps the target it has.
pub fn detect_frametime(rates: &[Option<u32>]) -> (frametime: Option<TimeSpan>)
    ensures
        nanos_of(frametime) == detected_frametime(rates@),
{
    match slowest_refresh_rate(rates) {
        Some(rate) => frametime_for_rate(rate),
        None => None,
    }
}

} // verus!
