//! Calibration: from a raw reading and a baseline to a bounded control value.

use vstd::arithmetic::div_mod::{
    lemma_div_is_ordered_by_denominator, lemma_fundamental_div_mod, lemma_mod_bound,
};
use vstd::prelude::*;

verus! {

/// The divisor that compresses the sensor's range into that of a control signal.
pub const PRESSURE_SCALING_FACTOR: i32 = 6;

/// The largest value a calibrated reading can take.
pub const PRESSURE_CEILING: i32 = 127;

/// The quotient of `n` by `d`, rounded toward zero.
pub open spec fn truncating_quotient(n: int, d: int) -> int
    recommends
        d != 0,
{
    if d > 0 {
        if n >= 0 { n / d } else { -((-n) / d) }
    } else {
        if n >= 0 { -(n / (-d)) } else { (-n) / (-d) }
    }
}

/// The calibrated value of `raw` against `baseline`: their difference, divided
/// by `divisor` with rounding toward zero, and held at `ceiling` from above.
/// Nothing holds it from below.
pub open spec fn scaled(raw: int, baseline: int, divisor: int, ceiling: int) -> int
    recommends
        divisor != 0,
{
    let quotient = truncating_quotient(raw - baseline, divisor);
    if quotient < ceiling { quotient } else { ceiling }
}

/// Calibrates `raw` against `baseline`.
///
/// The difference of the two has to fit the machine's 32 bits, and so has the
/// quotient; any two raw readings meet this for any divisor but zero.
pub fn scale(raw: i32, baseline: i32, divisor: i32, ceiling: i32) -> (value: i32)
    requires
        divisor != 0,
        i32::MIN <= raw - baseline <= i32::MAX,
        !(raw - baseline == i32::MIN && divisor == -1),
    ensures
        value == scaled(raw as int, baseline as int, divisor as int, ceiling as int),
{
    let delta: i32 = raw - baseline;
    let quotient: i32 = delta / divisor;
    proof {
        let n: int = delta as int;
        let d: int = divisor as int;
        if d < 0 {
            if n >= 0 {
                lemma_quotient_by_negative(n, d);
            } else {
                lemma_quotient_by_negative(-n, d);
                if d < -1 {
                    lemma_div_is_ordered_by_denominator(-n, 2, -d);
                }
            }
        }
    }
    if quotient < ceiling { quotient } else { ceiling }
}

/// Rounding toward zero: what the quotient leaves over is smaller in
/// magnitude than the divisor and never of the opposite sign to what was divided.
pub proof fn lemma_truncating_quotient_rounds_toward_zero(n: int, d: int)
    requires
        d != 0,
    ensures
        ({
            let rest = n - truncating_quotient(n, d) * d;
            let size = if d > 0 { d } else { -d };
            &&& n >= 0 ==> 0 <= rest < size
            &&& n <= 0 ==> -size < rest <= 0
        }),
{
    let size = if d > 0 { d } else { -d };
    let amount = if n >= 0 { n } else { -n };
    let count = amount / size;
    lemma_fundamental_div_mod(amount, size);
    lemma_mod_bound(amount, size);
    assert(amount - count * size == amount % size) by (nonlinear_arith)
        requires
            amount == size * count + amount % size,
    ;
    assert((-count) * size == -(count * size) && count * (-size) == -(count * size)
        && (-count) * (-size) == count * size) by (nonlinear_arith);
}

/// A quotient at or above the ceiling is replaced by the ceiling itself; one
/// below it is passed on as it is, however far below.
pub proof fn lemma_scaled_clamps_from_above_only(raw: int, baseline: int, divisor: int, ceiling: int)
    ensures
        truncating_quotient(raw - baseline, divisor) >= ceiling ==> scaled(
            raw,
            baseline,
            divisor,
            ceiling,
        ) == ceiling,
        truncating_quotient(raw - baseline, divisor) < ceiling ==> scaled(
            raw,
            baseline,
            divisor,
            ceiling,
        ) == truncating_quotient(raw - baseline, divisor),
        scaled(raw, baseline, divisor, ceiling) <= ceiling,
{
}

/// Dividing a number that is not negative by a negative one gives the
/// opposite of dividing it by the divisor's magnitude.
proof fn lemma_quotient_by_negative(n: int, d: int)
    by (nonlinear_arith)
    requires
        n >= 0,
        d < 0,
    ensures
        n / d == -(n / (-d)),
{
}

} // verus!
