use vstd::prelude::*;

verus! {

/// Number of radial bars drawn for a percentage `value` on a gauge of
/// `num_bars` bars: `num_bars * value / 100`, rounded toward negative
/// infinity and clamped to `[0, num_bars]`. The gauge is a partial ring
/// whose filled fraction approximates `value / 100`, quantized to
/// `num_bars` discrete steps.
pub open spec fn spec_bar_count(value: int, num_bars: int) -> int {
    let raw = (num_bars * value) / 100;
    if raw < 0 {
        0
    } else if raw > num_bars {
        num_bars
    } else {
        raw
    }
}

/// Bars to draw for percentage `value` on a gauge of `num_bars` bars.
pub fn bar_count(value: i32, num_bars: i32) -> (bars: i32)
    requires
        num_bars >= 0,
    ensures
        bars == spec_bar_count(value as int, num_bars as int),
        0 <= bars <= num_bars,
{
    proof {
        lemma_prod_fits(num_bars as int, value as int);
    }
    let prod: i64 = num_bars as i64 * value as i64;
    if prod < 0 {
        proof {
            lemma_neg_div(num_bars as int * value as int);
        }
        0
    } else {
        let raw: i64 = prod / 100;
        if raw > num_bars as i64 {
            num_bars
        } else {
            raw as i32
        }
    }
}

/// The product of two 32-bit values fits in 64 bits.
proof fn lemma_prod_fits(a: int, b: int)
    requires
        i32::MIN <= a <= i32::MAX,
        i32::MIN <= b <= i32::MAX,
    ensures
        i64::MIN <= a * b <= i64::MAX,
{
    assert(i64::MIN <= a * b <= i64::MAX) by (nonlinear_arith)
        requires
            -0x80000000 <= a <= 0x7fffffff,
            -0x80000000 <= b <= 0x7fffffff;
}

/// Euclidean division of a negative number by 100 is negative.
proof fn lemma_neg_div(p: int)
    requires
        p < 0,
    ensures
        p / 100 < 0,
{
    assert(p / 100 < 0) by (nonlinear_arith)
        requires p < 0;
}

} // verus!
