use vstd::prelude::*;

verus! {

/// Parts per million: the denominator of the interest rate.
pub const PPM: i128 = 1_000_000;

/// Integer division that rounds toward zero, for a positive divisor.
pub open spec fn trunc_div(x: int, d: int) -> int {
    if x >= 0 {
        x / d
    } else {
        -((-x) / d)
    }
}

/// Principal plus interest: `debt + debt * rate_ppm / 1_000_000`, the
/// quotient rounded toward zero.
pub open spec fn amount_due(debt: int, rate_ppm: int) -> int {
    debt + trunc_div(debt * rate_ppm, PPM as int)
}

/// Whether a value fits in an `i128`.
pub open spec fn fits_i128(x: int) -> bool {
    i128::MIN <= x <= i128::MAX
}

/// Rounding toward zero stays between zero and the dividend.
proof fn lemma_trunc_div_bounds(x: int)
    ensures
        x >= 0 ==> 0 <= trunc_div(x, PPM as int) <= x,
        x < 0 ==> x <= trunc_div(x, PPM as int) <= 0,
{
    if x >= 0 {
        assert(0 <= x / 1_000_000 <= x) by (nonlinear_arith)
            requires
                x >= 0,
        ;
    } else {
        let y = -x;
        assert(0 <= y / 1_000_000 <= y) by (nonlinear_arith)
            requires
                y > 0,
        ;
    }
}

/// The amount due on a principal of `debt` at `rate_ppm`, or `None` where a
/// step of the computation leaves the 128-bit range.
pub fn total_due(debt: i128, rate_ppm: i128) -> (r: Option<i128>)
    ensures
        match r {
            Some(v) => fits_i128(debt * rate_ppm) && v == amount_due(debt as int, rate_ppm as int),
            None => !fits_i128(debt * rate_ppm) || !fits_i128(
                amount_due(debt as int, rate_ppm as int),
            ),
        },
{
    let product = match debt.checked_mul(rate_ppm) {
        Some(p) => p,
        None => return None,
    };
    proof {
        lemma_trunc_div_bounds(product as int);
    }
    let interest = match product.checked_div(PPM) {
        Some(q) => q,
        None => return None,
    };
    assert(interest == trunc_div(product as int, PPM as int)) by (nonlinear_arith)
        requires
            product >= 0 ==> interest == product / 1_000_000,
            product < 0 ==> interest == ((product * -1) / 1_000_000) * -1,
    ;
    debt.checked_add(interest)
}

} // verus!
