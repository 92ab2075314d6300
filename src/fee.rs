use vstd::prelude::*;
use vstd::arithmetic::div_mod::{lemma_fundamental_div_mod, lemma_hoist_over_denominator};

verus! {

/// Highest accepted fee rate, in basis points.
pub const MAX_BASIS_POINTS: u128 = 20;

/// Highest accepted fee cap.
pub const MAX_FEE_CAP: u128 = 50_000_000;

/// Basis points in a whole.
pub const BASIS_POINT_SCALE: u128 = 10000;

/// The fee due on a transfer of `value` at `rate` basis points, at most `cap`.
pub open spec fn fee_of(value: int, rate: int, cap: int) -> int {
    if rate == 0 {
        0
    } else if value * rate / 10000 > cap {
        cap
    } else {
        value * rate / 10000
    }
}

/// Fee bound: at any accepted rate the fee lies between zero and the
/// smaller of the cap and the value, so the net amount `value - fee` is never
/// negative and net amount and fee together make up the value.
pub proof fn lemma_fee_bound(value: u128, rate: u128, cap: u128)
    requires
        rate <= MAX_BASIS_POINTS,
    ensures
        0 <= fee_of(value as int, rate as int, cap as int),
        fee_of(value as int, rate as int, cap as int) <= cap,
        fee_of(value as int, rate as int, cap as int) <= value,
        0 <= value - fee_of(value as int, rate as int, cap as int),
        (value - fee_of(value as int, rate as int, cap as int)) + fee_of(
            value as int,
            rate as int,
            cap as int,
        ) == value,
{
    assert(0 <= value as int * rate as int / 10000 <= value) by (nonlinear_arith)
        requires
            rate <= 20,
    ;
}

/// The fee due on a transfer of `value` at `rate` basis points, at most `cap`.
///
/// The fee never exceeds the value or the cap.
pub fn transaction_fee(value: u128, rate: u128, cap: u128) -> (fee: u128)
    requires
        rate <= BASIS_POINT_SCALE,
    ensures
        fee == fee_of(value as int, rate as int, cap as int),
        fee <= value,
        fee <= cap,
{
    if rate == 0 {
        return 0;
    }
    let whole = value / BASIS_POINT_SCALE;
    let part = value % BASIS_POINT_SCALE;
    proof {
        lemma_fundamental_div_mod(value as int, 10000);
        assert(whole * rate <= whole * 10000) by (nonlinear_arith)
            requires
                rate <= 10000,
        ;
        assert(part * rate <= 9999 * 10000) by (nonlinear_arith)
            requires
                part < 10000,
                rate <= 10000,
        ;
        assert((part * rate) / 10000 <= part) by (nonlinear_arith)
            requires
                rate <= 10000,
                part >= 0,
        ;
    }
    let raw = whole * rate + part * rate / BASIS_POINT_SCALE;
    proof {
        let x = part * rate;
        let j = whole * rate;
        lemma_hoist_over_denominator(x as int, j as int, 10000);
        assert(value as int * rate == x + j * 10000) by (nonlinear_arith)
            requires
                value as int == 10000 * whole + part,
                x == part * rate,
                j == whole * rate,
        ;
    }
    if raw > cap {
        cap
    } else {
        raw
    }
}

} // verus!
