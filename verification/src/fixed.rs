//! Fixed-point amounts.
//!
//! Prices, quantities, balances, fees and percentages are integers that count
//! hundred-millionths: the integer `SCALE` stands for one. Products of two
//! amounts are kept exact, in units of `SCALE * SCALE`.
use vstd::prelude::*;

verus! {

/// How many units make one.
pub const SCALE: i64 = 100_000_000;

/// The largest price, quantity or balance that the arithmetic is sized for:
/// ten billion.
pub const MAX_AMOUNT: u64 = 1_000_000_000_000_000_000;

/// The factor that takes a ratio of two amounts to a percentage in units.
pub const PCT_SCALE: i128 = 10_000_000_000;

/// The percentage by which `to` lies above `from`, rounded down to a unit.
pub open spec fn pct_change_spec(from: int, to: int) -> int {
    ((to - from) * PCT_SCALE) / from
}

/// The larger of two integers.
pub open spec fn max_of(a: int, b: int) -> int {
    if a >= b {
        a
    } else {
        b
    }
}

/// The smaller of two integers.
pub open spec fn min_of(a: int, b: int) -> int {
    if a <= b {
        a
    } else {
        b
    }
}

/// The absolute value of an integer.
pub open spec fn abs_of(a: int) -> int {
    if a < 0 {
        -a
    } else {
        a
    }
}

/// `a` brought into the range from `lo` to `hi`.
pub open spec fn clamp_of(a: int, lo: int, hi: int) -> int {
    if a < lo {
        lo
    } else if a > hi {
        hi
    } else {
        a
    }
}

/// Division that rounds toward negative infinity.
pub fn floor_div(a: i128, b: i128) -> (q: i128)
    requires
        b > 0,
    ensures
        q == a as int / b as int,
{
    proof {
        lemma_quotient_fits(a as int, b as int);
    }
    match a.checked_div_euclid(b) {
        Some(q) => q,
        None => 0,
    }
}

/// A quotient by a positive number is no larger in size than its dividend.
pub proof fn lemma_quotient_fits(a: int, b: int)
    requires
        b > 0,
    ensures
        a >= 0 ==> 0 <= a / b <= a,
        a < 0 ==> a <= a / b < 0,
{
    assert(a >= 0 ==> 0 <= a / b <= a) by (nonlinear_arith)
        requires
            b > 0,
    ;
    assert(a < 0 ==> a <= a / b < 0) by (nonlinear_arith)
        requires
            b > 0,
    ;
}

/// The percentage by which `to` lies above `from`, rounded down to a unit.
pub fn pct_change(from: u64, to: u64) -> (p: i128)
    requires
        from > 0,
    ensures
        p == pct_change_spec(from as int, to as int),
        -PCT_SCALE <= p <= u64::MAX * PCT_SCALE,
{
    let diff: i128 = to as i128 - from as i128;
    let scaled: i128 = diff * PCT_SCALE;
    proof {
        lemma_quotient_fits(scaled as int, from as int);
        assert(scaled as int / from as int >= -PCT_SCALE) by (nonlinear_arith)
            requires
                scaled == (to - from) * PCT_SCALE,
                from > 0,
                to >= 0,
                PCT_SCALE > 0,
        ;
    }
    floor_div(scaled, from as i128)
}

/// The product of two amounts in exact units of `SCALE * SCALE`.
pub fn exact_mul(a: u64, b: u64) -> (p: u128)
    ensures
        p == a * b,
{
    proof {
        assert(a * b <= 0xffff_ffff_ffff_ffff * 0xffff_ffff_ffff_ffff) by (nonlinear_arith)
            requires
                a <= 0xffff_ffff_ffff_ffff,
                b <= 0xffff_ffff_ffff_ffff,
        ;
        assert(0 <= a * b) by (nonlinear_arith);
    }
    (a as u128) * (b as u128)
}

/// The smaller of two amounts.
pub fn min_u64(a: u64, b: u64) -> (m: u64)
    ensures
        m == min_of(a as int, b as int),
{
    if a <= b {
        a
    } else {
        b
    }
}

/// The larger of two percentages.
pub fn max_i128(a: i128, b: i128) -> (m: i128)
    ensures
        m == max_of(a as int, b as int),
{
    if a >= b {
        a
    } else {
        b
    }
}

/// `a` brought into the range from `lo` to `hi`.
pub fn clamp_i128(a: i128, lo: i128, hi: i128) -> (c: i128)
    ensures
        c == clamp_of(a as int, lo as int, hi as int),
{
    if a < lo {
        lo
    } else if a > hi {
        hi
    } else {
        a
    }
}

} // verus!
