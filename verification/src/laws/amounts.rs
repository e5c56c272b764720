//! Rounding, percentages and the arithmetic of prices and quantities.
use crate::fixed::{abs_of, clamp_of, max_of, min_of, pct_change_spec};
use vstd::prelude::*;

verus! {

/// Whether `q` is `a / d` rounded down.
pub open spec fn is_quotient(q: int, a: int, d: int) -> bool {
    q * d <= a && a < (q + 1) * d
}

/// Whether `p` is the percentage, in hundred-millionths rounded down, by which `to`
/// lies above `from`.
pub open spec fn is_percentage(p: int, from: int, to: int) -> bool {
    is_quotient(p, (to - from) * 10_000_000_000, from)
}

/// Division rounds down.
pub proof fn lemma_quotient(a: int, d: int)
    requires
        d > 0,
    ensures
        is_quotient(a / d, a, d),
{
    let q = a / d;
    vstd::arithmetic::div_mod::lemma_fundamental_div_mod(a, d);
    assert(q * d <= a && a < (q + 1) * d) by (nonlinear_arith)
        requires
            a == d * q + a % d,
            0 <= a % d < d,
    ;
}

/// A quotient that is rounded down is unique.
pub proof fn lemma_quotient_unique(p: int, q: int, a: int, d: int)
    requires
        d > 0,
        is_quotient(p, a, d),
        is_quotient(q, a, d),
    ensures
        p == q,
{
    assert(p == q) by (nonlinear_arith)
        requires
            d > 0,
            p * d <= a,
            a < (p + 1) * d,
            q * d <= a,
            a < (q + 1) * d,
    ;
}

/// The percentage between two prices is rounded down, so the second price lies at
/// least that percentage above the first, and less than one more unit. It grows with
/// the second price and is zero between equal prices.
pub proof fn law_percentage(from: int, to: int, more: int)
    requires
        from > 0,
        to <= more,
    ensures
        is_percentage(pct_change_spec(from, to), from, to),
        pct_change_spec(from, to) <= pct_change_spec(from, more),
        pct_change_spec(from, from) == 0,
{
    lemma_quotient((to - from) * 10_000_000_000, from);
    vstd::arithmetic::div_mod::lemma_div_is_ordered(
        (to - from) * 10_000_000_000,
        (more - from) * 10_000_000_000,
        from,
    );
    assert(0int / from == 0) by (nonlinear_arith)
        requires
            from > 0,
    ;
}

/// The larger and the smaller of two numbers, the size of a number, and a number that
/// is brought into a range.
pub proof fn law_order(a: int, b: int, c: int)
    ensures
        max_of(a, b) >= a && max_of(a, b) >= b && (max_of(a, b) == a || max_of(a, b) == b),
        min_of(a, b) <= a && min_of(a, b) <= b && (min_of(a, b) == a || min_of(a, b) == b),
        abs_of(a) >= 0 && (abs_of(a) == a || abs_of(a) == -a),
        b <= c ==> b <= clamp_of(a, b, c) <= c,
        b <= a <= c ==> clamp_of(a, b, c) == a,
        a < b <= c ==> clamp_of(a, b, c) == b,
        b <= c < a ==> clamp_of(a, b, c) == c,
{
}

} // verus!
