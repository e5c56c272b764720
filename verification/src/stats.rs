//! Order book walks, rolling spread statistics and the entry and exit signals
//! that they give.
use crate::config::DynamicSpreadConfig;
use crate::fixed::{clamp_i128, floor_div, lemma_quotient_fits, max_i128, PCT_SCALE, SCALE};
use crate::rejection::RejectionReason;
use crate::wide::{distance, Wide};
use std::collections::VecDeque;
use vstd::prelude::*;

verus! {

/// Why an order book cannot fill a quantity.
#[derive(Debug, Clone, Copy, PartialEq, Eq, Structural)]
pub enum VwapError {
    InsufficientDepth,
    MaxDepthExceeded,
    MaxSlippageExceeded,
}

/// One level of an order book.
#[derive(Debug, Clone, Copy)]
pub struct OrderBookLevel {
    pub price: u64,
    pub qty: u64,
}

/// The quantity that the first `n` levels offer.
pub open spec fn depth(levels: Seq<OrderBookLevel>, n: int) -> int
    decreases n,
{
    if n <= 0 {
        0
    } else {
        depth(levels, n - 1) + levels[n - 1].qty
    }
}

/// The part of `target` that level `i` fills once the levels before it are used up.
pub open spec fn taken_at(levels: Seq<OrderBookLevel>, i: int, target: int) -> int {
    crate::fixed::min_of(target - depth(levels, i), levels[i].qty as int)
}

/// What filling `target` from the first `n` levels costs, in exact units.
pub open spec fn fill_cost(levels: Seq<OrderBookLevel>, n: int, target: int) -> int
    decreases n,
{
    if n <= 0 {
        0
    } else {
        fill_cost(levels, n - 1, target) + taken_at(levels, n - 1, target) * levels[n - 1].price
    }
}

/// Whether level `i` is more than `max_slippage_pct` percent worse than the best one.
pub open spec fn slips_too_far(
    levels: Seq<OrderBookLevel>,
    i: int,
    max_slippage_pct: int,
    is_buy: bool,
) -> bool {
    let worse_by = if is_buy {
        levels[i].price - levels[0].price
    } else {
        levels[0].price - levels[i].price
    };
    worse_by * PCT_SCALE > max_slippage_pct * levels[0].price
}

/// The outcome of the walk from level `i` on, the levels before it being used up.
pub open spec fn walk_from(
    levels: Seq<OrderBookLevel>,
    i: int,
    target: int,
    max_depth_levels: int,
    max_slippage_pct: int,
    is_buy: bool,
) -> Result<int, VwapError>
    decreases levels.len() - i,
{
    if i < 0 || i >= levels.len() {
        Err(VwapError::InsufficientDepth)
    } else if i >= max_depth_levels {
        Err(VwapError::MaxDepthExceeded)
    } else if slips_too_far(levels, i, max_slippage_pct, is_buy) {
        Err(VwapError::MaxSlippageExceeded)
    } else if depth(levels, i + 1) >= target {
        Ok(fill_cost(levels, i + 1, target) / target)
    } else {
        walk_from(levels, i + 1, target, max_depth_levels, max_slippage_pct, is_buy)
    }
}

/// The volume-weighted average price of filling `target` from the best level
/// down, rounded down to a unit, or why it cannot be filled.
pub open spec fn vwap(
    levels: Seq<OrderBookLevel>,
    target: int,
    max_depth_levels: int,
    max_slippage_pct: int,
    is_buy: bool,
) -> Result<int, VwapError> {
    if levels.len() == 0 || target <= 0 {
        Err(VwapError::InsufficientDepth)
    } else {
        walk_from(levels, 0, target, max_depth_levels, max_slippage_pct, is_buy)
    }
}

/// The effective spread of buying `target` from one book and selling it into
/// another, in percent of the buy price.
pub open spec fn effective_spread(
    buy_levels: Seq<OrderBookLevel>,
    sell_levels: Seq<OrderBookLevel>,
    target: int,
    max_depth_levels: int,
    max_slippage_pct: int,
) -> Result<int, VwapError> {
    match vwap(buy_levels, target, max_depth_levels, max_slippage_pct, true) {
        Err(e) => Err(e),
        Ok(buy) => match vwap(sell_levels, target, max_depth_levels, max_slippage_pct, false) {
            Err(e) => Err(e),
            Ok(sell) => Ok(crate::fixed::pct_change_spec(buy, sell)),
        },
    }
}

/// Whether none of the first `n` levels of a book is free of charge.
pub open spec fn priced(levels: Seq<OrderBookLevel>, n: int) -> bool {
    forall|i: int| 0 <= i < levels.len() && i < n ==> (#[trigger] levels[i]).price > 0
}

/// While the first `n` levels do not fill `target`, all they offer is taken,
/// and with one more level at most `target`. The cost lies between `low` and
/// `high` times what is taken where the prices do.
proof fn lemma_fill_between(
    levels: Seq<OrderBookLevel>,
    n: int,
    target: int,
    low: int,
    high: int,
)
    requires
        0 <= n <= levels.len(),
        0 <= low <= high,
        n > 0 ==> depth(levels, n - 1) < target,
        forall|i: int| 0 <= i < n ==> low <= (#[trigger] levels[i]).price <= high,
    ensures
        depth(levels, n) >= 0,
        depth(levels, n) < target ==> depth(levels, n) * low <= fill_cost(levels, n, target)
            <= depth(levels, n) * high,
        n > 0 && depth(levels, n) >= target ==> target * low <= fill_cost(levels, n, target)
            <= target * high,
    decreases n,
{
    if n > 0 {
        assert(depth(levels, n) >= depth(levels, n - 1));
        lemma_depth_grows(levels, n - 1);
        lemma_fill_between(levels, n - 1, target, low, high);
        let before = depth(levels, n - 1);
        let take = taken_at(levels, n - 1, target);
        let price = levels[n - 1].price as int;
        assert(take * low <= take * price <= take * high) by (nonlinear_arith)
            requires
                take >= 0,
                low <= price <= high,
        ;
        assert((before + take) * low == before * low + take * low) by (nonlinear_arith);
        assert((before + take) * high == before * high + take * high) by (nonlinear_arith);
    }
}

/// What the levels offer grows with their number.
proof fn lemma_depth_grows(levels: Seq<OrderBookLevel>, n: int)
    requires
        0 <= n <= levels.len(),
    ensures
        depth(levels, n) >= 0,
        n > 0 ==> depth(levels, n - 1) <= depth(levels, n),
    decreases n,
{
    if n > 0 {
        lemma_depth_grows(levels, n - 1);
    }
}

/// A quotient lies between two bounds when its dividend lies between their
/// multiples.
proof fn lemma_quotient_between(a: int, d: int, low: int, high: int)
    by (nonlinear_arith)
    requires
        d > 0,
        d * low <= a <= d * high,
    ensures
        low <= a / d <= high,
{
}

/// The price of the most expensive level among the first `n`.
pub open spec fn dearest(levels: Seq<OrderBookLevel>, n: int) -> int
    decreases n,
{
    if n <= 0 {
        0
    } else {
        crate::fixed::max_of(dearest(levels, n - 1), levels[n - 1].price as int)
    }
}

proof fn lemma_dearest(levels: Seq<OrderBookLevel>, n: int)
    requires
        0 <= n <= levels.len(),
    ensures
        0 <= dearest(levels, n) <= u64::MAX,
        forall|i: int| 0 <= i < n ==> (#[trigger] levels[i]).price <= dearest(levels, n),
    decreases n,
{
    if n > 0 {
        lemma_dearest(levels, n - 1);
    }
}

/// The walk that fills an order from level `i` on ends at some level `n - 1`;
/// none of the levels it used slips too far.
proof fn lemma_walk_ends(
    levels: Seq<OrderBookLevel>,
    i: int,
    target: int,
    max_depth_levels: int,
    max_slippage_pct: int,
    is_buy: bool,
) -> (n: int)
    requires
        0 <= i <= levels.len(),
        depth(levels, i) < target,
        i <= max_depth_levels,
        walk_from(levels, i, target, max_depth_levels, max_slippage_pct, is_buy) is Ok,
        forall|j: int|
            0 <= j < i ==> !#[trigger] slips_too_far(levels, j, max_slippage_pct, is_buy),
    ensures
        i < n <= levels.len(),
        n <= max_depth_levels,
        depth(levels, n - 1) < target <= depth(levels, n),
        walk_from(levels, i, target, max_depth_levels, max_slippage_pct, is_buy) == Ok::<
            int,
            VwapError,
        >(fill_cost(levels, n, target) / target),
        forall|j: int|
            0 <= j < n ==> !#[trigger] slips_too_far(levels, j, max_slippage_pct, is_buy),
    decreases levels.len() - i,
{
    if depth(levels, i + 1) >= target {
        i + 1
    } else {
        lemma_walk_ends(levels, i + 1, target, max_depth_levels, max_slippage_pct, is_buy)
    }
}

/// A fill comes from at most `max_depth_levels` levels that together offer the
/// target quantity, and its average price lies between any bounds that hold of
/// the prices of the book.
pub proof fn law_vwap_between_prices(
    levels: Seq<OrderBookLevel>,
    target: int,
    max_depth_levels: int,
    max_slippage_pct: int,
    is_buy: bool,
    low: int,
    high: int,
)
    requires
        vwap(levels, target, max_depth_levels, max_slippage_pct, is_buy) is Ok,
        max_depth_levels >= 0,
        0 <= low <= high,
        forall|i: int| 0 <= i < levels.len() ==> low <= (#[trigger] levels[i]).price <= high,
    ensures
        low <= vwap(levels, target, max_depth_levels, max_slippage_pct, is_buy)->Ok_0 <= high,
        exists|n: int|
            0 < n <= levels.len() && n <= max_depth_levels && #[trigger] depth(levels, n)
                >= target,
{
    let n = lemma_walk_ends(levels, 0, target, max_depth_levels, max_slippage_pct, is_buy);
    lemma_fill_between(levels, n, target, low, high);
    lemma_quotient_between(fill_cost(levels, n, target), target, low, high);
}

/// The average price of a fill is never worse than the best price by more than
/// the allowed slippage.
pub proof fn law_vwap_within_slippage(
    levels: Seq<OrderBookLevel>,
    target: int,
    max_depth_levels: int,
    max_slippage_pct: int,
    is_buy: bool,
)
    requires
        vwap(levels, target, max_depth_levels, max_slippage_pct, is_buy) is Ok,
        max_depth_levels >= 0,
    ensures
        ({
            let v = vwap(levels, target, max_depth_levels, max_slippage_pct, is_buy)->Ok_0;
            let best = levels[0].price;
            if is_buy {
                (v - best) * PCT_SCALE <= max_slippage_pct * best
            } else {
                (best - v) * PCT_SCALE <= max_slippage_pct * best
            }
        }),
{
    let n = lemma_walk_ends(levels, 0, target, max_depth_levels, max_slippage_pct, is_buy);
    let worst = lemma_worst_level(levels, n, is_buy);
    assert(!slips_too_far(levels, worst, max_slippage_pct, is_buy));
    let edge = levels[worst].price as int;
    if is_buy {
        lemma_fill_between(levels, n, target, 0, edge);
        lemma_quotient_between(fill_cost(levels, n, target), target, 0, edge);
    } else {
        lemma_dearest(levels, n);
        let high = crate::fixed::max_of(dearest(levels, n), edge);
        lemma_fill_between(levels, n, target, edge, high);
        lemma_quotient_between(fill_cost(levels, n, target), target, edge, high);
    }
}

/// Among the first `n` levels one is the worst: dearest to buy from, cheapest
/// to sell to.
proof fn lemma_worst_level(levels: Seq<OrderBookLevel>, n: int, is_buy: bool) -> (worst: int)
    requires
        0 < n <= levels.len(),
    ensures
        0 <= worst < n,
        forall|i: int|
            0 <= i < n ==> if is_buy {
                (#[trigger] levels[i]).price <= levels[worst].price
            } else {
                levels[i].price >= levels[worst].price
            },
    decreases n,
{
    if n == 1 {
        0
    } else {
        let w = lemma_worst_level(levels, n - 1, is_buy);
        if is_buy == (levels[n - 1].price > levels[w].price) && levels[n - 1].price
            != levels[w].price {
            n - 1
        } else {
            w
        }
    }
}

/// Computes the VWAP for a target quantity.
/// `levels`: order book levels, best first (lowest price first for asks,
/// highest first for bids).
/// `max_slippage_pct`: largest allowed slippage from the best price.
/// `is_buy`: true when walking asks, false when walking bids.
pub fn compute_vwap(
    levels: &[OrderBookLevel],
    target_qty: u64,
    max_depth_levels: usize,
    max_slippage_pct: i64,
    is_buy: bool,
) -> (r: Result<u64, VwapError>)
    ensures
        match r {
            Ok(v) => vwap(
                levels@,
                target_qty as int,
                max_depth_levels as int,
                max_slippage_pct as int,
                is_buy,
            ) == Ok::<int, VwapError>(v as int),
            Err(e) => vwap(
                levels@,
                target_qty as int,
                max_depth_levels as int,
                max_slippage_pct as int,
                is_buy,
            ) == Err::<int, VwapError>(e),
        },
        (r is Ok && priced(levels@, max_depth_levels as int)) ==> r->Ok_0 > 0,
{
    if levels.len() == 0 || target_qty == 0 {
        return Err(VwapError::InsufficientDepth);
    }
    let best_price: u64 = levels[0].price;
    proof {
        assert(max_slippage_pct * best_price <= i64::MAX * u64::MAX) by (nonlinear_arith)
            requires
                max_slippage_pct <= i64::MAX,
                0 <= best_price <= u64::MAX,
        ;
        assert(max_slippage_pct * best_price >= i64::MIN * u64::MAX) by (nonlinear_arith)
            requires
                max_slippage_pct >= i64::MIN,
                0 <= best_price <= u64::MAX,
        ;
    }
    let allowed: i128 = max_slippage_pct as i128 * best_price as i128;
    let mut remaining: u64 = target_qty;
    let mut total_cost: u128 = 0;
    let mut i: usize = 0;
    while i < levels.len()
        invariant
            i <= levels.len(),
            target_qty > 0,
            best_price == levels[0].price,
            allowed == max_slippage_pct * best_price,
            remaining == target_qty - depth(levels@, i as int),
            remaining > 0,
            total_cost == fill_cost(levels@, i as int, target_qty as int),
            vwap(
                levels@,
                target_qty as int,
                max_depth_levels as int,
                max_slippage_pct as int,
                is_buy,
            ) == walk_from(
                levels@,
                i as int,
                target_qty as int,
                max_depth_levels as int,
                max_slippage_pct as int,
                is_buy,
            ),
        decreases levels.len() - i,
    {
        if i >= max_depth_levels {
            return Err(VwapError::MaxDepthExceeded);
        }
        let price: u64 = levels[i].price;
        let worse_by: i128 = if is_buy {
            price as i128 - best_price as i128
        } else {
            best_price as i128 - price as i128
        };
        if worse_by * PCT_SCALE > allowed {
            return Err(VwapError::MaxSlippageExceeded);
        }
        let take: u64 = if remaining <= levels[i].qty {
            remaining
        } else {
            levels[i].qty
        };
        proof {
            let n = i as int + 1;
            lemma_depth_grows(levels@, i as int);
            lemma_dearest(levels@, n);
            lemma_fill_between(levels@, n, target_qty as int, 0, dearest(levels@, n));
            let done = depth(levels@, n);
            let high = dearest(levels@, n);
            assert(done < target_qty ==> done * high <= target_qty * u64::MAX) by (nonlinear_arith)
                requires
                    0 <= done,
                    0 <= high <= u64::MAX,
                    0 <= target_qty,
            ;
            assert(target_qty * high <= target_qty * u64::MAX) by (nonlinear_arith)
                requires
                    0 <= high <= u64::MAX,
                    0 <= target_qty,
            ;
            assert(target_qty * u64::MAX <= u64::MAX * u64::MAX) by (nonlinear_arith)
                requires
                    0 <= target_qty <= u64::MAX,
            ;
            assert(take * price >= 0) by (nonlinear_arith);
            assert(take == taken_at(levels@, i as int, target_qty as int));
        }
        total_cost = total_cost + crate::fixed::exact_mul(take, price);
        remaining = remaining - take;
        if remaining == 0 {
            let n: usize = i + 1;
            proof {
                lemma_dearest(levels@, n as int);
                lemma_fill_between(
                    levels@,
                    n as int,
                    target_qty as int,
                    0,
                    dearest(levels@, n as int),
                );
                lemma_quotient_between(
                    total_cost as int,
                    target_qty as int,
                    0,
                    dearest(levels@, n as int),
                );
                if priced(levels@, max_depth_levels as int) {
                    lemma_dearest_positive(levels@, n as int);
                    lemma_fill_between(
                        levels@,
                        n as int,
                        target_qty as int,
                        1,
                        dearest(levels@, n as int),
                    );
                    lemma_quotient_between(
                        total_cost as int,
                        target_qty as int,
                        1,
                        dearest(levels@, n as int),
                    );
                }
            }
            return Ok((total_cost / target_qty as u128) as u64);
        }
        i = i + 1;
    }
    Err(VwapError::InsufficientDepth)
}

proof fn lemma_dearest_positive(levels: Seq<OrderBookLevel>, n: int)
    requires
        0 < n <= levels.len(),
        priced(levels, n),
    ensures
        dearest(levels, n) >= 1,
{
    lemma_dearest(levels, n);
    assert(levels[0].price > 0);
}

/// Effective spread from the executable VWAP of both legs: `buy_levels` are
/// the asks that are bought from, `sell_levels` the bids that are sold to.
pub fn compute_effective_spread(
    buy_levels: &[OrderBookLevel],
    sell_levels: &[OrderBookLevel],
    target_qty: u64,
    max_depth_levels: usize,
    max_slippage_pct: i64,
) -> (r: Result<i128, VwapError>)
    requires
        priced(buy_levels@, max_depth_levels as int),
    ensures
        match r {
            Ok(s) => effective_spread(
                buy_levels@,
                sell_levels@,
                target_qty as int,
                max_depth_levels as int,
                max_slippage_pct as int,
            ) == Ok::<int, VwapError>(s as int) && -PCT_SCALE <= s <= u64::MAX * PCT_SCALE,
            Err(e) => effective_spread(
                buy_levels@,
                sell_levels@,
                target_qty as int,
                max_depth_levels as int,
                max_slippage_pct as int,
            ) == Err::<int, VwapError>(e),
        },
{
    let buy: u64 = match compute_vwap(
        buy_levels,
        target_qty,
        max_depth_levels,
        max_slippage_pct,
        true,
    ) {
        Ok(p) => p,
        Err(e) => {
            return Err(e);
        },
    };
    let sell: u64 = match compute_vwap(
        sell_levels,
        target_qty,
        max_depth_levels,
        max_slippage_pct,
        false,
    ) {
        Ok(p) => p,
        Err(e) => {
            return Err(e);
        },
    };
    Ok(crate::fixed::pct_change(buy, sell))
}

/// Size that no spread fed to the statistics exceeds. It lies above the spread of any
/// two prices.
pub const SPREAD_LIMIT: i128 = 200_000_000_000_000_000_000_000_000_000;

/// Size that no volatility multiplier exceeds: a hundred million.
pub const MULTIPLIER_LIMIT: i64 = 10_000_000_000_000_000;

/// Largest number of buckets that a rolling window may hold.
pub const MAX_BUCKETS: u64 = 10_000_000;

/// Whether every value of `s` lies between `low` and `high`.
pub open spec fn all_between(s: Seq<i128>, low: int, high: int) -> bool {
    forall|i: int| 0 <= i < s.len() ==> low <= #[trigger] s[i] <= high
}

/// The order of the integers.
pub open spec fn upward() -> spec_fn(i128, i128) -> bool {
    |a: i128, b: i128| a <= b
}

/// The values of `s` from the smallest to the largest.
pub open spec fn ascending(s: Seq<i128>) -> Seq<i128> {
    s.sort_by(upward())
}

/// The middle value of `s`, or the mean of the two middle values rounded down;
/// zero where there is none.
pub open spec fn median_of(s: Seq<i128>) -> int {
    let t = ascending(s);
    let mid = (s.len() / 2) as int;
    if s.len() == 0 {
        0
    } else if s.len() % 2 == 0 {
        (t[mid - 1] + t[mid]) / 2
    } else {
        t[mid] as int
    }
}

/// The sum of the values of `s`.
pub open spec fn sum_of(s: Seq<i128>) -> int
    decreases s.len(),
{
    if s.len() == 0 {
        0
    } else {
        sum_of(s.drop_last()) + s.last()
    }
}

/// The mean of the values of `s`, rounded down.
pub open spec fn mean_of(s: Seq<i128>) -> int {
    sum_of(s) / (s.len() as int)
}

/// The sum of the squared deviations of the values of `s` from `center`.
pub open spec fn squares_about(s: Seq<i128>, center: int) -> int
    decreases s.len(),
{
    if s.len() == 0 {
        0
    } else {
        squares_about(s.drop_last(), center) + (s.last() - center) * (s.last() - center)
    }
}

/// Whether `r` is the integer square root of `v`.
pub open spec fn is_root(r: int, v: int) -> bool {
    r >= 0 && r * r <= v && v < (r + 1) * (r + 1)
}

/// The integer square root of `v`.
pub open spec fn root_of(v: int) -> int {
    choose|r: int| is_root(r, v)
}

/// The standard deviation of the values of `s` about their mean, rounded down.
pub open spec fn std_of(s: Seq<i128>) -> int {
    root_of(squares_about(s, mean_of(s)) / (s.len() as int))
}

/// How far each value of `s` lies from `center`.
pub open spec fn deviations(s: Seq<i128>, center: int) -> Seq<i128> {
    Seq::new(s.len(), |i: int| crate::fixed::abs_of(s[i] - center) as i128)
}

/// The median of the absolute deviations from the median.
pub open spec fn mad_of(s: Seq<i128>) -> int {
    median_of(deviations(s, median_of(s)))
}

/// The smallest value of `s`.
pub open spec fn lowest(s: Seq<i128>) -> int
    decreases s.len(),
{
    if s.len() <= 1 {
        s[0] as int
    } else {
        crate::fixed::min_of(lowest(s.drop_last()), s.last() as int)
    }
}

/// The largest value of `s`.
pub open spec fn highest(s: Seq<i128>) -> int
    decreases s.len(),
{
    if s.len() <= 1 {
        s[0] as int
    } else {
        crate::fixed::max_of(highest(s.drop_last()), s.last() as int)
    }
}

proof fn lemma_upward_total()
    ensures
        vstd::relations::total_ordering(upward()),
{
}

/// Sorting keeps the values.
proof fn lemma_ascending(s: Seq<i128>)
    ensures
        ascending(s).len() == s.len(),
        ascending(s).to_multiset() == s.to_multiset(),
        vstd::relations::sorted_by(ascending(s), upward()),
        forall|i: int| 0 <= i < s.len() ==> s.contains(#[trigger] ascending(s)[i]),
{
    broadcast use vstd::seq_lib::group_to_multiset_ensures;

    lemma_upward_total();
    s.lemma_sort_by_ensures(upward());
    assert(ascending(s).len() == s.len()) by {
        assert(ascending(s).to_multiset().len() == s.to_multiset().len());
    }
    assert forall|i: int| 0 <= i < s.len() implies s.contains(#[trigger] ascending(s)[i]) by {
        assert(ascending(s).contains(ascending(s)[i]));
    }
}

/// The median lies between any bounds of the values.
pub proof fn law_median_between(s: Seq<i128>, low: int, high: int)
    requires
        s.len() > 0,
        all_between(s, low, high),
    ensures
        low <= median_of(s) <= high,
{
    lemma_ascending(s);
    let t = ascending(s);
    let mid = (s.len() / 2) as int;
    assert(s.contains(t[mid]));
    if s.len() % 2 == 0 {
        assert(s.contains(t[mid - 1]));
    }
}

/// The median does not depend on the order of the values.
pub proof fn law_median_of_permutation(a: Seq<i128>, b: Seq<i128>)
    requires
        a.to_multiset() == b.to_multiset(),
    ensures
        median_of(a) == median_of(b),
{
    broadcast use vstd::seq_lib::group_to_multiset_ensures;

    lemma_ascending(a);
    lemma_ascending(b);
    lemma_upward_total();
    vstd::seq_lib::lemma_sorted_unique(ascending(a), ascending(b), upward());
    assert(a.len() == b.len()) by {
        assert(a.to_multiset().len() == b.to_multiset().len());
    }
}

/// `slice::sort_unstable` puts the integers of a slice in ascending order and
/// keeps them all.
#[verifier::external_body]
fn sort_values(v: &mut Vec<i128>)
    ensures
        final(v)@.to_multiset() == old(v)@.to_multiset(),
        forall|i: int, j: int|
            0 <= i <= j < final(v)@.len() ==> #[trigger] final(v)@[i] <= #[trigger] final(v)@[j],
{
    v.sort_unstable();
}

/// The mean of two integers, rounded down.
fn middle_of(a: i128, b: i128) -> (m: i128)
    ensures
        m == (a + b) / 2,
{
    let half: i128 = floor_div(a, 2) + floor_div(b, 2);
    if a % 2 != 0 && b % 2 != 0 {
        half + 1
    } else {
        half
    }
}

/// Sorts the values and gives their median, which lies between the smallest and the
/// largest of them.
pub fn compute_median(data: &mut Vec<i128>) -> (m: i128)
    ensures
        final(data)@ == ascending(old(data)@),
        final(data)@.to_multiset() == old(data)@.to_multiset(),
        forall|i: int, j: int|
            0 <= i <= j < final(data)@.len() ==> #[trigger] final(data)@[i]
                <= #[trigger] final(data)@[j],
        m == median_of(old(data)@),
        final(data)@.len() > 0 ==> final(data)@[0] <= m <= final(data)@.last(),
{
    proof {
        lemma_ascending(data@);
    }
    sort_values(data);
    proof {
        lemma_upward_total();
        lemma_ascending(old(data)@);
        vstd::seq_lib::lemma_sorted_unique(data@, ascending(old(data)@), upward());
    }
    if data.len() == 0 {
        return 0;
    }
    let mid: usize = data.len() / 2;
    proof {
        assert(old(data)@.contains(data@[mid as int]));
    }
    if data.len() % 2 == 0 {
        proof {
            assert(old(data)@.contains(data@[mid - 1]));
        }
        middle_of(data[mid - 1], data[mid])
    } else {
        data[mid]
    }
}

/// A product has the sign of its first factor.
proof fn lemma_sign_of_product(a: int, size: int, b: int)
    requires
        size == crate::fixed::abs_of(a),
        b > 0,
    ensures
        a >= 0 ==> a * b == size * b,
        a < 0 ==> a * b == -(size * b) && size * b > 0,
        size * b >= 0,
{
    assert(a >= 0 ==> a * b == size * b) by (nonlinear_arith)
        requires
            a >= 0 ==> size == a,
    ;
    assert(a < 0 ==> a * b == -(size * b) && size * b > 0) by (nonlinear_arith)
        requires
            a < 0 ==> size == -a,
            b > 0,
    ;
    assert(size * b >= 0) by (nonlinear_arith)
        requires
            size >= 0,
            b > 0,
    ;
}

/// There is one integer square root.
proof fn lemma_root_unique(a: int, b: int, v: int)
    requires
        is_root(a, v),
        is_root(b, v),
    ensures
        a == b,
{
    if a < b {
        assert((a + 1) * (a + 1) <= b * b) by (nonlinear_arith)
            requires
                0 <= a < b,
        ;
    }
    if b < a {
        assert((b + 1) * (b + 1) <= a * a) by (nonlinear_arith)
            requires
                0 <= b < a,
        ;
    }
}

/// The integer square root of the `n`-th part of a number.
fn root_of_part(v: Wide, n: u128) -> (r: i128)
    requires
        0 < n <= MAX_BUCKETS,
        v@ <= n * 160_000_000_000_000_000_000_000_000_000_000_000_000_000_000_000_000_000_000_000,
    ensures
        is_root(r as int, v@ / (n as int)),
        r == root_of(v@ / (n as int)),
{
    let mut low: u128 = 0;
    let mut high: u128 = 0x10_0000_0000_0000_0000_0000_0000;
    proof {
        assert(0 * (0 * n) == 0) by (nonlinear_arith);
        assert(n * 160_000_000_000_000_000_000_000_000_000_000_000_000_000_000_000_000_000_000_000 < high * (high * n)) by (nonlinear_arith)
            requires
                high == 0x10_0000_0000_0000_0000_0000_0000,
                n > 0,
        ;
    }
    while high - low > 1
        invariant
            0 < n <= MAX_BUCKETS,
            low < high <= 0x10_0000_0000_0000_0000_0000_0000,
            low * (low * n) <= v@,
            v@ < high * (high * n),
        decreases high - low,
    {
        let mid: u128 = low + (high - low) / 2;
        assert(0 <= mid * n <= 0x10_0000_0000_0000_0000_0000_0000 * 10_000_000) by (nonlinear_arith)
            requires
                0 <= mid <= 0x10_0000_0000_0000_0000_0000_0000,
                0 <= n <= 10_000_000,
        ;
        if v.less_than(Wide::product(mid, mid * n)) {
            high = mid;
        } else {
            low = mid;
        }
    }
    proof {
        let q = v@ / (n as int);
        assert(high == low + 1);
        lemma_root_of_part(low as int, v@, n as int);
        lemma_root_unique(low as int, root_of(q), q);
    }
    low as i128
}

proof fn lemma_root_of_part(r: int, v: int, n: int)
    requires
        r >= 0,
        n > 0,
        r * (r * n) <= v,
        v < (r + 1) * ((r + 1) * n),
    ensures
        is_root(r, v / n),
{
    let q = v / n;
    vstd::arithmetic::div_mod::lemma_fundamental_div_mod(v, n);
    assert(r * r <= q) by (nonlinear_arith)
        requires
            n > 0,
            r * (r * n) <= v,
            v == n * q + v % n,
            v % n < n,
    ;
    assert(q < (r + 1) * (r + 1)) by (nonlinear_arith)
        requires
            n > 0,
            v < (r + 1) * ((r + 1) * n),
            v == n * q + v % n,
            v % n >= 0,
    ;
}

/// Sum and squares of bounded values are bounded.
proof fn lemma_sum_bounds(s: Seq<i128>, low: int, high: int)
    requires
        all_between(s, low, high),
    ensures
        s.len() * low <= sum_of(s) <= s.len() * high,
    decreases s.len(),
{
    if s.len() > 0 {
        assert(all_between(s.drop_last(), low, high));
        lemma_sum_bounds(s.drop_last(), low, high);
        assert(s.len() * low == s.drop_last().len() * low + low) by (nonlinear_arith)
            requires
                s.len() == s.drop_last().len() + 1,
        ;
        assert(s.len() * high == s.drop_last().len() * high + high) by (nonlinear_arith)
            requires
                s.len() == s.drop_last().len() + 1,
        ;
    }
}

proof fn lemma_mean_between(s: Seq<i128>, low: int, high: int)
    requires
        s.len() > 0,
        all_between(s, low, high),
    ensures
        low <= mean_of(s) <= high,
{
    lemma_sum_bounds(s, low, high);
    lemma_quotient_between(sum_of(s), s.len() as int, low, high);
}

proof fn lemma_squares_bounds(s: Seq<i128>, center: int, reach: int)
    requires
        reach >= 0,
        all_between(s, center - reach, center + reach),
    ensures
        0 <= squares_about(s, center) <= s.len() * (reach * reach),
    decreases s.len(),
{
    if s.len() > 0 {
        assert(all_between(s.drop_last(), center - reach, center + reach));
        lemma_squares_bounds(s.drop_last(), center, reach);
        let d = s.last() - center;
        assert(0 <= d * d <= reach * reach) by (nonlinear_arith)
            requires
                -reach <= d <= reach,
        ;
        let n = s.drop_last().len() as int;
        assert((n + 1) * (reach * reach) == n * (reach * reach) + reach * reach)
            by (nonlinear_arith);
    }
}

proof fn lemma_extremes(s: Seq<i128>, low: int, high: int)
    requires
        s.len() > 0,
        all_between(s, low, high),
    ensures
        low <= lowest(s) <= high,
        low <= highest(s) <= high,
        forall|i: int| 0 <= i < s.len() ==> lowest(s) <= #[trigger] s[i] <= highest(s),
    decreases s.len(),
{
    if s.len() > 1 {
        assert(all_between(s.drop_last(), low, high));
        lemma_extremes(s.drop_last(), low, high);
        assert forall|i: int| 0 <= i < s.len() implies lowest(s) <= #[trigger] s[i]
            <= highest(s) by {
            if i < s.len() - 1 {
                assert(s[i] == s.drop_last()[i]);
            }
        }
    }
}

/// The samples collected since `timestamp`.
#[derive(Debug, Clone)]
pub struct Bucket {
    pub timestamp: u64,
    pub values: Vec<i128>,
}

/// Rolling statistics of the spread of one coin in one direction.
#[derive(Debug, Clone)]
pub struct RollingStats {
    pub rolling_median: i128,
    pub rolling_mean: i128,
    pub rolling_std: i128,
    pub rolling_mad: i128,
    pub recent_min: i128,
    pub recent_max: i128,
    pub sample_count: usize,
    pub last_spread: i128,
    pub last_observation_ts: u64,
    pub entry_threshold_crossing_ts: u64,
    pub spread_velocity: i128,
    pub config: DynamicSpreadConfig,
    pub startup_time_ms: u64,
    pub current_bucket: Bucket,
    pub historical_buckets: VecDeque<i128>,
    pub recent_ticks: VecDeque<(u64, i128)>,
}

/// What rolling statistics know, as mathematical values.
#[verifier::ext_equal]
pub struct StatsState {
    pub median: int,
    pub mean: int,
    pub std: int,
    pub mad: int,
    pub min: int,
    pub max: int,
    pub samples: int,
    pub last_spread: int,
    pub last_ts: int,
    pub crossing_ts: int,
    pub velocity: int,
    pub config: DynamicSpreadConfig,
    pub startup: int,
    pub bucket_start: int,
    pub bucket: Seq<i128>,
    pub history: Seq<i128>,
    pub ticks: Seq<(u64, i128)>,
}

/// How many buckets the window holds.
pub open spec fn window_buckets(config: DynamicSpreadConfig) -> int {
    config.stats_window_seconds as int / config.stats_bucket_seconds as int
}

/// Whether statistics can be kept under `config`: buckets have a length, the
/// window is not too fine, the outlier cap is not negative, and the multipliers are
/// not too large.
pub open spec fn config_fits(config: DynamicSpreadConfig) -> bool {
    &&& config.stats_bucket_seconds > 0
    &&& window_buckets(config) <= MAX_BUCKETS
    &&& config.outlier_cap_multiplier >= 0
    &&& -MULTIPLIER_LIMIT <= config.k_entry <= MULTIPLIER_LIMIT
    &&& -MULTIPLIER_LIMIT <= config.k_exit <= MULTIPLIER_LIMIT
}

/// Whether statistics can be kept under `config`.
pub fn is_config_fitting(config: &DynamicSpreadConfig) -> (r: bool)
    ensures
        r == config_fits(*config),
{
    config.stats_bucket_seconds > 0 && config.stats_window_seconds / config.stats_bucket_seconds
        <= MAX_BUCKETS && config.outlier_cap_multiplier >= 0 && -MULTIPLIER_LIMIT <= config.k_entry
        && config.k_entry <= MULTIPLIER_LIMIT && -MULTIPLIER_LIMIT <= config.k_exit && config.k_exit
        <= MULTIPLIER_LIMIT
}

/// The index of the tick among the first `n` that is nearest to `target`, the
/// earliest of several, where one lies within `tolerance`.
pub open spec fn nearest_tick(
    ticks: Seq<(u64, i128)>,
    n: int,
    target: int,
    tolerance: int,
) -> Option<int>
    decreases n,
{
    if n <= 0 {
        None
    } else {
        let before = nearest_tick(ticks, n - 1, target, tolerance);
        let gap = crate::fixed::abs_of(ticks[n - 1].0 - target);
        if gap <= tolerance && (before is None || gap < crate::fixed::abs_of(
            ticks[before->Some_0].0 - target,
        )) {
            Some(n - 1)
        } else {
            before
        }
    }
}

/// `ticks` without the leading ones that are older than `cutoff`.
pub open spec fn since(ticks: Seq<(u64, i128)>, cutoff: int) -> Seq<(u64, i128)>
    decreases ticks.len(),
{
    if ticks.len() > 0 && ticks[0].0 < cutoff {
        since(ticks.drop_first(), cutoff)
    } else {
        ticks
    }
}

/// The last `n` values of `s`.
pub open spec fn newest(s: Seq<i128>, n: int) -> Seq<i128> {
    if s.len() > n {
        s.subrange(s.len() - n, s.len() as int)
    } else {
        s
    }
}

/// `a - b`, or zero where that is negative.
pub open spec fn less(a: int, b: int) -> int {
    crate::fixed::max_of(a - b, 0)
}

impl StatsState {
    /// The value that enters the statistics for a raw spread: an outlier is
    /// brought to the cap around the median.
    pub open spec fn capped(self, raw: int) -> int {
        if self.samples > 0 && self.mad > 0 {
            let cap = (self.config.outlier_cap_multiplier * self.mad) / (SCALE as int);
            crate::fixed::clamp_of(raw, self.median - cap, self.median + cap)
        } else {
            raw
        }
    }

    /// The change of the spread per second over the velocity window, zero where
    /// no tick lies close enough to its start.
    pub open spec fn velocity_to(self, raw: int, ts: int) -> int {
        let window = self.config.velocity_window_ms as int;
        match nearest_tick(self.ticks, self.ticks.len() as int, less(ts, window), window / 5) {
            Some(i) if window > 0 => ((raw - self.ticks[i].1) * 1000) / window,
            _ => 0,
        }
    }

    /// The statistics recomputed from the history, unchanged where there is none.
    pub open spec fn recomputed(self) -> StatsState {
        if self.history.len() == 0 {
            self
        } else {
            StatsState {
                median: median_of(self.history),
                mean: mean_of(self.history),
                std: std_of(self.history),
                mad: mad_of(self.history),
                min: lowest(self.history),
                max: highest(self.history),
                ..self
            }
        }
    }

    /// The statistics after the current bucket has gone into the history.
    pub open spec fn bucket_closed(self) -> StatsState {
        if self.bucket.len() == 0 {
            self
        } else {
            StatsState {
                history: newest(
                    self.history.push(median_of(self.bucket) as i128),
                    window_buckets(self.config),
                ),
                bucket: seq![],
                ..self
            }.recomputed()
        }
    }

    /// The statistics after a raw spread has been observed at `ts`.
    pub open spec fn updated(self, raw: int, ts: int) -> StatsState {
        let value = self.capped(raw);
        let ticked = StatsState {
            last_spread: raw,
            last_ts: ts,
            ticks: self.ticks.push((ts as u64, raw as i128)),
            ..self
        };
        let window = self.config.velocity_window_ms as int;
        let moved = StatsState {
            velocity: ticked.velocity_to(raw, ts),
            ticks: since(ticked.ticks, less(ts, 2 * window)),
            bucket_start: if self.bucket_start == 0 {
                ts
            } else {
                self.bucket_start
            },
            ..ticked
        };
        let rolled = if ts >= moved.bucket_start + self.config.stats_bucket_seconds * 1000 {
            StatsState { bucket_start: ts, ..moved.bucket_closed() }
        } else {
            moved
        };
        StatsState {
            bucket: rolled.bucket.push(value as i128),
            samples: self.samples + 1,
            ..rolled
        }
    }

    /// The robust standard deviation, 1.4826 times the MAD, rounded down.
    pub open spec fn volatility(self) -> int {
        (14826 * self.mad) / 10000
    }

    /// Whether trading is permitted, and why not.
    pub open spec fn permit(self, now: int) -> Result<(), RejectionReason> {
        if self.samples < self.config.minimum_samples {
            Err(RejectionReason::INSUFFICIENT_HISTORY)
        } else if now < self.startup + self.config.warmup_seconds * 1000 {
            Err(RejectionReason::WARMUP)
        } else if self.volatility() < self.config.min_volatility_floor_pct {
            Err(RejectionReason::INSUFFICIENT_LIQUIDITY)
        } else {
            Ok(())
        }
    }

    /// The spread above which a position is entered.
    pub open spec fn entry_level(self) -> int {
        crate::fixed::max_of(
            self.median + (self.config.k_entry * self.volatility()) / (SCALE as int),
            self.config.minimum_entry_threshold_pct as int,
        )
    }

    /// The spread below which a position is left.
    pub open spec fn exit_level(self) -> int {
        crate::fixed::clamp_of(
            self.median + (self.config.k_exit * self.volatility()) / (SCALE as int),
            self.config.minimum_exit_threshold_pct as int,
            self.config.maximum_exit_threshold_pct as int,
        )
    }

    /// Whether `spread` lies less than the minimum number of (floored) robust
    /// deviations above the median.
    pub open spec fn z_score_low(self, spread: int) -> bool {
        if self.volatility() > 0 {
            (spread - self.median) * SCALE < self.config.minimum_entry_z_score
                * crate::fixed::max_of(
                self.volatility(),
                self.config.min_volatility_floor_pct as int,
            )
        } else {
            0 < self.config.minimum_entry_z_score
        }
    }

    /// How long ago the entry threshold was crossed, zero where it was not.
    pub open spec fn signal_age(self, now: int) -> int {
        if self.crossing_ts > 0 && now >= self.crossing_ts {
            now - self.crossing_ts
        } else {
            0
        }
    }

    /// Whether a spread is an entry signal, and why not.
    pub open spec fn entry_signal(self, spread: int, now: int) -> Result<(), RejectionReason> {
        if self.permit(now) is Err {
            self.permit(now)
        } else if spread <= self.entry_level() {
            Err(RejectionReason::SPREAD_BELOW_DYNAMIC_THRESHOLD)
        } else if self.z_score_low(spread) {
            Err(RejectionReason::Z_SCORE_TOO_LOW)
        } else if self.velocity < -self.config.collapse_rate_threshold_pct_per_sec {
            Err(RejectionReason::SPREAD_COLLAPSING)
        } else if self.signal_age(now) > self.config.max_signal_age_ms {
            Err(RejectionReason::SIGNAL_TOO_OLD)
        } else if spread - self.entry_level() >= self.config.max_slippage_pct {
            Err(RejectionReason::INVALID_ORDERBOOK)
        } else {
            Ok(())
        }
    }

    /// Whether an open position is to be closed at `spread`.
    pub open spec fn exit_signal(self, spread: int, now: int, open_time: int) -> bool {
        ||| less(now, open_time) > self.config.max_arbitrage_hold_time_ms
        ||| self.permit(now) is Ok && (spread < self.config.minimum_exit_threshold_pct || spread
            < self.exit_level())
    }
}

impl RollingStats {
    pub open spec fn view(&self) -> StatsState {
        StatsState {
            median: self.rolling_median as int,
            mean: self.rolling_mean as int,
            std: self.rolling_std as int,
            mad: self.rolling_mad as int,
            min: self.recent_min as int,
            max: self.recent_max as int,
            samples: self.sample_count as int,
            last_spread: self.last_spread as int,
            last_ts: self.last_observation_ts as int,
            crossing_ts: self.entry_threshold_crossing_ts as int,
            velocity: self.spread_velocity as int,
            config: self.config,
            startup: self.startup_time_ms as int,
            bucket_start: self.current_bucket.timestamp as int,
            bucket: self.current_bucket.values@,
            history: self.historical_buckets@,
            ticks: self.recent_ticks@,
        }
    }

    /// The values kept are spreads in range, and the history fits its window.
    pub open spec fn wf(&self) -> bool {
        &&& config_fits(self.config)
        &&& -SPREAD_LIMIT <= self.rolling_median <= SPREAD_LIMIT
        &&& 0 <= self.rolling_mad <= 2 * SPREAD_LIMIT
        &&& all_between(self.current_bucket.values@, -SPREAD_LIMIT, SPREAD_LIMIT as int)
        &&& all_between(self.historical_buckets@, -SPREAD_LIMIT, SPREAD_LIMIT as int)
        &&& self.historical_buckets@.len() <= window_buckets(self.config)
        &&& forall|i: int|
            0 <= i < self.recent_ticks@.len() ==> -SPREAD_LIMIT <= (
            #[trigger] self.recent_ticks@[i]).1 <= SPREAD_LIMIT
    }

    /// Statistics that have seen nothing.
    pub fn new(config: DynamicSpreadConfig, startup_time_ms: u64) -> (s: RollingStats)
        requires
            config_fits(config),
        ensures
            s.wf(),
            s@ == fresh_state(config, startup_time_ms as int),
    {
        RollingStats {
            rolling_median: 0,
            rolling_mean: 0,
            rolling_std: 0,
            rolling_mad: 0,
            recent_min: 0,
            recent_max: 0,
            sample_count: 0,
            last_spread: 0,
            last_observation_ts: 0,
            entry_threshold_crossing_ts: 0,
            spread_velocity: 0,
            config,
            startup_time_ms,
            current_bucket: Bucket { timestamp: 0, values: Vec::new() },
            historical_buckets: VecDeque::new(),
            recent_ticks: VecDeque::new(),
        }
    }

    /// The robust standard deviation of the spread.
    pub fn get_spread_volatility(&self) -> (v: i128)
        requires
            0 <= self.rolling_mad <= 2 * SPREAD_LIMIT,
        ensures
            v == self@.volatility(),
            0 <= v <= 2 * self.rolling_mad,
    {
        floor_div(14826 * self.rolling_mad, 10000)
    }

    /// The value that enters the statistics for a raw spread.
    fn capped_value(&self, raw_spread: i128) -> (value: i128)
        requires
            self.wf(),
            -SPREAD_LIMIT <= raw_spread <= SPREAD_LIMIT,
        ensures
            value == self@.capped(raw_spread as int),
            -SPREAD_LIMIT <= value <= SPREAD_LIMIT,
    {
        if self.sample_count > 0 && self.rolling_mad > 0 {
            let m: i128 = self.config.outlier_cap_multiplier as i128;
            proof {
                let mad = self.rolling_mad;
                assert(m * mad >= 0) by (nonlinear_arith)
                    requires
                        m >= 0,
                        mad >= 0,
                ;
                lemma_quotient_fits(m * mad, SCALE as int);
            }
            // A cap that does not fit lies beyond every spread.
            match m.checked_mul(self.rolling_mad) {
                Some(scaled) => {
                    let cap: i128 = floor_div(scaled, SCALE as i128);
                    clamp_i128(raw_spread, self.rolling_median - cap, self.rolling_median + cap)
                },
                None => raw_spread,
            }
        } else {
            raw_spread
        }
    }

    /// The change of the spread per second over the velocity window.
    fn velocity_at(&self, raw_spread: i128, timestamp_ms: u64) -> (v: i128)
        requires
            self.wf(),
            -SPREAD_LIMIT <= raw_spread <= SPREAD_LIMIT,
        ensures
            v == self@.velocity_to(raw_spread as int, timestamp_ms as int),
    {
        let window: u64 = self.config.velocity_window_ms;
        let target: u64 = timestamp_ms.saturating_sub(window);
        let tolerance: u64 = window / 5;
        let mut best: Option<usize> = None;
        let mut min_gap: u64 = 0;
        let mut i: usize = 0;
        while i < self.recent_ticks.len()
            invariant
                i <= self.recent_ticks@.len(),
                match nearest_tick(self.recent_ticks@, i as int, target as int, tolerance as int) {
                    None => best is None,
                    Some(k) => best == Some(k as usize) && 0 <= k < i && min_gap
                        == crate::fixed::abs_of(self.recent_ticks@[k].0 - target),
                },
            decreases self.recent_ticks@.len() - i,
        {
            let ts: u64 = self.recent_ticks[i].0;
            let gap: u64 = if ts >= target {
                ts - target
            } else {
                target - ts
            };
            if gap <= tolerance && (best.is_none() || gap < min_gap) {
                min_gap = gap;
                best = Some(i);
            }
            i = i + 1;
        }
        match best {
            Some(k) => {
                if window > 0 {
                    floor_div((raw_spread - self.recent_ticks[k].1) * 1000, window as i128)
                } else {
                    0
                }
            },
            None => 0,
        }
    }

    /// Drops the leading ticks older than `cutoff`.
    fn trim_ticks(&mut self, cutoff: u64)
        requires
            old(self).wf(),
        ensures
            final(self).wf(),
            final(self)@ == (StatsState {
                ticks: since(old(self)@.ticks, cutoff as int),
                ..old(self)@
            }),
            final(self).sample_count == old(self).sample_count,
    {
        while self.recent_ticks.len() > 0 && self.recent_ticks[0].0 < cutoff
            invariant
                self.wf(),
                self@ == (StatsState { ticks: self@.ticks, ..old(self)@ }),
                since(self@.ticks, cutoff as int) == since(old(self)@.ticks, cutoff as int),
                self.sample_count == old(self).sample_count,
            decreases self.recent_ticks@.len(),
        {
            let ghost before = self.recent_ticks@;
            let _ = self.recent_ticks.pop_front();
            assert(self.recent_ticks@ =~= before.drop_first());
        }
    }

    /// Recomputes the statistics from the history.
    fn recompute_stats(&mut self)
        requires
            old(self).wf(),
        ensures
            final(self).wf(),
            final(self)@ == old(self)@.recomputed(),
    {
        let n: usize = self.historical_buckets.len();
        if n == 0 {
            return ;
        }
        let mut values: Vec<i128> = Vec::new();
        let mut i: usize = 0;
        while i < n
            invariant
                i <= n,
                n == self.historical_buckets@.len(),
                values@ == self.historical_buckets@.take(i as int),
            decreases n - i,
        {
            values.push(self.historical_buckets[i]);
            i = i + 1;
        }
        let ghost history = self.historical_buckets@;
        assert(values@ =~= history);
        let median: i128 = compute_median(&mut values);
        proof {
            law_median_between(history, -SPREAD_LIMIT, SPREAD_LIMIT as int);
            lemma_mean_between(history, -SPREAD_LIMIT, SPREAD_LIMIT as int);
            lemma_sum_bounds(history, -SPREAD_LIMIT, SPREAD_LIMIT as int);
            lemma_extremes(history, -SPREAD_LIMIT, SPREAD_LIMIT as int);
            assert(window_buckets(self.config) <= MAX_BUCKETS);
        }
        let mut sum: i128 = 0;
        let mut low: i128 = self.historical_buckets[0];
        let mut high: i128 = self.historical_buckets[0];
        i = 0;
        while i < n
            invariant
                i <= n,
                n == history.len(),
                n <= MAX_BUCKETS,
                history == self.historical_buckets@,
                all_between(history, -SPREAD_LIMIT, SPREAD_LIMIT as int),
                sum == sum_of(history.take(i as int)),
                -200_000_000_000_000_000_000_000_000_000 * i <= sum <= 200_000_000_000_000_000_000_000_000_000 * i,
                i == 0 ==> low == history[0] && high == history[0],
                i > 0 ==> low == lowest(history.take(i as int)),
                i > 0 ==> high == highest(history.take(i as int)),
            decreases n - i,
        {
            let v: i128 = self.historical_buckets[i];
            assert(history.take(i as int + 1).drop_last() =~= history.take(i as int));
            sum = sum + v;
            if v < low {
                low = v;
            }
            if v > high {
                high = v;
            }
            i = i + 1;
        }
        assert(history.take(n as int) =~= history);
        let mean: i128 = floor_div(sum, n as i128);
        let mut squares: Wide = Wide::zero();
        let mut deviation_values: Vec<i128> = Vec::new();
        i = 0;
        while i < n
            invariant
                i <= n,
                n == history.len(),
                n <= MAX_BUCKETS,
                history == self.historical_buckets@,
                all_between(history, -SPREAD_LIMIT, SPREAD_LIMIT as int),
                -SPREAD_LIMIT <= mean <= SPREAD_LIMIT,
                -SPREAD_LIMIT <= median <= SPREAD_LIMIT,
                squares@ == squares_about(history.take(i as int), mean as int),
                0 <= squares@ <= i * 160_000_000_000_000_000_000_000_000_000_000_000_000_000_000_000_000_000_000_000,
                deviation_values@ == deviations(history, median as int).take(i as int),
            decreases n - i,
        {
            let v: i128 = self.historical_buckets[i];
            let d: u128 = distance(v, mean);
            assert(history.take(i as int + 1).drop_last() =~= history.take(i as int));
            assert(0 <= d * d <= 160_000_000_000_000_000_000_000_000_000_000_000_000_000_000_000_000_000_000_000) by (nonlinear_arith)
                requires
                    0 <= d <= 400_000_000_000_000_000_000_000_000_000,
            ;
            assert(d * d == (v - mean) * (v - mean)) by (nonlinear_arith)
                requires
                    d == v - mean || d == mean - v,
            ;
            squares = squares.plus(Wide::product(d, d));
            let away: i128 = if v < median {
                median - v
            } else {
                v - median
            };
            deviation_values.push(away);
            i = i + 1;
        }
        let ghost devs = deviations(history, median as int);
        assert(deviation_values@ =~= devs);
        assert(all_between(devs, 0, 2 * SPREAD_LIMIT));
        proof {
            law_median_between(devs, 0, 2 * SPREAD_LIMIT);
        }
        self.rolling_median = median;
        self.rolling_mean = mean;
        self.rolling_std = root_of_part(squares, n as u128);
        self.rolling_mad = compute_median(&mut deviation_values);
        self.recent_min = low;
        self.recent_max = high;
    }

    /// Moves the median of the current bucket into the history.
    fn close_current_bucket(&mut self)
        requires
            old(self).wf(),
        ensures
            final(self).wf(),
            final(self)@ == old(self)@.bucket_closed(),
    {
        if self.current_bucket.values.len() == 0 {
            return ;
        }
        let ghost bucket = self.current_bucket.values@;
        proof {
            law_median_between(bucket, -SPREAD_LIMIT, SPREAD_LIMIT as int);
        }
        let bucket_val: i128 = compute_median(&mut self.current_bucket.values);
        self.historical_buckets.push_back(bucket_val);
        let max_buckets: u64 = self.config.stats_window_seconds / self.config.stats_bucket_seconds;
        if self.historical_buckets.len() as u64 > max_buckets {
            let ghost before = self.historical_buckets@;
            let _ = self.historical_buckets.pop_front();
            assert(self.historical_buckets@ =~= newest(before, max_buckets as int));
        }
        self.current_bucket.values.clear();
        assert(self@ == (StatsState {
            history: newest(
                old(self)@.history.push(median_of(bucket) as i128),
                window_buckets(old(self).config),
            ),
            bucket: seq![],
            ..old(self)@
        }));
        self.recompute_stats();
    }

    /// Observes a raw spread. The signal path sees it as it is; the statistics
    /// see it capped.
    pub fn update(&mut self, raw_spread: i128, timestamp_ms: u64)
        requires
            old(self).wf(),
            old(self).sample_count < usize::MAX,
            -SPREAD_LIMIT <= raw_spread <= SPREAD_LIMIT,
        ensures
            final(self).wf(),
            final(self)@ == old(self)@.updated(raw_spread as int, timestamp_ms as int),
    {
        let stats_value: i128 = self.capped_value(raw_spread);
        self.last_spread = raw_spread;
        self.last_observation_ts = timestamp_ms;
        self.recent_ticks.push_back((timestamp_ms, raw_spread));
        self.spread_velocity = self.velocity_at(raw_spread, timestamp_ms);
        let two_windows: u128 = 2 * self.config.velocity_window_ms as u128;
        let cutoff: u64 = if two_windows >= timestamp_ms as u128 {
            0
        } else {
            timestamp_ms - two_windows as u64
        };
        self.trim_ticks(cutoff);
        if self.current_bucket.timestamp == 0 {
            self.current_bucket.timestamp = timestamp_ms;
        }
        let bucket_end: u128 = self.current_bucket.timestamp as u128
            + self.config.stats_bucket_seconds as u128 * 1000;
        if timestamp_ms as u128 >= bucket_end {
            self.close_current_bucket();
            self.current_bucket.timestamp = timestamp_ms;
        }
        self.current_bucket.values.push(stats_value);
        self.sample_count = self.sample_count + 1;
    }

    /// Whether the warmup and the safety guards permit trading.
    pub fn can_trade(&self, current_time_ms: u64) -> (r: Result<(), RejectionReason>)
        requires
            self.wf(),
        ensures
            r == self@.permit(current_time_ms as int),
    {
        if self.sample_count < self.config.minimum_samples {
            return Err(RejectionReason::INSUFFICIENT_HISTORY);
        }
        let warm: u128 = self.startup_time_ms as u128 + self.config.warmup_seconds as u128 * 1000;
        if (current_time_ms as u128) < warm {
            return Err(RejectionReason::WARMUP);
        }
        if self.get_spread_volatility() < self.config.min_volatility_floor_pct as i128 {
            return Err(RejectionReason::INSUFFICIENT_LIQUIDITY);
        }
        Ok(())
    }

    /// The median plus `k` volatilities.
    fn level_at(&self, k: i64) -> (level: i128)
        requires
            self.wf(),
            -MULTIPLIER_LIMIT <= k <= MULTIPLIER_LIMIT,
        ensures
            level == self.rolling_median + (k * self@.volatility()) / (SCALE as int),
            -100_000_000_000_000_000_000_000_000_000_000_000_000 <= level
                <= 100_000_000_000_000_000_000_000_000_000_000_000_000,
    {
        let volatility: i128 = self.get_spread_volatility();
        let whole: i128 = volatility / 100_000_000;
        let rest: i128 = volatility % 100_000_000;
        proof {
            assert(-10_000_000_000_000_000 * 8_000_000_000_000_000_000_000 <= k * whole
                <= 10_000_000_000_000_000 * 8_000_000_000_000_000_000_000) by (nonlinear_arith)
                requires
                    -10_000_000_000_000_000 <= k <= 10_000_000_000_000_000,
                    0 <= whole <= 8_000_000_000_000_000_000_000,
            ;
            assert(-10_000_000_000_000_000 * 100_000_000 <= k * rest <= 10_000_000_000_000_000
                * 100_000_000) by (nonlinear_arith)
                requires
                    -10_000_000_000_000_000 <= k <= 10_000_000_000_000_000,
                    0 <= rest <= 100_000_000,
            ;
            assert(k * volatility == k * rest + (k * whole) * 100_000_000) by (nonlinear_arith)
                requires
                    volatility == whole * 100_000_000 + rest,
            ;
            vstd::arithmetic::div_mod::lemma_hoist_over_denominator(
                k * rest,
                k * whole,
                100_000_000,
            );
        }
        self.rolling_median + k as i128 * whole + floor_div(k as i128 * rest, SCALE as i128)
    }

    /// The dynamic entry threshold, where trading is permitted.
    pub fn get_entry_threshold(&self, current_time_ms: u64) -> (r: Option<i128>)
        requires
            self.wf(),
        ensures
            match r {
                Some(t) => self@.permit(current_time_ms as int) is Ok && t == self@.entry_level(),
                None => self@.permit(current_time_ms as int) is Err,
            },
            r is Some ==> -100_000_000_000_000_000_000_000_000_000_000_000_000 <= r->Some_0
                <= 100_000_000_000_000_000_000_000_000_000_000_000_000,
    {
        if self.can_trade(current_time_ms).is_err() {
            return None;
        }
        Some(
            max_i128(
                self.level_at(self.config.k_entry),
                self.config.minimum_entry_threshold_pct as i128,
            ),
        )
    }

    /// The dynamic exit threshold, where trading is permitted.
    pub fn get_exit_threshold(&self, current_time_ms: u64) -> (r: Option<i128>)
        requires
            self.wf(),
        ensures
            match r {
                Some(t) => self@.permit(current_time_ms as int) is Ok && t == self@.exit_level(),
                None => self@.permit(current_time_ms as int) is Err,
            },
    {
        if self.can_trade(current_time_ms).is_err() {
            return None;
        }
        Some(
            clamp_i128(
                self.level_at(self.config.k_exit),
                self.config.minimum_exit_threshold_pct as i128,
                self.config.maximum_exit_threshold_pct as i128,
            ),
        )
    }

    /// Whether `spread` lies too few robust deviations above the median.
    fn z_score_too_low(&self, spread: i128) -> (r: bool)
        requires
            self.wf(),
        ensures
            r == self@.z_score_low(spread as int),
    {
        let volatility: i128 = self.get_spread_volatility();
        if volatility > 0 {
            let floored: i128 = max_i128(volatility, self.config.min_volatility_floor_pct as i128);
            let z: i64 = self.config.minimum_entry_z_score;
            let lead = Wide::product(distance(spread, self.rolling_median), 100_000_000);
            let least = Wide::product(distance(z as i128, 0), floored as u128);
            proof {
                let gap = crate::fixed::abs_of(spread - self.rolling_median);
                lemma_sign_of_product(spread - self.rolling_median, gap, SCALE as int);
                lemma_sign_of_product(z as int, crate::fixed::abs_of(z as int), floored as int);
            }
            if spread < self.rolling_median {
                z >= 0 || least.less_than(lead)
            } else {
                z >= 0 && lead.less_than(least)
            }
        } else {
            0 < self.config.minimum_entry_z_score
        }
    }

    /// Whether the spread is an entry signal. When it is, the crossing time is
    /// set to now.
    pub fn evaluate_entry(&mut self, current_spread: i128, current_time_ms: u64) -> (r: Result<
        (),
        RejectionReason,
    >)
        requires
            old(self).wf(),
        ensures
            final(self).wf(),
            r == old(self)@.entry_signal(current_spread as int, current_time_ms as int),
            final(self)@ == if r is Ok {
                (StatsState { crossing_ts: current_time_ms as int, ..old(self)@ })
            } else {
                old(self)@
            },
    {
        match self.can_trade(current_time_ms) {
            Ok(()) => {},
            Err(e) => {
                return Err(e);
            },
        }
        let dynamic_entry: i128 = match self.get_entry_threshold(current_time_ms) {
            Some(t) => t,
            None => {
                return Err(RejectionReason::INSUFFICIENT_HISTORY);
            },
        };
        if current_spread <= dynamic_entry {
            return Err(RejectionReason::SPREAD_BELOW_DYNAMIC_THRESHOLD);
        }
        if self.z_score_too_low(current_spread) {
            return Err(RejectionReason::Z_SCORE_TOO_LOW);
        }
        if self.spread_velocity < -(self.config.collapse_rate_threshold_pct_per_sec as i128) {
            return Err(RejectionReason::SPREAD_COLLAPSING);
        }
        let signal_age_ms: u64 = if self.entry_threshold_crossing_ts > 0 && current_time_ms
            >= self.entry_threshold_crossing_ts {
            current_time_ms - self.entry_threshold_crossing_ts
        } else {
            0
        };
        if signal_age_ms > self.config.max_signal_age_ms {
            return Err(RejectionReason::SIGNAL_TOO_OLD);
        }
        if current_spread >= dynamic_entry + self.config.max_slippage_pct as i128 {
            return Err(RejectionReason::INVALID_ORDERBOOK);
        }
        self.entry_threshold_crossing_ts = current_time_ms;
        Ok(())
    }

    /// Whether an open position is to be closed.
    pub fn evaluate_exit(
        &self,
        current_spread: i128,
        current_time_ms: u64,
        open_time_ms: u64,
    ) -> (r: bool)
        requires
            self.wf(),
        ensures
            r == self@.exit_signal(
                current_spread as int,
                current_time_ms as int,
                open_time_ms as int,
            ),
    {
        let hold_ms: u64 = current_time_ms.saturating_sub(open_time_ms);
        if hold_ms > self.config.max_arbitrage_hold_time_ms {
            return true;
        }
        match self.get_exit_threshold(current_time_ms) {
            None => false,
            Some(dynamic_exit) => current_spread < self.config.minimum_exit_threshold_pct as i128
                || current_spread < dynamic_exit,
        }
    }
}

/// Statistics that have seen nothing.
pub open spec fn fresh_state(config: DynamicSpreadConfig, startup: int) -> StatsState {
    StatsState {
        median: 0,
        mean: 0,
        std: 0,
        mad: 0,
        min: 0,
        max: 0,
        samples: 0,
        last_spread: 0,
        last_ts: 0,
        crossing_ts: 0,
        velocity: 0,
        config,
        startup,
        bucket_start: 0,
        bucket: seq![],
        history: seq![],
        ticks: seq![],
    }
}

/// Winsorization: what enters the statistics never lies outside the cap around
/// the median, nor further from the median than the raw spread, and a spread
/// inside the cap enters as it is.
pub proof fn law_capped_within_cap(state: StatsState, raw: int)
    requires
        state.samples > 0,
        state.mad > 0,
        state.config.outlier_cap_multiplier >= 0,
    ensures
        ({
            let cap = (state.config.outlier_cap_multiplier * state.mad) / (SCALE as int);
            &&& cap >= 0
            &&& state.median - cap <= state.capped(raw) <= state.median + cap
            &&& crate::fixed::abs_of(state.capped(raw) - state.median) <= crate::fixed::abs_of(
                raw - state.median,
            )
            &&& state.median - cap <= raw <= state.median + cap ==> state.capped(raw) == raw
        }),
{
    let m = state.config.outlier_cap_multiplier;
    assert(m * state.mad >= 0) by (nonlinear_arith)
        requires
            m >= 0,
            state.mad > 0,
    ;
    lemma_quotient_fits(m * state.mad, SCALE as int);
}

/// An observation is counted once, is remembered raw for the signal path, and
/// enters the current bucket capped for the statistics path. The configuration
/// stays.
pub proof fn law_update_records(state: StatsState, raw: int, ts: int)
    ensures
        ({
            let next = state.updated(raw, ts);
            &&& next.samples == state.samples + 1
            &&& next.last_spread == raw
            &&& next.last_ts == ts
            &&& next.bucket.len() > 0
            &&& next.bucket.last() == state.capped(raw) as i128
            &&& next.config == state.config
            &&& next.startup == state.startup
            &&& next.crossing_ts == state.crossing_ts
        }),
{
}

/// Minimum, median and maximum are in order, both deviations are not negative, and
/// the values kept are spreads in range.
pub open spec fn ordered(state: StatsState) -> bool {
    &&& state.min <= state.median <= state.max
    &&& state.mad >= 0
    &&& state.std >= 0
    &&& -SPREAD_LIMIT <= state.median <= SPREAD_LIMIT
    &&& all_between(state.bucket, -SPREAD_LIMIT, SPREAD_LIMIT as int)
    &&& all_between(state.history, -SPREAD_LIMIT, SPREAD_LIMIT as int)
}

/// The statistics after observations, each a raw spread and its time.
pub open spec fn observed(state: StatsState, seen: Seq<(int, int)>) -> StatsState
    decreases seen.len(),
{
    if seen.len() == 0 {
        state
    } else {
        observed(state, seen.drop_last()).updated(seen.last().0, seen.last().1)
    }
}

/// Whether all observations are spreads in range.
pub open spec fn spreads_in_range(seen: Seq<(int, int)>) -> bool {
    forall|i: int| 0 <= i < seen.len() ==> -SPREAD_LIMIT <= (#[trigger] seen[i]).0 <= SPREAD_LIMIT
}

/// An observation keeps the statistics in order: the minimum is not above the median
/// nor that above the maximum, and no deviation is negative. Within a bucket they do
/// not change.
pub proof fn law_update_keeps_order(state: StatsState, raw: int, ts: int)
    requires
        state.config.stats_bucket_seconds > 0,
        state.config.outlier_cap_multiplier >= 0,
        ordered(state),
        -SPREAD_LIMIT <= raw <= SPREAD_LIMIT,
    ensures
        ({
            let next = state.updated(raw, ts);
            let start = if state.bucket_start == 0 {
                ts
            } else {
                state.bucket_start
            };
            &&& ordered(next)
            &&& next.min <= next.median <= next.max
            &&& next.mad >= 0
            &&& next.std >= 0
            &&& ts < start + state.config.stats_bucket_seconds * 1000 ==> {
                &&& next.median == state.median
                &&& next.mean == state.mean
                &&& next.std == state.std
                &&& next.mad == state.mad
                &&& next.min == state.min
                &&& next.max == state.max
            }
        }),
{
    let value = state.capped(raw);
    assert(-SPREAD_LIMIT <= value <= SPREAD_LIMIT) by {
        if state.samples > 0 && state.mad > 0 {
            law_capped_within_cap(state, raw);
        }
    }
    let bucket = state.bucket;
    if bucket.len() > 0 {
        law_median_between(bucket, -SPREAD_LIMIT, SPREAD_LIMIT as int);
        let m = median_of(bucket) as i128;
        let all = state.history.push(m);
        let history = newest(all, window_buckets(state.config));
        assert(all_between(history, -SPREAD_LIMIT, SPREAD_LIMIT as int));
        if history.len() > 0 {
            lemma_computed_in_order(history);
        }
    }
}

proof fn lemma_computed_in_order(s: Seq<i128>)
    requires
        s.len() > 0,
        all_between(s, -SPREAD_LIMIT, SPREAD_LIMIT as int),
    ensures
        -SPREAD_LIMIT <= median_of(s) <= SPREAD_LIMIT,
        lowest(s) <= median_of(s) <= highest(s),
        mad_of(s) >= 0,
        std_of(s) >= 0,
{
    lemma_extremes(s, -SPREAD_LIMIT, SPREAD_LIMIT as int);
    law_median_between(s, -SPREAD_LIMIT, SPREAD_LIMIT as int);
    law_median_between(s, lowest(s), highest(s));
    let devs = deviations(s, median_of(s));
    assert(all_between(devs, 0, 2 * SPREAD_LIMIT));
    law_median_between(devs, 0, 2 * SPREAD_LIMIT);
    lemma_mean_between(s, -SPREAD_LIMIT, SPREAD_LIMIT as int);
    let mean = mean_of(s);
    assert(all_between(s, mean - 2 * SPREAD_LIMIT, mean + 2 * SPREAD_LIMIT));
    lemma_squares_bounds(s, mean, 2 * SPREAD_LIMIT);
    let v = squares_about(s, mean) / (s.len() as int);
    lemma_quotient_fits(squares_about(s, mean), s.len() as int);
    lemma_root_exists(v);
}

/// Every natural number has an integer square root.
proof fn lemma_root_exists(v: int)
    requires
        v >= 0,
    ensures
        is_root(root_of(v), v),
    decreases v,
{
    if v == 0 {
        assert(is_root(0, 0));
    } else {
        lemma_root_exists(v - 1);
        let r = root_of(v - 1);
        if v < (r + 1) * (r + 1) {
            assert(is_root(r, v));
        } else {
            assert((r + 1) * (r + 1) < (r + 2) * (r + 2)) by (nonlinear_arith)
                requires
                    r >= 0,
            ;
            assert(is_root(r + 1, v));
        }
    }
}

/// Whatever was observed, the statistics are in order: the minimum is not above the
/// median nor that above the maximum, and no deviation is negative.
pub proof fn law_statistics_are_ordered(
    config: DynamicSpreadConfig,
    startup: int,
    seen: Seq<(int, int)>,
)
    requires
        config.stats_bucket_seconds > 0,
        config.outlier_cap_multiplier >= 0,
        spreads_in_range(seen),
    ensures
        ordered(observed(fresh_state(config, startup), seen)),
        observed(fresh_state(config, startup), seen).config == config,
        observed(fresh_state(config, startup), seen).samples == seen.len(),
    decreases seen.len(),
{
    if seen.len() > 0 {
        let before = seen.drop_last();
        assert(spreads_in_range(before)) by {
            assert forall|i: int| 0 <= i < before.len() implies -SPREAD_LIMIT <= (
            #[trigger] before[i]).0 <= SPREAD_LIMIT by {
                assert(before[i] == seen[i]);
            }
        }
        law_statistics_are_ordered(config, startup, before);
        let state = observed(fresh_state(config, startup), before);
        let last = seen.last();
        assert(last == seen[seen.len() - 1]);
        law_update_keeps_order(state, last.0, last.1);
        law_update_records(state, last.0, last.1);
    }
}

/// Whether two states agree in all that the statistics path knows.
pub open spec fn same_statistics(a: StatsState, b: StatsState) -> bool {
    &&& a.median == b.median
    &&& a.mean == b.mean
    &&& a.std == b.std
    &&& a.mad == b.mad
    &&& a.min == b.min
    &&& a.max == b.max
    &&& a.samples == b.samples
    &&& a.config == b.config
    &&& a.bucket_start == b.bucket_start
    &&& a.bucket == b.bucket
    &&& a.history == b.history
}

/// Outliers enter the statistics only as the cap: two spreads beyond it on the same
/// side leave the same statistics behind, whatever is observed afterwards, while the
/// signal path sees each as it is.
pub proof fn law_outliers_enter_as_cap(
    state: StatsState,
    x: int,
    y: int,
    ts: int,
    seen: Seq<(int, int)>,
)
    requires
        state.samples > 0,
        state.mad > 0,
        state.config.outlier_cap_multiplier >= 0,
        ({
            let cap = (state.config.outlier_cap_multiplier * state.mad) / (SCALE as int);
            ||| x >= state.median + cap && y >= state.median + cap
            ||| x <= state.median - cap && y <= state.median - cap
        }),
    ensures
        same_statistics(
            observed(state.updated(x, ts), seen),
            observed(state.updated(y, ts), seen),
        ),
        state.updated(x, ts).last_spread == x,
        state.updated(y, ts).last_spread == y,
    decreases seen.len(),
{
    law_capped_within_cap(state, x);
    law_capped_within_cap(state, y);
    assert(state.capped(x) == state.capped(y));
    if seen.len() > 0 {
        law_outliers_enter_as_cap(state, x, y, ts, seen.drop_last());
    }
}

/// Statistics that have seen nothing permit no trade.
pub proof fn law_restart_blocks_trading(config: DynamicSpreadConfig, startup: int, now: int)
    requires
        config.minimum_samples > 0,
    ensures
        fresh_state(config, startup).permit(now) == Err::<(), RejectionReason>(
            RejectionReason::INSUFFICIENT_HISTORY,
        ),
{
}

/// The entry threshold is never below the exit threshold where the entry
/// multiplier is the larger one and the minimum entry threshold is not below
/// the minimum exit threshold.
pub proof fn law_entry_above_exit(state: StatsState)
    requires
        state.mad >= 0,
        state.config.k_exit < state.config.k_entry,
        state.config.minimum_exit_threshold_pct <= state.config.minimum_entry_threshold_pct,
    ensures
        state.exit_level() <= state.entry_level(),
{
    let vol = state.volatility();
    lemma_quotient_fits(14826 * state.mad, 10000);
    let k_exit = state.config.k_exit;
    let k_entry = state.config.k_entry;
    assert(k_exit * vol <= k_entry * vol) by (nonlinear_arith)
        requires
            k_exit < k_entry,
            vol >= 0,
    ;
    vstd::arithmetic::div_mod::lemma_div_is_ordered(k_exit * vol, k_entry * vol, SCALE as int);
}

/// Hysteresis: a spread that opens a position does not close it, unless it has
/// been held too long; and between the two thresholds nothing happens.
pub proof fn law_hysteresis(state: StatsState, spread: int, now: int, open_time: int)
    requires
        state.mad >= 0,
        state.config.k_exit < state.config.k_entry,
        state.config.minimum_exit_threshold_pct <= state.config.maximum_exit_threshold_pct,
        state.config.minimum_exit_threshold_pct <= state.config.minimum_entry_threshold_pct,
        less(now, open_time) <= state.config.max_arbitrage_hold_time_ms,
    ensures
        state.entry_signal(spread, now) is Ok ==> !state.exit_signal(spread, now, open_time),
        state.exit_level() <= spread <= state.entry_level() ==> {
            &&& state.entry_signal(spread, now) is Err
            &&& !state.exit_signal(spread, now, open_time)
        },
{
    law_entry_above_exit(state);
}

/// A position held longer than the maximum is closed whatever the spread.
pub proof fn law_overdue_position_closes(
    state: StatsState,
    spread: int,
    now: int,
    open_time: int,
)
    requires
        now - open_time > state.config.max_arbitrage_hold_time_ms,
    ensures
        state.exit_signal(spread, now, open_time),
{
}

/// A spread that opens a position exceeds the minimum entry threshold, is not
/// collapsing, and lies within the slippage allowance of the threshold.
pub proof fn law_entry_conditions(state: StatsState, spread: int, now: int)
    ensures
        state.entry_signal(spread, now) is Ok ==> {
            &&& state.samples >= state.config.minimum_samples
            &&& now >= state.startup + state.config.warmup_seconds * 1000
            &&& spread > state.config.minimum_entry_threshold_pct
            &&& state.velocity >= -state.config.collapse_rate_threshold_pct_per_sec
            &&& spread < state.entry_level() + state.config.max_slippage_pct
            &&& state.signal_age(now) <= state.config.max_signal_age_ms
        },
{
}

} // verus!
