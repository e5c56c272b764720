//! What a quantity costs that is taken from an order book level by level.
use super::amounts::{is_percentage, is_quotient, law_percentage, lemma_quotient};
use crate::stats::{
    depth, effective_spread, fill_cost, slips_too_far, taken_at, vwap, walk_from, OrderBookLevel,
    VwapError,
};
use vstd::prelude::*;

verus! {

/// Quantities added up.
pub open spec fn total(q: Seq<int>) -> int
    decreases q.len(),
{
    if q.len() == 0 {
        0
    } else {
        total(q.drop_last()) + q.last()
    }
}

/// What quantities cost, each at the price of its level.
pub open spec fn worth(q: Seq<int>, levels: Seq<OrderBookLevel>) -> int
    decreases q.len(),
{
    if q.len() == 0 {
        0
    } else {
        worth(q.drop_last(), levels) + q.last() * levels[q.len() - 1].price
    }
}

/// What the first levels offer.
pub open spec fn offers(levels: Seq<OrderBookLevel>, n: int) -> Seq<int> {
    Seq::new(n as nat, |i: int| levels[i].qty as int)
}

/// Whether a level is no more than a percentage worse than the best: dearer where coins
/// are bought, cheaper where they are sold.
pub open spec fn near_best(
    levels: Seq<OrderBookLevel>,
    i: int,
    max_slippage_pct: int,
    is_buy: bool,
) -> bool {
    let best = levels[0].price as int;
    let here = levels[i].price as int;
    &&& is_buy ==> here * 10_000_000_000 <= best * (10_000_000_000 + max_slippage_pct)
    &&& !is_buy ==> here * 10_000_000_000 >= best * (10_000_000_000 - max_slippage_pct)
}

proof fn lemma_near(levels: Seq<OrderBookLevel>, i: int, slip: int, is_buy: bool)
    ensures
        slips_too_far(levels, i, slip, is_buy) <==> !near_best(levels, i, slip, is_buy),
{
    let best = levels[0].price as int;
    let here = levels[i].price as int;
    assert(best * (10_000_000_000 + slip) == best * 10_000_000_000 + slip * best)
        by (nonlinear_arith);
    assert(best * (10_000_000_000 - slip) == best * 10_000_000_000 - slip * best)
        by (nonlinear_arith);
}

proof fn lemma_offers(levels: Seq<OrderBookLevel>, n: int, target: int)
    requires
        0 <= n <= levels.len(),
        depth(levels, n) < target,
    ensures
        total(offers(levels, n)) == depth(levels, n),
        worth(offers(levels, n), levels) == fill_cost(levels, n, target),
        0 <= depth(levels, n),
    decreases n,
{
    if n > 0 {
        lemma_depth_grows(levels, n - 1, n);
        lemma_offers(levels, n - 1, target);
        assert(offers(levels, n).drop_last() =~= offers(levels, n - 1));
        assert(taken_at(levels, n - 1, target) == levels[n - 1].qty);
    }
}

proof fn lemma_total_offers(levels: Seq<OrderBookLevel>, n: int)
    requires
        0 <= n <= levels.len(),
    ensures
        total(offers(levels, n)) == depth(levels, n),
    decreases n,
{
    if n > 0 {
        lemma_total_offers(levels, n - 1);
        assert(offers(levels, n).drop_last() =~= offers(levels, n - 1));
    }
}

proof fn lemma_depth_grows(levels: Seq<OrderBookLevel>, m: int, n: int)
    requires
        0 <= m <= n <= levels.len(),
    ensures
        depth(levels, m) <= depth(levels, n),
    decreases n - m,
{
    if m < n {
        lemma_depth_grows(levels, m, n - 1);
    }
}

/// Where the walk ends that finds what it looks for.
proof fn lemma_end(
    levels: Seq<OrderBookLevel>,
    i: int,
    target: int,
    max_depth_levels: int,
    slip: int,
    is_buy: bool,
) -> (n: int)
    requires
        0 <= i,
        i < levels.len() ==> depth(levels, i) < target,
        walk_from(levels, i, target, max_depth_levels, slip, is_buy) is Ok,
    ensures
        i < n <= levels.len(),
        n <= max_depth_levels,
        depth(levels, n - 1) < target <= depth(levels, n),
        forall|k: int| i <= k < n ==> #[trigger] near_best(levels, k, slip, is_buy),
        walk_from(levels, i, target, max_depth_levels, slip, is_buy) == Ok::<int, VwapError>(
            fill_cost(levels, n, target) / target,
        ),
    decreases levels.len() - i,
{
    lemma_near(levels, i, slip, is_buy);
    if depth(levels, i + 1) >= target {
        i + 1
    } else {
        lemma_end(levels, i + 1, target, max_depth_levels, slip, is_buy)
    }
}

/// A quantity is taken from the best level down: all of each level but the last, of
/// which only what is missing, from no more levels than are allowed and from none that
/// is too much worse than the best. The average price is what all of it costs, divided
/// by the quantity and rounded down.
pub proof fn law_average_price(
    levels: Seq<OrderBookLevel>,
    target: int,
    max_depth_levels: int,
    max_slippage_pct: int,
    is_buy: bool,
) -> (q: Seq<int>)
    requires
        vwap(levels, target, max_depth_levels, max_slippage_pct, is_buy) is Ok,
    ensures
        0 < q.len() <= levels.len(),
        q.len() <= max_depth_levels,
        forall|i: int| 0 <= i < q.len() - 1 ==> #[trigger] q[i] == levels[i].qty,
        0 < q.last() <= levels[q.len() - 1].qty,
        total(q) == target,
        is_quotient(
            vwap(levels, target, max_depth_levels, max_slippage_pct, is_buy)->Ok_0,
            worth(q, levels),
            target,
        ),
        forall|i: int|
            0 <= i < q.len() ==> #[trigger] near_best(levels, i, max_slippage_pct, is_buy),
{
    let n = lemma_end(levels, 0, target, max_depth_levels, max_slippage_pct, is_buy);
    lemma_offers(levels, n - 1, target);
    let rest = target - depth(levels, n - 1);
    let q = offers(levels, n - 1).push(rest);
    assert(q.drop_last() =~= offers(levels, n - 1));
    assert(taken_at(levels, n - 1, target) == rest);
    lemma_quotient(fill_cost(levels, n, target), target);
    q
}

proof fn lemma_reaches(
    levels: Seq<OrderBookLevel>,
    i: int,
    n: int,
    target: int,
    max_depth_levels: int,
    slip: int,
    is_buy: bool,
)
    requires
        0 <= i < n <= levels.len(),
        n <= max_depth_levels,
        depth(levels, n - 1) < target <= depth(levels, n),
        forall|k: int| i <= k < n ==> #[trigger] near_best(levels, k, slip, is_buy),
    ensures
        walk_from(levels, i, target, max_depth_levels, slip, is_buy) is Ok,
    decreases n - i,
{
    lemma_near(levels, i, slip, is_buy);
    assert(near_best(levels, i, slip, is_buy));
    if i + 1 < n {
        lemma_depth_grows(levels, i + 1, n - 1);
        lemma_reaches(levels, i + 1, n, target, max_depth_levels, slip, is_buy);
    }
}

/// A quantity has an average price where the levels that are needed for it are allowed
/// and near enough to the best.
pub proof fn law_quantity_is_found(
    levels: Seq<OrderBookLevel>,
    n: int,
    target: int,
    max_depth_levels: int,
    max_slippage_pct: int,
    is_buy: bool,
)
    requires
        0 < n <= levels.len(),
        n <= max_depth_levels,
        0 < target,
        total(offers(levels, n - 1)) < target <= total(offers(levels, n)),
        forall|k: int| 0 <= k < n ==> #[trigger] near_best(levels, k, max_slippage_pct, is_buy),
    ensures
        vwap(levels, target, max_depth_levels, max_slippage_pct, is_buy) is Ok,
{
    lemma_total_offers(levels, n);
    lemma_total_offers(levels, n - 1);
    lemma_reaches(levels, 0, n, target, max_depth_levels, max_slippage_pct, is_buy);
}

proof fn lemma_refused(
    levels: Seq<OrderBookLevel>,
    i: int,
    n: int,
    target: int,
    max_depth_levels: int,
    slip: int,
    is_buy: bool,
)
    requires
        0 <= i <= n <= levels.len(),
        n <= max_depth_levels,
        depth(levels, n) < target,
        forall|k: int| i <= k < n ==> #[trigger] near_best(levels, k, slip, is_buy),
    ensures
        walk_from(levels, i, target, max_depth_levels, slip, is_buy) == walk_from(
            levels,
            n,
            target,
            max_depth_levels,
            slip,
            is_buy,
        ),
    decreases n - i,
{
    if i < n {
        lemma_near(levels, i, slip, is_buy);
        assert(near_best(levels, i, slip, is_buy));
        lemma_depth_grows(levels, i + 1, n);
        lemma_refused(levels, i + 1, n, target, max_depth_levels, slip, is_buy);
    }
}

/// Why a quantity has no average price, `n` levels being used up: the book ends there,
/// no further level is allowed, or the next one is too much worse than the best.
pub proof fn law_quantity_is_refused(
    levels: Seq<OrderBookLevel>,
    n: int,
    target: int,
    max_depth_levels: int,
    max_slippage_pct: int,
    is_buy: bool,
)
    requires
        0 <= n <= levels.len(),
        n <= max_depth_levels,
        0 < target,
        total(offers(levels, n)) < target,
        forall|k: int| 0 <= k < n ==> #[trigger] near_best(levels, k, max_slippage_pct, is_buy),
    ensures
        n == levels.len() ==> vwap(levels, target, max_depth_levels, max_slippage_pct, is_buy)
            == Err::<int, VwapError>(VwapError::InsufficientDepth),
        n < levels.len() && n == max_depth_levels ==> vwap(
            levels,
            target,
            max_depth_levels,
            max_slippage_pct,
            is_buy,
        ) == Err::<int, VwapError>(VwapError::MaxDepthExceeded),
        n < levels.len() && n < max_depth_levels && !near_best(levels, n, max_slippage_pct, is_buy)
            ==> vwap(levels, target, max_depth_levels, max_slippage_pct, is_buy) == Err::<
            int,
            VwapError,
        >(VwapError::MaxSlippageExceeded),
        vwap(levels, 0, max_depth_levels, max_slippage_pct, is_buy) == Err::<int, VwapError>(
            VwapError::InsufficientDepth,
        ),
{
    lemma_total_offers(levels, n);
    lemma_refused(levels, 0, n, target, max_depth_levels, max_slippage_pct, is_buy);
    lemma_near(levels, n, max_slippage_pct, is_buy);
}

/// The effective spread lies between the price at which a quantity is bought and that
/// at which the same quantity is sold: it is there where both are, and is the percentage
/// by which the second is above the first.
pub proof fn law_effective_spread(
    asks: Seq<OrderBookLevel>,
    bids: Seq<OrderBookLevel>,
    target: int,
    max_depth_levels: int,
    max_slippage_pct: int,
)
    ensures
        ({
            let s = effective_spread(asks, bids, target, max_depth_levels, max_slippage_pct);
            let bought = vwap(asks, target, max_depth_levels, max_slippage_pct, true);
            let sold = vwap(bids, target, max_depth_levels, max_slippage_pct, false);
            &&& s is Ok <==> bought is Ok && sold is Ok
            &&& s is Ok && bought->Ok_0 > 0 ==> is_percentage(s->Ok_0, bought->Ok_0, sold->Ok_0)
            &&& bought is Err ==> s->Err_0 == bought->Err_0
            &&& bought is Ok && sold is Err ==> s->Err_0 == sold->Err_0
        }),
{
    let bought = vwap(asks, target, max_depth_levels, max_slippage_pct, true);
    let sold = vwap(bids, target, max_depth_levels, max_slippage_pct, false);
    if bought is Ok && sold is Ok && bought->Ok_0 > 0 {
        law_percentage(bought->Ok_0, sold->Ok_0, sold->Ok_0);
    }
}

} // verus!
