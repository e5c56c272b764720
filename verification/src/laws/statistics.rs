//! The rolling statistics of a spread: the window, the values in it, and the signals
//! that follow.
use super::amounts::{is_quotient, lemma_quotient};
use crate::config::DynamicSpreadConfig;
use crate::rejection::RejectionReason;
use crate::stats::{
    deviations, fresh_state, highest, lowest, mad_of, mean_of, median_of, nearest_tick,
    observed, since, squares_about, std_of, sum_of, StatsState,
};
use vstd::prelude::*;

verus! {

/// The buckets that a window holds.
pub open spec fn window(config: DynamicSpreadConfig) -> int {
    config.stats_window_seconds as int / config.stats_bucket_seconds as int
}

/// A closed bucket goes to the end of the history as its median. What stood there moves
/// up, and the oldest value leaves once the window is full.
pub proof fn law_bucket_goes_to_the_end(state: StatsState)
    requires
        state.config.stats_bucket_seconds > 0,
        window(state.config) >= 1,
        state.bucket.len() > 0,
        state.history.len() <= window(state.config),
    ensures
        ({
            let old = state.history;
            let new = state.bucket_closed().history;
            let kept = new.len() - 1;
            &&& state.bucket_closed().bucket.len() == 0
            &&& new.last() == median_of(state.bucket) as i128
            &&& old.len() < window(state.config) ==> new.len() == old.len() + 1
            &&& old.len() == window(state.config) ==> new.len() == old.len()
            &&& forall|i: int|
                0 <= i < kept ==> #[trigger] new[i] == old[old.len() - kept + i]
        }),
{
}

/// Whether an observation at a time closes the current bucket.
pub open spec fn closes_bucket(state: StatsState, ts: int) -> bool {
    &&& state.bucket.len() > 0
    &&& state.bucket_start != 0
    &&& ts >= state.bucket_start + state.config.stats_bucket_seconds * 1000
}

/// An observation goes into the current bucket, or, where its time is over, into a new
/// one. Only the close of a bucket changes the statistics, and then they are those of
/// the history.
pub proof fn law_observation_goes_into_a_bucket(state: StatsState, raw: int, ts: int)
    requires
        state.config.stats_bucket_seconds > 0,
        ts > 0,
        state.bucket_start == 0 ==> state.bucket.len() == 0,
    ensures
        ({
            let next = state.updated(raw, ts);
            let value = state.capped(raw) as i128;
            &&& !closes_bucket(state, ts) ==> {
                &&& next.history == state.history
                &&& next.bucket == state.bucket.push(value)
                &&& next.median == state.median
                &&& next.mean == state.mean
                &&& next.std == state.std
                &&& next.mad == state.mad
                &&& next.min == state.min
                &&& next.max == state.max
            }
            &&& closes_bucket(state, ts) ==> {
                &&& next.history == state.bucket_closed().history
                &&& next.bucket == seq![value]
                &&& next.bucket_start == ts
                &&& next.history.len() > 0 ==> {
                    &&& next.median == median_of(next.history)
                    &&& next.mean == mean_of(next.history)
                    &&& next.std == std_of(next.history)
                    &&& next.mad == mad_of(next.history)
                    &&& next.min == lowest(next.history)
                    &&& next.max == highest(next.history)
                }
            }
            &&& state.bucket_start == 0 ==> next.bucket_start == ts
            &&& next.config == state.config
        }),
{
    let value = state.capped(raw) as i128;
    if closes_bucket(state, ts) {
        assert(state.updated(raw, ts).bucket =~= seq![value]);
    } else {
        assert(state.updated(raw, ts).bucket =~= state.bucket.push(value));
    }
}

/// The medians of all buckets that were closed by observations, in their order.
pub open spec fn closed_medians(state: StatsState, seen: Seq<(int, int)>) -> Seq<i128>
    decreases seen.len(),
{
    if seen.len() == 0 {
        Seq::<i128>::empty()
    } else {
        let before = observed(state, seen.drop_last());
        let earlier = closed_medians(state, seen.drop_last());
        if closes_bucket(before, seen.last().1) {
            earlier.push(median_of(before.bucket) as i128)
        } else {
            earlier
        }
    }
}

/// The window slides: whatever was observed, the history holds the medians of the last
/// buckets that were closed, as many as the window has room for, and no older ones.
pub proof fn law_history_is_the_latest(
    config: DynamicSpreadConfig,
    startup: int,
    seen: Seq<(int, int)>,
)
    requires
        config.stats_bucket_seconds > 0,
        window(config) >= 1,
        forall|i: int| 0 <= i < seen.len() ==> (#[trigger] seen[i]).1 > 0,
    ensures
        ({
            let fresh = fresh_state(config, startup);
            let all = closed_medians(fresh, seen);
            let history = observed(fresh, seen).history;
            &&& history.len() == if all.len() <= window(config) {
                all.len() as int
            } else {
                window(config)
            }
            &&& forall|i: int|
                0 <= i < history.len() ==> #[trigger] history[i] == all[all.len() - history.len()
                    + i]
        }),
    decreases seen.len(),
{
    lemma_history(config, startup, seen);
}

proof fn lemma_history(config: DynamicSpreadConfig, startup: int, seen: Seq<(int, int)>)
    requires
        config.stats_bucket_seconds > 0,
        window(config) >= 1,
        forall|i: int| 0 <= i < seen.len() ==> (#[trigger] seen[i]).1 > 0,
    ensures
        ({
            let fresh = fresh_state(config, startup);
            let all = closed_medians(fresh, seen);
            let state = observed(fresh, seen);
            let history = state.history;
            &&& state.config == config
            &&& state.bucket_start == 0 ==> state.bucket.len() == 0
            &&& state.bucket_start >= 0
            &&& history.len() == if all.len() <= window(config) {
                all.len() as int
            } else {
                window(config)
            }
            &&& forall|i: int|
                0 <= i < history.len() ==> #[trigger] history[i] == all[all.len() - history.len()
                    + i]
        }),
    decreases seen.len(),
{
    if seen.len() > 0 {
        let fresh = fresh_state(config, startup);
        let rest = seen.drop_last();
        assert forall|i: int| 0 <= i < rest.len() implies (#[trigger] rest[i]).1 > 0 by {
            assert(rest[i] == seen[i]);
        }
        lemma_history(config, startup, rest);
        let before = observed(fresh, rest);
        let last = seen.last();
        assert(last == seen[seen.len() - 1]);
        law_observation_goes_into_a_bucket(before, last.0, last.1);
        if closes_bucket(before, last.1) {
            law_bucket_goes_to_the_end(before);
        }
    }
}

/// Once as many buckets were closed as the window holds, nothing of what was observed
/// before is left: two pasts that lead to the same later buckets leave the same history.
pub proof fn law_window_forgets(
    config: DynamicSpreadConfig,
    startup: int,
    a: Seq<(int, int)>,
    b: Seq<(int, int)>,
)
    requires
        config.stats_bucket_seconds > 0,
        window(config) >= 1,
        forall|i: int| 0 <= i < a.len() ==> (#[trigger] a[i]).1 > 0,
        forall|i: int| 0 <= i < b.len() ==> (#[trigger] b[i]).1 > 0,
        ({
            let x = closed_medians(fresh_state(config, startup), a);
            let y = closed_medians(fresh_state(config, startup), b);
            let w = window(config);
            &&& x.len() >= w
            &&& y.len() >= w
            &&& x.subrange(x.len() - w, x.len() as int) == y.subrange(y.len() - w, y.len() as int)
        }),
    ensures
        observed(fresh_state(config, startup), a).history == observed(
            fresh_state(config, startup),
            b,
        ).history,
{
    law_history_is_the_latest(config, startup, a);
    law_history_is_the_latest(config, startup, b);
    let x = closed_medians(fresh_state(config, startup), a);
    let y = closed_medians(fresh_state(config, startup), b);
    let w = window(config);
    let p = observed(fresh_state(config, startup), a).history;
    let q = observed(fresh_state(config, startup), b).history;
    assert forall|i: int| 0 <= i < w implies p[i] == q[i] by {
        assert(p[i] == x.subrange(x.len() - w, x.len() as int)[i]);
        assert(q[i] == y.subrange(y.len() - w, y.len() as int)[i]);
    }
    assert(p =~= q);
}

/// Whether a sequence goes up.
pub open spec fn goes_up(t: Seq<i128>) -> bool {
    forall|i: int, j: int| 0 <= i <= j < t.len() ==> #[trigger] t[i] <= #[trigger] t[j]
}

/// The median has as many values on either side: with the values in order, those of the
/// lower half are not above it and those of the upper half not below. Between two middle
/// values it lies half way, rounded down.
pub proof fn law_median_halves(s: Seq<i128>, t: Seq<i128>)
    requires
        s.len() > 0,
        t.to_multiset() == s.to_multiset(),
        goes_up(t),
    ensures
        t.len() == s.len(),
        forall|i: int| 0 <= i && 2 * i < t.len() ==> #[trigger] t[i] <= median_of(s) || 2 * i
            == t.len() - 1,
        forall|i: int| i < t.len() <= 2 * i ==> median_of(s) <= #[trigger] t[i],
        s.len() % 2 == 1 ==> median_of(s) == t[(s.len() / 2) as int],
        s.len() % 2 == 0 ==> is_quotient(
            median_of(s),
            t[s.len() / 2 - 1] + t[(s.len() / 2) as int],
            2,
        ),
{
    broadcast use vstd::seq_lib::group_to_multiset_ensures;

    let up = crate::stats::upward();
    let u = crate::stats::ascending(s);
    assert(vstd::relations::total_ordering(up));
    s.lemma_sort_by_ensures(up);
    vstd::seq_lib::lemma_sorted_unique(t, u, up);
    t.to_multiset_ensures();
    s.to_multiset_ensures();
    let mid = (s.len() / 2) as int;
    if s.len() % 2 == 0 {
        lemma_quotient((t[mid - 1] + t[mid]) as int, 2);
    }
}

/// The mean times the number of values is their sum, rounded down; the sum adds up the
/// values.
pub proof fn law_mean(s: Seq<i128>, v: i128)
    ensures
        sum_of(Seq::<i128>::empty()) == 0,
        sum_of(s.push(v)) == sum_of(s) + v,
        s.len() > 0 ==> is_quotient(mean_of(s), sum_of(s), s.len() as int),
{
    assert(s.push(v).drop_last() =~= s);
    if s.len() > 0 {
        lemma_quotient(sum_of(s), s.len() as int);
    }
}

/// The standard deviation is the root of the mean squared distance from the mean,
/// rounded down.
pub proof fn law_standard_deviation(s: Seq<i128>, v: i128, center: int)
    ensures
        squares_about(Seq::<i128>::empty(), center) == 0,
        squares_about(s.push(v), center) == squares_about(s, center) + (v - center) * (v - center),
        s.len() > 0 ==> {
            let n = s.len() as int;
            let q = squares_about(s, mean_of(s));
            let r = std_of(s);
            &&& r >= 0
            &&& (r * r) * n <= q
            &&& q < ((r + 1) * (r + 1)) * n
        },
    decreases s.len(),
{
    assert(s.push(v).drop_last() =~= s);
    if s.len() > 0 {
        let n = s.len() as int;
        let q = squares_about(s, mean_of(s));
        lemma_squares_not_negative(s, mean_of(s));
        lemma_quotient(q, n);
        crate::fixed::lemma_quotient_fits(q, n);
        lemma_root(q / n);
        let r = std_of(s);
        let m = q / n;
        assert((r * r) * n <= q && q < ((r + 1) * (r + 1)) * n) by (nonlinear_arith)
            requires
                n > 0,
                r * r <= m,
                m < (r + 1) * (r + 1),
                m * n <= q,
                q < (m + 1) * n,
        ;
    }
}

proof fn lemma_squares_not_negative(s: Seq<i128>, center: int)
    ensures
        squares_about(s, center) >= 0,
    decreases s.len(),
{
    if s.len() > 0 {
        lemma_squares_not_negative(s.drop_last(), center);
        let d = s.last() - center;
        assert(d * d >= 0) by (nonlinear_arith);
    }
}

proof fn lemma_root(v: int)
    requires
        v >= 0,
    ensures
        ({
            let r = crate::stats::root_of(v);
            r >= 0 && r * r <= v && v < (r + 1) * (r + 1)
        }),
    decreases v,
{
    if v == 0 {
        assert(crate::stats::is_root(0, 0));
    } else {
        lemma_root(v - 1);
        let r = crate::stats::root_of(v - 1);
        if v < (r + 1) * (r + 1) {
            assert(crate::stats::is_root(r, v));
        } else {
            assert((r + 1) * (r + 1) < (r + 2) * (r + 2)) by (nonlinear_arith)
                requires
                    r >= 0,
            ;
            assert(crate::stats::is_root(r + 1, v));
        }
    }
}

/// The smallest and the largest value are among the values, and bound them all.
pub proof fn law_extremes(s: Seq<i128>)
    requires
        s.len() > 0,
    ensures
        forall|i: int| 0 <= i < s.len() ==> lowest(s) <= #[trigger] s[i] <= highest(s),
        exists|i: int| 0 <= i < s.len() && #[trigger] s[i] == lowest(s),
        exists|i: int| 0 <= i < s.len() && #[trigger] s[i] == highest(s),
    decreases s.len(),
{
    let last = s.len() - 1;
    assert(s[last] == s.last());
    if s.len() > 1 {
        let t = s.drop_last();
        law_extremes(t);
        let a = choose|i: int| 0 <= i < t.len() && #[trigger] t[i] == lowest(t);
        let b = choose|i: int| 0 <= i < t.len() && #[trigger] t[i] == highest(t);
        assert(s[a] == t[a] && s[b] == t[b]);
        assert forall|i: int| 0 <= i < s.len() implies lowest(s) <= #[trigger] s[i]
            <= highest(s) by {
            if i < last {
                assert(s[i] == t[i]);
            }
        }
    }
}

/// The median absolute deviation is the median of how far the values lie from their
/// median.
pub proof fn law_median_deviation(s: Seq<i128>, d: Seq<i128>, reach: int)
    requires
        s.len() > 0,
        reach <= i128::MAX,
        d.len() == s.len(),
        forall|i: int|
            0 <= i < s.len() ==> {
                &&& #[trigger] d[i] >= 0
                &&& d[i] == s[i] - median_of(s) || d[i] == median_of(s) - s[i]
                &&& d[i] <= reach
            },
    ensures
        mad_of(s) == median_of(d),
{
    assert(deviations(s, median_of(s)) =~= d);
}

/// The volatility is 1.4826 times the median absolute deviation, rounded down.
pub proof fn law_volatility(state: StatsState)
    ensures
        is_quotient(state.volatility(), 14826 * state.mad, 10000),
{
    lemma_quotient(14826 * state.mad, 10000);
}

/// Winsorization: a spread further from the median than the cap enters as the median
/// with the cap added or taken away, any other as it is. The cap is a multiple of the
/// median absolute deviation. Before there are statistics every spread enters as it is.
pub proof fn law_outliers_are_brought_to_the_cap(state: StatsState, raw: int, cap: int)
    requires
        state.config.outlier_cap_multiplier >= 0,
        state.mad >= 0,
        is_quotient(cap, state.config.outlier_cap_multiplier * state.mad, 100_000_000),
    ensures
        state.samples <= 0 || state.mad == 0 ==> state.capped(raw) == raw,
        state.samples > 0 && state.mad > 0 ==> {
            &&& raw - state.median > cap ==> state.capped(raw) - state.median == cap
            &&& state.median - raw > cap ==> state.median - state.capped(raw) == cap
            &&& raw - state.median <= cap && state.median - raw <= cap ==> state.capped(raw) == raw
        },
{
    let m = state.config.outlier_cap_multiplier * state.mad;
    lemma_quotient(m, 100_000_000);
    super::amounts::lemma_quotient_unique(cap, m / 100_000_000, m, 100_000_000);
    assert(m >= 0) by (nonlinear_arith)
        requires
            m == state.config.outlier_cap_multiplier * state.mad,
            state.config.outlier_cap_multiplier >= 0,
            state.mad >= 0,
    ;
}

/// The signal path sees every spread as it is, with its time: it is the last spread and
/// the newest tick. Ticks older than two velocity windows are dropped from the front,
/// and no others.
pub proof fn law_ticks_are_kept(state: StatsState, raw: i128, ts: u64)
    ensures
        ({
            let next = state.updated(raw as int, ts as int);
            let all = state.ticks.push((ts, raw));
            let cutoff = ts - 2 * state.config.velocity_window_ms;
            let gone = all.len() - next.ticks.len();
            &&& next.last_spread == raw
            &&& next.last_ts == ts
            &&& next.ticks.len() > 0
            &&& next.ticks.last() == (ts, raw)
            &&& 0 <= gone
            &&& next.ticks == all.subrange(gone as int, all.len() as int)
            &&& forall|i: int| 0 <= i < gone ==> (#[trigger] all[i]).0 < cutoff
            &&& next.ticks[0].0 >= cutoff
        }),
{
    let all = state.ticks.push((ts, raw));
    let cut = crate::stats::less(ts as int, 2 * state.config.velocity_window_ms);
    lemma_since(all, cut);
    let next = state.updated(raw as int, ts as int);
    assert(next.ticks == since(all, cut));
    let gone = all.len() - next.ticks.len();
    if next.ticks.len() == 0 {
        assert(all[all.len() - 1].0 < cut);
    }
    assert(next.ticks.last() == all.last());
}

proof fn lemma_since(ticks: Seq<(u64, i128)>, cutoff: int)
    ensures
        ({
            let kept = since(ticks, cutoff);
            let gone = ticks.len() - kept.len();
            &&& 0 <= gone
            &&& kept == ticks.subrange(gone as int, ticks.len() as int)
            &&& forall|i: int| 0 <= i < gone ==> (#[trigger] ticks[i]).0 < cutoff
            &&& kept.len() > 0 ==> kept[0].0 >= cutoff
        }),
    decreases ticks.len(),
{
    if ticks.len() > 0 && ticks[0].0 < cutoff {
        let rest = ticks.drop_first();
        lemma_since(rest, cutoff);
        let kept = since(ticks, cutoff);
        let gone = ticks.len() - kept.len();
        assert(kept =~= ticks.subrange(gone as int, ticks.len() as int));
        assert forall|i: int| 0 <= i < gone implies (#[trigger] ticks[i]).0 < cutoff by {
            if i > 0 {
                assert(ticks[i] == rest[i - 1]);
            }
        }
    } else {
        assert(ticks =~= ticks.subrange(0, ticks.len() as int));
    }
}

/// How far two times lie apart.
pub open spec fn apart(a: int, b: int) -> int {
    if a >= b {
        a - b
    } else {
        b - a
    }
}

/// The tick that the velocity is measured from is the one nearest to the start of the
/// velocity window, the earliest of several, and lies within the tolerance; there is none
/// only where no tick does.
pub proof fn law_nearest_tick(ticks: Seq<(u64, i128)>, n: int, target: int, tolerance: int)
    requires
        0 <= n <= ticks.len(),
    ensures
        match nearest_tick(ticks, n, target, tolerance) {
            Some(k) => {
                &&& 0 <= k < n
                &&& apart(ticks[k].0 as int, target) <= tolerance
                &&& forall|i: int|
                    0 <= i < n ==> apart(ticks[k].0 as int, target) <= apart(
                        (#[trigger] ticks[i]).0 as int,
                        target,
                    )
                &&& forall|i: int|
                    0 <= i < k ==> apart(ticks[k].0 as int, target) < apart(
                        (#[trigger] ticks[i]).0 as int,
                        target,
                    )
            },
            None => forall|i: int|
                0 <= i < n ==> apart((#[trigger] ticks[i]).0 as int, target) > tolerance,
        },
    decreases n,
{
    if n > 0 {
        law_nearest_tick(ticks, n - 1, target, tolerance);
    }
}

/// The velocity is the change of the spread since that tick, per second, rounded down;
/// zero where there is no such tick.
pub proof fn law_velocity(state: StatsState, raw: i128, ts: u64)
    ensures
        ({
            let window = state.config.velocity_window_ms as int;
            let start = if ts >= window {
                ts - window
            } else {
                0
            };
            let all = state.ticks.push((ts, raw));
            let v = state.updated(raw as int, ts as int).velocity;
            match nearest_tick(all, all.len() as int, start, window / 5) {
                Some(k) => window > 0 ==> is_quotient(v, (raw - all[k].1) * 1000, window),
                None => v == 0,
            }
        }),
{
    let window = state.config.velocity_window_ms as int;
    let all = state.ticks.push((ts, raw));
    let start = crate::stats::less(ts as int, window);
    match nearest_tick(all, all.len() as int, start, window / 5) {
        Some(k) => {
            if window > 0 {
                lemma_quotient((raw - all[k].1) * 1000, window);
            }
        },
        None => {},
    }
}

/// An integer exceeds a quotient that is rounded down exactly where its multiple exceeds
/// the dividend.
proof fn lemma_above(a: int, x: int, d: int)
    requires
        d > 0,
    ensures
        a > x / d <==> a * d > x,
        a < x / d <==> (a + 1) * d <= x,
{
    lemma_quotient(x, d);
    let q = x / d;
    assert(a > q <==> a * d > x) by (nonlinear_arith)
        requires
            d > 0,
            q * d <= x,
            x < (q + 1) * d,
    ;
    assert(a < q <==> (a + 1) * d <= x) by (nonlinear_arith)
        requires
            d > 0,
            q * d <= x,
            x < (q + 1) * d,
    ;
}

/// When trading is permitted: enough samples, the warmup over, and enough volatility; the
/// first that is missing is told.
pub proof fn law_permission(state: StatsState, now: int)
    ensures
        ({
            let r = state.permit(now);
            let seen = state.samples >= state.config.minimum_samples;
            let warm = now >= state.startup + state.config.warmup_seconds * 1000;
            let lively = 14826 * state.mad >= state.config.min_volatility_floor_pct * 10000;
            &&& r is Ok <==> seen && warm && lively
            &&& !seen ==> r == Err::<(), RejectionReason>(RejectionReason::INSUFFICIENT_HISTORY)
            &&& seen && !warm ==> r == Err::<(), RejectionReason>(RejectionReason::WARMUP)
            &&& seen && warm && !lively ==> r == Err::<(), RejectionReason>(
                RejectionReason::INSUFFICIENT_LIQUIDITY,
            )
        }),
{
    let floor = state.config.min_volatility_floor_pct as int;
    lemma_above(floor - 1, 14826 * state.mad, 10000);
    law_volatility(state);
}

/// What an entry signal takes: permission; a spread above the median by more than the
/// entry multiple of the volatility, and above the minimum; enough robust deviations; no
/// collapse; a fresh signal; and a spread that does not exceed the threshold by as much
/// as the allowed slippage.
pub proof fn law_entry_signal(state: StatsState, spread: int, now: int)
    ensures
        state.entry_signal(spread, now) is Ok <==> {
            let c = state.config;
            let v = state.volatility();
            let lead = spread - state.median;
            let fresh = state.crossing_ts <= 0 || now < state.crossing_ts || now
                - state.crossing_ts <= c.max_signal_age_ms;
            &&& state.permit(now) is Ok
            &&& lead * 100_000_000 > c.k_entry * v
            &&& spread > c.minimum_entry_threshold_pct
            &&& v > 0 ==> lead * 100_000_000 >= c.minimum_entry_z_score * (if v
                >= c.min_volatility_floor_pct {
                v
            } else {
                c.min_volatility_floor_pct as int
            })
            &&& v <= 0 ==> c.minimum_entry_z_score <= 0
            &&& state.velocity >= -c.collapse_rate_threshold_pct_per_sec
            &&& fresh
            &&& {
                ||| (lead - c.max_slippage_pct + 1) * 100_000_000 <= c.k_entry * v
                ||| spread - c.max_slippage_pct < c.minimum_entry_threshold_pct
            }
        },
{
    let c = state.config;
    let v = state.volatility();
    let lead = spread - state.median;
    lemma_above(lead, c.k_entry * v, 100_000_000);
    lemma_above(lead - c.max_slippage_pct, c.k_entry * v, 100_000_000);
    let floor = c.min_volatility_floor_pct as int;
    law_permission(state, now);
}

/// Why an entry is refused, in the order in which the conditions are looked at.
pub proof fn law_entry_refusals(state: StatsState, spread: int, now: int)
    ensures
        ({
            let r = state.entry_signal(spread, now);
            let c = state.config;
            let lead = spread - state.median;
            let low = lead * 100_000_000 <= c.k_entry * state.volatility() || spread
                <= c.minimum_entry_threshold_pct;
            &&& state.permit(now) is Err ==> r == state.permit(now)
            &&& state.permit(now) is Ok && low ==> r == Err::<(), RejectionReason>(
                RejectionReason::SPREAD_BELOW_DYNAMIC_THRESHOLD,
            )
            &&& r == Err::<(), RejectionReason>(RejectionReason::SPREAD_COLLAPSING)
                ==> state.velocity < -c.collapse_rate_threshold_pct_per_sec
            &&& r == Err::<(), RejectionReason>(RejectionReason::SIGNAL_TOO_OLD)
                ==> state.crossing_ts > 0 && now - state.crossing_ts > c.max_signal_age_ms
            &&& r == Err::<(), RejectionReason>(RejectionReason::Z_SCORE_TOO_LOW)
                && state.volatility() > 0 && c.minimum_entry_z_score >= 0 ==> lead * 100_000_000
                < c.minimum_entry_z_score * (if state.volatility() >= c.min_volatility_floor_pct {
                state.volatility()
            } else {
                c.min_volatility_floor_pct as int
            })
        }),
{
    let lead = spread - state.median;
    lemma_above(lead, state.config.k_entry * state.volatility(), 100_000_000);
}

/// When a position is to be closed: it was held too long, or trading is permitted and
/// the spread lies below the minimum exit threshold, or below the exit level, which is
/// the median with the exit multiple of the volatility added, kept between the minimum
/// and the maximum exit threshold.
pub proof fn law_exit_signal(state: StatsState, spread: int, now: int, open_time: int)
    requires
        state.config.minimum_exit_threshold_pct <= state.config.maximum_exit_threshold_pct,
    ensures
        state.exit_signal(spread, now, open_time) <==> {
            let c = state.config;
            let lead = spread - state.median;
            ||| now - open_time > c.max_arbitrage_hold_time_ms
            ||| state.permit(now) is Ok && {
                ||| spread < c.minimum_exit_threshold_pct
                ||| spread < c.maximum_exit_threshold_pct && (lead + 1) * 100_000_000 <= c.k_exit
                    * state.volatility()
            }
        },
        state.config.minimum_exit_threshold_pct <= state.exit_level()
            <= state.config.maximum_exit_threshold_pct,
        state.entry_level() >= state.config.minimum_entry_threshold_pct,
{
    let c = state.config;
    lemma_above(spread - state.median, c.k_exit * state.volatility(), 100_000_000);
}

/// The exit level is the median with the exit multiple of the volatility added, rounded
/// down, and the entry level the same with the entry multiple, each brought to its
/// limits.
pub proof fn law_levels(state: StatsState, entry: int, exit: int)
    requires
        state.config.minimum_exit_threshold_pct <= state.config.maximum_exit_threshold_pct,
        is_quotient(entry - state.median, state.config.k_entry * state.volatility(), 100_000_000),
        is_quotient(exit - state.median, state.config.k_exit * state.volatility(), 100_000_000),
    ensures
        entry >= state.config.minimum_entry_threshold_pct ==> state.entry_level() == entry,
        entry < state.config.minimum_entry_threshold_pct ==> state.entry_level()
            == state.config.minimum_entry_threshold_pct,
        state.config.minimum_exit_threshold_pct <= exit <= state.config.maximum_exit_threshold_pct
            ==> state.exit_level() == exit,
        exit < state.config.minimum_exit_threshold_pct ==> state.exit_level()
            == state.config.minimum_exit_threshold_pct,
        exit > state.config.maximum_exit_threshold_pct ==> state.exit_level()
            == state.config.maximum_exit_threshold_pct,
{
    let a = state.config.k_entry * state.volatility();
    let b = state.config.k_exit * state.volatility();
    lemma_quotient(a, 100_000_000);
    lemma_quotient(b, 100_000_000);
    super::amounts::lemma_quotient_unique(entry - state.median, a / 100_000_000, a, 100_000_000);
    super::amounts::lemma_quotient_unique(exit - state.median, b / 100_000_000, b, 100_000_000);
}

} // verus!
