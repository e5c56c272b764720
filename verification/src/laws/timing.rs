//! Funding times and the readings of clocks.
use crate::clock::{millis_in, seconds_between};
use crate::funding::{near_funding, paused_coins, seconds_to_funding};
use crate::price_store::FundingStore;
use vstd::prelude::*;

verus! {

/// A coin is paused within five minutes of its funding times, on either side, and at no
/// other time. Funding comes at the multiples of its interval, counted from midnight.
pub proof fn law_funding_pause(interval_hours: int, minute: int, k: int)
    requires
        interval_hours > 0,
        minute >= 0,
    ensures
        -5 <= minute - k * (interval_hours * 60) <= 5 ==> near_funding(interval_hours, minute),
        k * (interval_hours * 60) + 5 < minute < (k + 1) * (interval_hours * 60) - 5
            ==> !near_funding(interval_hours, minute),
        !near_funding(0, minute),
{
    let interval = interval_hours * 60;
    let q = minute / interval;
    let r = minute % interval;
    assert(minute == q * interval + r && 0 <= r < interval) by (nonlinear_arith)
        requires
            interval > 0,
            q == minute / interval,
            r == minute % interval,
    ;
    assert((k + 1) * interval == k * interval + interval) by (nonlinear_arith);
    if k < q {
        assert(k * interval + interval <= q * interval) by (nonlinear_arith)
            requires
                k + 1 <= q,
                interval > 0,
        ;
    } else if k > q {
        assert(k * interval >= q * interval + interval) by (nonlinear_arith)
            requires
                k >= q + 1,
                interval > 0,
        ;
    }
}

/// The countdown ends at a funding time, which is the next one: a multiple of the
/// interval, more than nothing and at most one interval away.
pub proof fn law_countdown(interval_hours: int, second: int) -> (k: int)
    requires
        interval_hours > 0,
        second >= 0,
    ensures
        second + seconds_to_funding(interval_hours, second) == k * (interval_hours * 3600),
        (k - 1) * (interval_hours * 3600) <= second < k * (interval_hours * 3600),
        seconds_to_funding(0, second) == 0,
{
    let interval = interval_hours * 3600;
    let q = second / interval;
    let r = second % interval;
    assert(second == q * interval + r && 0 <= r < interval) by (nonlinear_arith)
        requires
            interval > 0,
            q == second / interval,
            r == second % interval,
    ;
    assert((q + 1) * interval == q * interval + interval) by (nonlinear_arith);
    q + 1
}

/// A coin is listed as paused where it is near its own funding time, behind those that
/// stand before it.
pub proof fn law_paused_coins(coins: Seq<String>, coin: String, store: FundingStore, minute: int)
    ensures
        paused_coins(Seq::empty(), store, minute).len() == 0,
        near_funding(store.hours_spec(coin@) as int, minute) ==> paused_coins(
            coins.push(coin),
            store,
            minute,
        ) == paused_coins(coins, store, minute).push(coin@),
        !near_funding(store.hours_spec(coin@) as int, minute) ==> paused_coins(
            coins.push(coin),
            store,
            minute,
        ) == paused_coins(coins, store, minute),
{
    assert(coins.push(coin).drop_last() =~= coins);
}

/// Whole seconds and milliseconds leave out what is less than one of them. Seconds
/// count backwards as they count forwards.
pub proof fn law_whole_units(earlier: int, later: int)
    requires
        earlier <= later,
    ensures
        seconds_between(earlier, later) * 1_000_000_000 <= later - earlier < (seconds_between(
            earlier,
            later,
        ) + 1) * 1_000_000_000,
        seconds_between(later, earlier) == -seconds_between(earlier, later),
        later >= 0 ==> millis_in(later) * 1_000_000 <= later < (millis_in(later) + 1) * 1_000_000,
        later < 0 ==> millis_in(later) == 0,
{
}

} // verus!
