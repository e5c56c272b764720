//! Funding times. They recur at fixed intervals from midnight UTC; around them
//! a coin is not traded.
use crate::clock::{utc_time_of_day, TimeOfDay};
use crate::config::FUNDING_PAUSE_MINUTES;
use crate::price_store::FundingStore;
use crate::text::{push_int, texts};
use vstd::prelude::*;

verus! {

/// Whether a minute of the day lies within the pause around a funding time,
/// funding coming every `interval_hours` hours from midnight on.
pub open spec fn near_funding(interval_hours: int, minute_of_day: int) -> bool {
    let interval = interval_hours * 60;
    let since = minute_of_day % interval;
    interval_hours > 0 && (since <= FUNDING_PAUSE_MINUTES || interval - since
        <= FUNDING_PAUSE_MINUTES)
}

/// Seconds until the next funding time, zero for a coin without one.
pub open spec fn seconds_to_funding(interval_hours: int, second_of_day: int) -> int {
    if interval_hours > 0 {
        interval_hours * 3600 - second_of_day % (interval_hours * 3600)
    } else {
        0
    }
}

/// Whether a time of day is near a funding time, given the interval in hours.
pub fn is_near_funding_at(interval_hours: u32, now: TimeOfDay) -> (r: bool)
    requires
        now.wf(),
    ensures
        r == near_funding(interval_hours as int, now.minute_of_day()),
{
    let minute: i64 = now.hour as i64 * 60 + now.minute as i64;
    let interval: i64 = interval_hours as i64 * 60;
    if interval <= 0 {
        return false;
    }
    let since: i64 = (minute as u64 % interval as u64) as i64;
    since <= FUNDING_PAUSE_MINUTES || interval - since <= FUNDING_PAUSE_MINUTES
}

/// Whether the current time is near a funding time, given the interval in hours.
fn is_near_funding_with_interval(interval_hours: u32) -> (r: bool)
    ensures
        exists|now: TimeOfDay|
            #![trigger now.minute_of_day()]
            now.wf() && r == near_funding(interval_hours as int, now.minute_of_day()),
        interval_hours == 0 ==> !r,
{
    let now = utc_time_of_day();
    is_near_funding_at(interval_hours, now)
}

/// Whether a coin is near its funding time and is to be paused.
pub fn is_near_funding(coin: &str, funding_store: &FundingStore) -> (r: bool)
    ensures
        exists|now: TimeOfDay|
            #![trigger now.minute_of_day()]
            now.wf() && r == near_funding(
                funding_store.hours_spec(coin@) as int,
                now.minute_of_day(),
            ),
        funding_store.hours_spec(coin@) == 0 ==> !r,
{
    is_near_funding_with_interval(funding_store.hours(coin))
}

/// Seconds until the next funding time, given the interval in hours.
pub fn time_to_funding_at(interval_hours: u32, now: TimeOfDay) -> (secs: i64)
    requires
        now.wf(),
    ensures
        secs == seconds_to_funding(interval_hours as int, now.second_of_day()),
        0 <= secs <= interval_hours * 3600,
{
    let second: i64 = now.hour as i64 * 3600 + now.minute as i64 * 60 + now.second as i64;
    let interval: i64 = interval_hours as i64 * 3600;
    if interval <= 0 {
        return 0;
    }
    interval - (second as u64 % interval as u64) as i64
}

/// Seconds until the next funding time of a coin.
pub fn time_to_next_funding(coin: &str, funding_store: &FundingStore) -> (secs: i64)
    ensures
        exists|now: TimeOfDay|
            #![trigger now.second_of_day()]
            now.wf() && secs == seconds_to_funding(
                funding_store.hours_spec(coin@) as int,
                now.second_of_day(),
            ),
        0 <= secs <= funding_store.hours_spec(coin@) * 3600,
{
    let now = utc_time_of_day();
    time_to_funding_at(funding_store.hours(coin), now)
}

/// Text of a number of seconds: hours and minutes beyond one hour, else minutes
/// and seconds; `NOW` where none are left.
pub open spec fn countdown_text(secs: int) -> Seq<char> {
    let mins = secs / 60;
    if secs <= 0 {
        "NOW"@
    } else if mins > 60 {
        crate::text::int_text(mins / 60) + "h "@ + crate::text::int_text(mins % 60) + "m"@
    } else {
        crate::text::int_text(mins) + "m "@ + crate::text::int_text(secs % 60) + "s"@
    }
}

/// Text of a number of seconds.
pub fn countdown(secs: i64) -> (s: String)
    ensures
        s@ == countdown_text(secs as int),
{
    if secs <= 0 {
        return "NOW".to_owned();
    }
    let mins: i64 = (secs as u64 / 60) as i64;
    let mut out = String::new();
    if mins > 60 {
        push_int(&mut out, (mins as u64 / 60) as i64);
        out.append("h ");
        push_int(&mut out, (mins as u64 % 60) as i64);
        out.append("m");
        assert(out@ =~= countdown_text(secs as int));
    } else {
        push_int(&mut out, mins);
        out.append("m ");
        push_int(&mut out, (secs as u64 % 60) as i64);
        out.append("s");
        assert(out@ =~= countdown_text(secs as int));
    }
    out
}

/// Text of the time to the next funding of a coin.
pub fn funding_countdown(coin: &str, funding_store: &FundingStore) -> (s: String)
    ensures
        exists|now: TimeOfDay|
            #![trigger now.second_of_day()]
            now.wf() && s@ == countdown_text(
                seconds_to_funding(funding_store.hours_spec(coin@) as int, now.second_of_day()),
            ),
{
    let secs: i64 = time_to_next_funding(coin, funding_store);
    countdown(secs)
}

/// Whether `picked` holds, in their order, the coins of `coins` that are near
/// funding at a time of day.
pub open spec fn paused_coins(
    coins: Seq<String>,
    store: FundingStore,
    minute_of_day: int,
) -> Seq<Seq<char>>
    decreases coins.len(),
{
    if coins.len() == 0 {
        seq![]
    } else {
        let rest = paused_coins(coins.drop_last(), store, minute_of_day);
        if near_funding(store.hours_spec(coins.last()@) as int, minute_of_day) {
            rest.push(coins.last()@)
        } else {
            rest
        }
    }
}

/// The coins among `open_coins` that are near funding at a time of day.
pub fn positions_near_funding_at(
    open_coins: &[String],
    funding_store: &FundingStore,
    now: TimeOfDay,
) -> (near: Vec<String>)
    requires
        now.wf(),
    ensures
        texts(near@) == paused_coins(open_coins@, *funding_store, now.minute_of_day()),
{
    let mut near: Vec<String> = Vec::new();
    let mut i: usize = 0;
    while i < open_coins.len()
        invariant
            i <= open_coins@.len(),
            now.wf(),
            texts(near@) == paused_coins(
                open_coins@.take(i as int),
                *funding_store,
                now.minute_of_day(),
            ),
        decreases open_coins@.len() - i,
    {
        let coin = &open_coins[i];
        let ghost before = near@;
        assert(open_coins@.take(i as int + 1).drop_last() =~= open_coins@.take(i as int));
        if is_near_funding_at(funding_store.hours(coin.as_str()), now) {
            near.push(coin.clone());
            assert(texts(near@) =~= texts(before).push(coin@));
        }
        i = i + 1;
    }
    assert(open_coins@.take(i as int) =~= open_coins@);
    near
}

/// The coins among those with an open position that are near funding now.
pub fn is_any_position_near_funding(open_coins: &[String], funding_store: &FundingStore) -> (near:
    Vec<String>)
    ensures
        exists|now: TimeOfDay|
            #![trigger now.minute_of_day()]
            now.wf() && texts(near@) == paused_coins(
                open_coins@,
                *funding_store,
                now.minute_of_day(),
            ),
{
    let now = utc_time_of_day();
    positions_near_funding_at(open_coins, funding_store, now)
}

/// A minute is paused exactly when some funding time, a multiple of the
/// interval, lies at most the pause away from it, before or after.
pub proof fn law_pause_is_symmetric(interval_hours: int, minute_of_day: int)
    requires
        interval_hours > 0,
        minute_of_day >= 0,
    ensures
        near_funding(interval_hours, minute_of_day) <==> exists|k: int|
            crate::fixed::abs_of(minute_of_day - #[trigger] (k * (interval_hours * 60)))
                <= FUNDING_PAUSE_MINUTES,
{
    let interval = interval_hours * 60;
    let q = minute_of_day / interval;
    let r = minute_of_day % interval;
    assert(minute_of_day == q * interval + r && 0 <= r < interval) by (nonlinear_arith)
        requires
            interval > 0,
            q == minute_of_day / interval,
            r == minute_of_day % interval,
    ;
    if near_funding(interval_hours, minute_of_day) {
        if r <= FUNDING_PAUSE_MINUTES {
            assert(crate::fixed::abs_of(minute_of_day - q * interval) <= FUNDING_PAUSE_MINUTES);
        } else {
            assert((q + 1) * interval == q * interval + interval) by (nonlinear_arith);
            assert(crate::fixed::abs_of(minute_of_day - (q + 1) * interval)
                <= FUNDING_PAUSE_MINUTES);
        }
    }
    assert forall|k: int|
        crate::fixed::abs_of(minute_of_day - #[trigger] (k * interval))
            <= FUNDING_PAUSE_MINUTES implies near_funding(interval_hours, minute_of_day) by {
        if k <= q {
            assert(k * interval <= q * interval) by (nonlinear_arith)
                requires
                    k <= q,
                    interval > 0,
            ;
        } else {
            assert(k * interval >= q * interval + interval) by (nonlinear_arith)
                requires
                    k >= q + 1,
                    interval > 0,
            ;
        }
    }
}

/// The next funding time is at least one second and at most one interval away.
pub proof fn law_countdown_range(interval_hours: int, second_of_day: int)
    requires
        interval_hours > 0,
        second_of_day >= 0,
    ensures
        0 < seconds_to_funding(interval_hours, second_of_day) <= interval_hours * 3600,
{
    let interval = interval_hours * 3600;
    assert(0 <= second_of_day % interval < interval) by (nonlinear_arith)
        requires
            interval > 0,
    ;
}

} // verus!
