//! The delays of a trade, and how often something is told.
use crate::alerting::AlertThrottle;
use crate::latency::TradeLatency;
use crate::live_trading::open::{with_look, Quote};
use crate::missed_trade_logger::{category, is_execution_failure, ThrottleMap};
use crate::opportunity_logger::{opportunity_key, OpportunityThrottle};
use crate::rejection::RejectionReason;
use crate::text::{joined, trimmed};
use vstd::prelude::*;

verus! {

/// The delays of a trade are the times between its stages: from the detection to the
/// order, from the order to its answer, from the answer to the fill, from the book to
/// the order, and over all from the book to the fill. A stage that is not known leaves
/// its delays as they were.
pub proof fn law_delays(before: TradeLatency, after: TradeLatency)
    requires
        before.wf(),
        after.derived_from(before),
    ensures
        before.opportunity_detected_ms is Some && before.order_send_ms is Some
            ==> after.detection_to_send_ms is Some && before.opportunity_detected_ms->Some_0
            + after.detection_to_send_ms->Some_0 == before.order_send_ms->Some_0,
        before.order_send_ms is Some && before.exchange_ack_ms is Some
            ==> after.send_to_ack_ms is Some && before.order_send_ms->Some_0
            + after.send_to_ack_ms->Some_0 == before.exchange_ack_ms->Some_0,
        before.exchange_ack_ms is Some && before.ws_fill_ms is Some ==> after.ack_to_fill_ms is Some
            && before.exchange_ack_ms->Some_0 + after.ack_to_fill_ms->Some_0
            == before.ws_fill_ms->Some_0,
        before.book_update_ms is Some && before.order_send_ms is Some
            ==> after.book_to_send_ms is Some && before.book_update_ms->Some_0
            + after.book_to_send_ms->Some_0 == before.order_send_ms->Some_0,
        before.book_update_ms is Some && before.ws_fill_ms is Some
            ==> after.total_pipeline_ms is Some && before.book_update_ms->Some_0
            + after.total_pipeline_ms->Some_0 == before.ws_fill_ms->Some_0,
        before.ws_fill_ms is None && before.total_pipeline_ms is None && before.book_update_ms
            is Some && before.exchange_ack_ms is Some ==> after.total_pipeline_ms is Some
            && before.book_update_ms->Some_0 + after.total_pipeline_ms->Some_0
            == before.exchange_ack_ms->Some_0,
        before.book_update_ms is None && before.total_pipeline_ms is None
            && before.opportunity_detected_ms is Some && before.exchange_ack_ms is Some
            ==> after.total_pipeline_ms is Some && before.opportunity_detected_ms->Some_0
            + after.total_pipeline_ms->Some_0 == before.exchange_ack_ms->Some_0,
        before.ws_fill_ms is None && before.total_pipeline_ms is Some ==> after.total_pipeline_ms
            == before.total_pipeline_ms,
        before.order_send_ms is None ==> after.detection_to_send_ms == before.detection_to_send_ms
            && after.send_to_ack_ms == before.send_to_ack_ms && after.book_to_send_ms
            == before.book_to_send_ms,
        before.ws_fill_ms is None ==> after.ack_to_fill_ms == before.ack_to_fill_ms,
{
}

/// A delay that is known, else nothing.
pub open spec fn known(v: Option<i64>) -> int {
    if v is Some {
        v->Some_0 as int
    } else {
        0
    }
}

/// Whether the ask moved by more than a fifth of a percent, up or down, between
/// detection and check.
pub open spec fn moved(l: TradeLatency) -> bool {
    &&& l.detected_buy_ask is Some
    &&& l.preflight_buy_ask is Some
    &&& l.detected_buy_ask->Some_0 > 0
    &&& {
        ||| l.preflight_buy_ask->Some_0 * 1000 > l.detected_buy_ask->Some_0 * 1002
        ||| l.preflight_buy_ask->Some_0 * 1000 < l.detected_buy_ask->Some_0 * 998
    }
}

/// A trade stands out in no way exactly where each of its delays keeps within its limit
/// and the ask did not move; then the diagnosis is that it is fine.
pub proof fn law_trade_in_order(l: TradeLatency)
    ensures
        l.issues().len() == 0 <==> {
            &&& known(l.book_to_send_ms) <= 100
            &&& known(l.detection_to_send_ms) <= 20
            &&& known(l.send_to_ack_ms) <= 200
            &&& known(l.buy_leg_rtt_ms) <= 400
            &&& known(l.sell_leg_rtt_ms) <= 400
            &&& known(l.ack_to_fill_ms) <= 50
            &&& !moved(l)
        },
        l.issues().len() == 0 ==> l.diagnosis_text() == "OK"@,
        l.issues().len() > 0 ==> l.diagnosis_text() == joined(l.issues(), "|"@),
        l.issues().len() <= 7,
        known(l.book_to_send_ms) > 200 ==> l.issues()[0] == "STALE_BOOK(>200ms)"@,
        100 < known(l.book_to_send_ms) <= 200 ==> l.issues()[0] == "STALE_BOOK(>100ms)"@,
        moved(l) ==> l.issues().last() == "MARKET_MOVED(buy_ask)"@,
{
}

/// What stands out alone is named by itself, by the wider of the limits that it exceeds.
pub proof fn law_single_issue(l: TradeLatency)
    requires
        !moved(l),
        known(l.book_to_send_ms) <= 100,
    ensures
        ({
            let fast = known(l.detection_to_send_ms) <= 20;
            let answered = known(l.send_to_ack_ms) <= 200;
            let bought = known(l.buy_leg_rtt_ms) <= 400;
            let sold = known(l.sell_leg_rtt_ms) <= 400;
            let filled = known(l.ack_to_fill_ms) <= 50;
            &&& answered && bought && sold && filled && known(l.detection_to_send_ms) > 50
                ==> l.issues() =~= seq!["PROCESSING_DELAY(>50ms)"@]
            &&& answered && bought && sold && filled && 20 < known(l.detection_to_send_ms) <= 50
                ==> l.issues() =~= seq!["PROCESSING_DELAY(>20ms)"@]
            &&& fast && bought && sold && filled && known(l.send_to_ack_ms) > 500 ==> l.issues()
                =~= seq!["SLOW_REST(>500ms)"@]
            &&& fast && bought && sold && filled && 200 < known(l.send_to_ack_ms) <= 500
                ==> l.issues() =~= seq!["SLOW_REST(>200ms)"@]
            &&& fast && answered && sold && filled && !bought ==> l.issues() =~= seq![
                "SLOW_BUY_LEG(>400ms)"@,
            ]
            &&& fast && answered && bought && filled && !sold ==> l.issues() =~= seq![
                "SLOW_SELL_LEG(>400ms)"@,
            ]
            &&& fast && answered && bought && sold && known(l.ack_to_fill_ms) > 200 ==> l.issues()
                =~= seq!["SLOW_WS_FILL(>200ms)"@]
            &&& fast && answered && bought && sold && 50 < known(l.ack_to_fill_ms) <= 200
                ==> l.issues() =~= seq!["SLOW_WS_FILL(>50ms)"@]
        }),
{
}

/// An alert is held back for a minute after the last one that went out, and without one
/// not at all.
pub proof fn law_alert_pause(t: AlertThrottle, now_ms: int)
    requires
        now_ms >= 0,
    ensures
        t.last_ms is None ==> !t.too_soon(now_ms),
        t.last_ms is Some ==> (t.too_soon(now_ms) <==> now_ms < t.last_ms->Some_0 + 60_000),
{
}

/// A missed trade is held back for five seconds after one of the same coin and the same
/// category; an opportunity for one second after one with the same outcome.
pub proof fn law_held_back(
    t: ThrottleMap,
    coin: Seq<char>,
    cat: Seq<char>,
    o: OpportunityThrottle,
    key: Seq<char>,
    reason: Option<RejectionReason>,
    now_ms: int,
)
    requires
        now_ms >= 0,
    ensures
        t.holds_back(coin, cat, now_ms) <==> {
            &&& t.seen@.contains_key(coin)
            &&& t.seen@[coin].0@ == cat
            &&& now_ms < t.seen@[coin].1 + 5_000
        },
        o.holds_back(key, reason, now_ms) <==> {
            &&& o.seen@.contains_key(key)
            &&& o.seen@[key].0 == reason
            &&& now_ms < o.seen@[key].1 + 1_000
        },
{
}

/// An opportunity is told apart by its symbol and its direction.
pub proof fn law_opportunity_key(symbol: Seq<char>, a: Seq<char>, b: Seq<char>)
    requires
        a != b,
    ensures
        opportunity_key(symbol, a) != opportunity_key(symbol, b),
{
    let k = opportunity_key(symbol, a);
    let m = opportunity_key(symbol, b);
    reveal_strlit("_");
    if k == m {
        assert(k.skip(symbol.len() as int + 1) =~= a);
        assert(m.skip(symbol.len() as int + 1) =~= b);
    }
}

/// The category of a reason is what stands before its first colon or bracket, without
/// the space around it; a reason without either is its own category. A failed order is
/// never held back, whatever else its reason tells.
pub proof fn law_category(head: Seq<char>, tail: Seq<char>)
    requires
        forall|i: int| 0 <= i < head.len() ==> #[trigger] head[i] != ':' && head[i] != '(',
    ensures
        category(head) == trimmed(head),
        category(head.push(':') + tail) == trimmed(head),
        category(head.push('(') + tail) == trimmed(head),
        is_execution_failure("LEG_FILL_FAILED"@),
        is_execution_failure("BOTH_LEGS_FAILED"@),
        is_execution_failure("ONE_LEG_FAILED"@),
        !is_execution_failure("COOLDOWN"@),
        !is_execution_failure("INSUFFICIENT_BALANCE"@),
{
    let n = head.len() as int;
    lemma_mark(head, head, 0);
    assert(head.take(n) =~= head);
    let a = head.push(':') + tail;
    lemma_mark(head, a, 0);
    assert(a.take(n) =~= head);
    let b = head.push('(') + tail;
    lemma_mark(head, b, 0);
    assert(b.take(n) =~= head);
    reveal_strlit("LEG_FILL_FAILED");
    reveal_strlit("BOTH_LEGS_FAILED");
    reveal_strlit("ONE_LEG_FAILED");
    reveal_strlit("COOLDOWN");
    reveal_strlit("INSUFFICIENT_BALANCE");
    assert("LEG_FILL_FAILED"@[0] == 'L' && "BOTH_LEGS_FAILED"@[0] == 'B' && "ONE_LEG_FAILED"@[0]
        == 'O');
    assert("COOLDOWN"@[0] == 'C' && "INSUFFICIENT_BALANCE"@[0] == 'I');
}

proof fn lemma_mark(head: Seq<char>, s: Seq<char>, i: int)
    requires
        0 <= i <= head.len() <= s.len(),
        forall|k: int| 0 <= k < head.len() ==> #[trigger] head[k] != ':' && head[k] != '(',
        forall|k: int| 0 <= k < head.len() ==> #[trigger] s[k] == head[k],
        head.len() == s.len() || s[head.len() as int] == ':' || s[head.len() as int] == '(',
    ensures
        crate::missed_trade_logger::mark_from(s, i) == head.len(),
    decreases head.len() - i,
{
    if i < head.len() {
        assert(s[i] == head[i]);
        lemma_mark(head, s, i + 1);
    }
}

/// What is noted at the detection and at the last look: the time, the ask as that of the
/// purchase, the bid as that of the sale, and the spread. The one leaves the other, and
/// both leave the stages that are noted elsewhere.
pub proof fn law_noted_quotes(l: TradeLatency, ms: i64, ask: u64, bid: u64, spread: i128)
    ensures
        ({
            let d = l.detected_at(ms, ask, bid, spread);
            &&& d.opportunity_detected_ms == Some(ms)
            &&& d.detected_buy_ask == Some(ask)
            &&& d.detected_sell_bid == Some(bid)
            &&& d.detected_spread_pct == Some(spread)
            &&& d.preflight_buy_ask == l.preflight_buy_ask
            &&& d.preflight_sell_bid == l.preflight_sell_bid
            &&& d.pre_flight_check_ms == l.pre_flight_check_ms
            &&& d.book_update_ms == l.book_update_ms
            &&& d.order_send_ms == l.order_send_ms
        }),
        ({
            let c = l.checked_at(ms, ask, bid, spread);
            &&& c.pre_flight_check_ms == Some(ms)
            &&& c.preflight_buy_ask == Some(ask)
            &&& c.preflight_sell_bid == Some(bid)
            &&& c.preflight_spread_pct == Some(spread)
            &&& c.detected_buy_ask == l.detected_buy_ask
            &&& c.detected_sell_bid == l.detected_sell_bid
            &&& c.opportunity_detected_ms == l.opportunity_detected_ms
            &&& c.book_update_ms == l.book_update_ms
            &&& c.order_send_ms == l.order_send_ms
        }),
        ({
            let q = Quote { ask, bid, spread_pct: spread };
            with_look(l, q, ms) == l.checked_at(ms, ask, bid, spread)
        }),
        l.filled_at(ms).ws_fill_ms == Some(ms),
        l.filled_at(ms).exchange_ack_ms == l.exchange_ack_ms,
{
}

} // verus!
