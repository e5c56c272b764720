//! Latency profile of a trade, from the book update that triggered it to the
//! confirmation of its fill. Time stamps are epoch milliseconds in UTC.
//!
//! Stages: the book was updated, the scan found the spread, the checks before
//! the trade passed, both orders were sent, both exchanges answered, the fills
//! were confirmed.
use crate::clock::utc_millis;
use crate::fixed::PCT_SCALE;
use crate::json::{
    int_value, object_text, pct_value, price_value, string_value, with_optional, Fields,
};
use crate::price_store::Exchange;
use crate::text::{
    fixed_text, int_text, join, joined, left_aligned, lemma_texts_push, push_fixed, push_int,
    push_left_aligned, push_repeated, push_right_aligned, repeated, right_aligned, texts,
};
use vstd::prelude::*;

verus! {

/// Time stamps and derived metrics of one trade.
#[derive(Debug)]
pub struct TradeLatency {
    pub book_update_ms: Option<i64>,
    pub opportunity_detected_ms: Option<i64>,
    pub pre_flight_check_ms: Option<i64>,
    pub order_send_ms: Option<i64>,
    pub exchange_ack_ms: Option<i64>,
    pub ws_fill_ms: Option<i64>,
    /// Time from detection to sending: processing overhead.
    pub detection_to_send_ms: Option<i64>,
    /// Time from sending to the answers of both exchanges.
    pub send_to_ack_ms: Option<i64>,
    /// Time from the answers to the confirmation of the fills.
    pub ack_to_fill_ms: Option<i64>,
    /// Age of the book when the orders were sent.
    pub book_to_send_ms: Option<i64>,
    /// Time from the book update to the fill, or to the answers where a leg failed.
    pub total_pipeline_ms: Option<i64>,
    pub buy_leg_rtt_ms: Option<i64>,
    pub sell_leg_rtt_ms: Option<i64>,
    pub reversal_rtt_ms: Option<i64>,
    pub detected_buy_ask: Option<u64>,
    pub detected_sell_bid: Option<u64>,
    pub detected_spread_pct: Option<i128>,
    pub preflight_buy_ask: Option<u64>,
    pub preflight_sell_bid: Option<u64>,
    pub preflight_spread_pct: Option<i128>,
    /// What stands out in the profile.
    pub latency_diagnosis: Option<String>,
}

impl Clone for TradeLatency {
    fn clone(&self) -> (l: TradeLatency)
        ensures
            l == *self,
    {
        TradeLatency {
            book_update_ms: self.book_update_ms,
            opportunity_detected_ms: self.opportunity_detected_ms,
            pre_flight_check_ms: self.pre_flight_check_ms,
            order_send_ms: self.order_send_ms,
            exchange_ack_ms: self.exchange_ack_ms,
            ws_fill_ms: self.ws_fill_ms,
            detection_to_send_ms: self.detection_to_send_ms,
            send_to_ack_ms: self.send_to_ack_ms,
            ack_to_fill_ms: self.ack_to_fill_ms,
            book_to_send_ms: self.book_to_send_ms,
            total_pipeline_ms: self.total_pipeline_ms,
            buy_leg_rtt_ms: self.buy_leg_rtt_ms,
            sell_leg_rtt_ms: self.sell_leg_rtt_ms,
            reversal_rtt_ms: self.reversal_rtt_ms,
            detected_buy_ask: self.detected_buy_ask,
            detected_sell_bid: self.detected_sell_bid,
            detected_spread_pct: self.detected_spread_pct,
            preflight_buy_ask: self.preflight_buy_ask,
            preflight_sell_bid: self.preflight_sell_bid,
            preflight_spread_pct: self.preflight_spread_pct,
            latency_diagnosis: match &self.latency_diagnosis {
                Some(d) => Some(d.clone()),
                None => None,
            },
        }
    }
}

/// An integer, or another where there is none.
pub open spec fn or_else(v: Option<i64>, default: int) -> int {
    match v {
        Some(x) => x as int,
        None => default,
    }
}

/// The time between two stages, where both are known; else what was known before.
pub open spec fn gap(from: Option<i64>, to: Option<i64>, known: Option<i64>) -> Option<i64> {
    match (from, to) {
        (Some(a), Some(b)) => Some((b - a) as i64),
        _ => known,
    }
}

/// Whether a time stamp is one.
pub open spec fn stamp_ok(t: Option<i64>) -> bool {
    t is Some ==> t->Some_0 >= 0
}

/// The label of a delay: the wider limit, else the narrower one, where exceeded.
pub open spec fn delay_label(
    issues: Seq<Seq<char>>,
    delay: int,
    wide: int,
    wide_label: Seq<char>,
    narrow: int,
    narrow_label: Seq<char>,
) -> Seq<Seq<char>> {
    if delay > wide {
        issues.push(wide_label)
    } else if delay > narrow {
        issues.push(narrow_label)
    } else {
        issues
    }
}

/// `issues` with a label more, where a condition holds.
pub open spec fn label_if(issues: Seq<Seq<char>>, holds: bool, label: Seq<char>) -> Seq<Seq<char>> {
    if holds {
        issues.push(label)
    } else {
        issues
    }
}

impl TradeLatency {
    /// Whether the ask moved by more than 0.2% between detection and checks.
    pub open spec fn ask_moved(&self) -> bool {
        match (self.detected_buy_ask, self.preflight_buy_ask) {
            (Some(d), Some(p)) => d > 0 && crate::fixed::abs_of(p - d) * PCT_SCALE > 20_000_000 * d,
            _ => false,
        }
    }

    /// What stands out in the profile, in the order of the stages.
    pub open spec fn issues(&self) -> Seq<Seq<char>> {
        let none: Seq<Seq<char>> = seq![];
        let book = delay_label(
            none,
            or_else(self.book_to_send_ms, 0),
            200,
            "STALE_BOOK(>200ms)"@,
            100,
            "STALE_BOOK(>100ms)"@,
        );
        let processing = delay_label(
            book,
            or_else(self.detection_to_send_ms, 0),
            50,
            "PROCESSING_DELAY(>50ms)"@,
            20,
            "PROCESSING_DELAY(>20ms)"@,
        );
        let rest = delay_label(
            processing,
            or_else(self.send_to_ack_ms, 0),
            500,
            "SLOW_REST(>500ms)"@,
            200,
            "SLOW_REST(>200ms)"@,
        );
        let buy = label_if(rest, or_else(self.buy_leg_rtt_ms, 0) > 400, "SLOW_BUY_LEG(>400ms)"@);
        let sell = label_if(buy, or_else(self.sell_leg_rtt_ms, 0) > 400, "SLOW_SELL_LEG(>400ms)"@);
        let fill = delay_label(
            sell,
            or_else(self.ack_to_fill_ms, 0),
            200,
            "SLOW_WS_FILL(>200ms)"@,
            50,
            "SLOW_WS_FILL(>50ms)"@,
        );
        label_if(fill, self.ask_moved(), "MARKET_MOVED(buy_ask)"@)
    }

    /// The diagnosis: the issues, or that there are none.
    pub open spec fn diagnosis_text(&self) -> Seq<char> {
        if self.issues().len() == 0 {
            "OK"@
        } else {
            joined(self.issues(), "|"@)
        }
    }

    /// The time stamps are not negative.
    pub open spec fn wf(&self) -> bool {
        &&& stamp_ok(self.book_update_ms)
        &&& stamp_ok(self.opportunity_detected_ms)
        &&& stamp_ok(self.order_send_ms)
        &&& stamp_ok(self.exchange_ack_ms)
        &&& stamp_ok(self.ws_fill_ms)
    }

    /// The total: to the fill where there is one; else, where none is known yet,
    /// to the answers, from the book update or from the detection.
    pub open spec fn total_spec(&self) -> Option<i64> {
        match (self.book_update_ms, self.ws_fill_ms) {
            (Some(book), Some(fill)) => Some((fill - book) as i64),
            _ => if self.total_pipeline_ms is None {
                gap(
                    self.book_update_ms,
                    self.exchange_ack_ms,
                    gap(self.opportunity_detected_ms, self.exchange_ack_ms, None),
                )
            } else {
                self.total_pipeline_ms
            },
        }
    }

    /// Whether everything but the derived metrics is as in `before`, and these
    /// are derived from the time stamps.
    pub open spec fn derived_from(&self, before: TradeLatency) -> bool {
        &&& self.detection_to_send_ms == gap(
            before.opportunity_detected_ms,
            before.order_send_ms,
            before.detection_to_send_ms,
        )
        &&& self.send_to_ack_ms == gap(
            before.order_send_ms,
            before.exchange_ack_ms,
            before.send_to_ack_ms,
        )
        &&& self.ack_to_fill_ms == gap(
            before.exchange_ack_ms,
            before.ws_fill_ms,
            before.ack_to_fill_ms,
        )
        &&& self.book_to_send_ms == gap(
            before.book_update_ms,
            before.order_send_ms,
            before.book_to_send_ms,
        )
        &&& self.total_pipeline_ms == before.total_spec()
        &&& self.latency_diagnosis is Some
        &&& self.latency_diagnosis->Some_0@ == self.diagnosis_text()
        &&& *self == (TradeLatency {
            detection_to_send_ms: self.detection_to_send_ms,
            send_to_ack_ms: self.send_to_ack_ms,
            ack_to_fill_ms: self.ack_to_fill_ms,
            book_to_send_ms: self.book_to_send_ms,
            total_pipeline_ms: self.total_pipeline_ms,
            latency_diagnosis: self.latency_diagnosis,
            ..before
        })
    }

    /// The profile with the detection of the opportunity.
    pub open spec fn detected_at(
        &self,
        ms: i64,
        buy_ask: u64,
        sell_bid: u64,
        spread_pct: i128,
    ) -> TradeLatency {
        TradeLatency {
            opportunity_detected_ms: Some(ms),
            detected_buy_ask: Some(buy_ask),
            detected_sell_bid: Some(sell_bid),
            detected_spread_pct: Some(spread_pct),
            ..*self
        }
    }

    /// The profile with the checks before the trade.
    pub open spec fn checked_at(
        &self,
        ms: i64,
        buy_ask: u64,
        sell_bid: u64,
        spread_pct: i128,
    ) -> TradeLatency {
        TradeLatency {
            pre_flight_check_ms: Some(ms),
            preflight_buy_ask: Some(buy_ask),
            preflight_sell_bid: Some(sell_bid),
            preflight_spread_pct: Some(spread_pct),
            ..*self
        }
    }

    /// The profile with the time of the fill.
    pub open spec fn filled_at(&self, ms: i64) -> TradeLatency {
        TradeLatency { ws_fill_ms: Some(ms), ..*self }
    }

    /// A profile of which only the book update is known.
    pub fn new(book_update_epoch_ms: Option<i64>) -> (l: TradeLatency)
        ensures
            l == blank_latency(book_update_epoch_ms),
    {
        TradeLatency {
            book_update_ms: book_update_epoch_ms,
            opportunity_detected_ms: None,
            pre_flight_check_ms: None,
            order_send_ms: None,
            exchange_ack_ms: None,
            ws_fill_ms: None,
            detection_to_send_ms: None,
            send_to_ack_ms: None,
            ack_to_fill_ms: None,
            book_to_send_ms: None,
            total_pipeline_ms: None,
            buy_leg_rtt_ms: None,
            sell_leg_rtt_ms: None,
            reversal_rtt_ms: None,
            detected_buy_ask: None,
            detected_sell_bid: None,
            detected_spread_pct: None,
            preflight_buy_ask: None,
            preflight_sell_bid: None,
            preflight_spread_pct: None,
            latency_diagnosis: None,
        }
    }

    /// The current time in epoch milliseconds.
    pub fn now_ms() -> (ms: i64)
        ensures
            ms >= 0,
    {
        utc_millis()
    }

    /// Notes the detection of the opportunity at a time.
    pub fn mark_detected_at(&mut self, ms: i64, buy_ask: u64, sell_bid: u64, spread_pct: i128)
        ensures
            *final(self) == old(self).detected_at(ms, buy_ask, sell_bid, spread_pct),
    {
        self.opportunity_detected_ms = Some(ms);
        self.detected_buy_ask = Some(buy_ask);
        self.detected_sell_bid = Some(sell_bid);
        self.detected_spread_pct = Some(spread_pct);
    }

    /// Notes the detection of the opportunity now.
    pub fn mark_detected(&mut self, buy_ask: u64, sell_bid: u64, spread_pct: i128)
        ensures
            final(self).opportunity_detected_ms is Some,
            stamp_ok(final(self).opportunity_detected_ms),
            *final(self) == (TradeLatency {
                opportunity_detected_ms: final(self).opportunity_detected_ms,
                detected_buy_ask: Some(buy_ask),
                detected_sell_bid: Some(sell_bid),
                detected_spread_pct: Some(spread_pct),
                ..*old(self)
            }),
    {
        let ms: i64 = Self::now_ms();
        self.mark_detected_at(ms, buy_ask, sell_bid, spread_pct);
    }

    /// Notes that the checks before the trade passed, at a time.
    pub fn mark_pre_flight_at(&mut self, ms: i64, buy_ask: u64, sell_bid: u64, spread_pct: i128)
        ensures
            *final(self) == old(self).checked_at(ms, buy_ask, sell_bid, spread_pct),
    {
        self.pre_flight_check_ms = Some(ms);
        self.preflight_buy_ask = Some(buy_ask);
        self.preflight_sell_bid = Some(sell_bid);
        self.preflight_spread_pct = Some(spread_pct);
    }

    /// Notes that the checks before the trade passed now.
    pub fn mark_pre_flight(&mut self, buy_ask: u64, sell_bid: u64, spread_pct: i128)
        ensures
            final(self).pre_flight_check_ms is Some,
            *final(self) == (TradeLatency {
                pre_flight_check_ms: final(self).pre_flight_check_ms,
                preflight_buy_ask: Some(buy_ask),
                preflight_sell_bid: Some(sell_bid),
                preflight_spread_pct: Some(spread_pct),
                ..*old(self)
            }),
    {
        let ms: i64 = Self::now_ms();
        self.mark_pre_flight_at(ms, buy_ask, sell_bid, spread_pct);
    }

    /// Notes that both orders are sent now.
    pub fn mark_order_send(&mut self)
        ensures
            final(self).order_send_ms is Some,
            stamp_ok(final(self).order_send_ms),
            *final(self) == (TradeLatency {
                order_send_ms: final(self).order_send_ms,
                ..*old(self)
            }),
    {
        self.order_send_ms = Some(Self::now_ms());
    }

    /// Notes that both exchanges have answered now.
    pub fn mark_exchange_ack(&mut self)
        ensures
            final(self).exchange_ack_ms is Some,
            stamp_ok(final(self).exchange_ack_ms),
            *final(self) == (TradeLatency {
                exchange_ack_ms: final(self).exchange_ack_ms,
                ..*old(self)
            }),
    {
        self.exchange_ack_ms = Some(Self::now_ms());
    }

    /// Notes the confirmation of the fills at a time and derives the metrics.
    pub fn mark_ws_fill_at(&mut self, ms: i64)
        requires
            old(self).wf(),
            ms >= 0,
        ensures
            final(self).derived_from(old(self).filled_at(ms)),
            final(self).wf(),
    {
        self.ws_fill_ms = Some(ms);
        self.compute_derived();
    }

    /// Notes the confirmation of the fills now and derives the metrics.
    pub fn mark_ws_fill(&mut self)
        requires
            old(self).wf(),
        ensures
            exists|ms: i64|
                ms >= 0 && final(self).derived_from(#[trigger] old(self).filled_at(ms)),
    {
        let ms: i64 = Self::now_ms();
        self.mark_ws_fill_at(ms);
    }

    /// Derives the metrics from the time stamps that are known.
    pub fn compute_derived(&mut self)
        requires
            old(self).wf(),
        ensures
            final(self).derived_from(*old(self)),
            final(self).wf(),
    {
        if let (Some(det), Some(send)) = (self.opportunity_detected_ms, self.order_send_ms) {
            self.detection_to_send_ms = Some(send - det);
        }
        if let (Some(send), Some(ack)) = (self.order_send_ms, self.exchange_ack_ms) {
            self.send_to_ack_ms = Some(ack - send);
        }
        if let (Some(ack), Some(fill)) = (self.exchange_ack_ms, self.ws_fill_ms) {
            self.ack_to_fill_ms = Some(fill - ack);
        }
        if let (Some(book), Some(send)) = (self.book_update_ms, self.order_send_ms) {
            self.book_to_send_ms = Some(send - book);
        }
        if let (Some(book), Some(fill)) = (self.book_update_ms, self.ws_fill_ms) {
            self.total_pipeline_ms = Some(fill - book);
        } else if self.total_pipeline_ms.is_none() {
            if let (Some(book), Some(ack)) = (self.book_update_ms, self.exchange_ack_ms) {
                self.total_pipeline_ms = Some(ack - book);
            } else if let (Some(det), Some(ack)) = (
                self.opportunity_detected_ms,
                self.exchange_ack_ms,
            ) {
                self.total_pipeline_ms = Some(ack - det);
            }
        }
        let diagnosis = self.diagnose();
        self.latency_diagnosis = Some(diagnosis);
    }

    /// What stands out in the profile.
    pub fn diagnose(&self) -> (s: String)
        ensures
            s@ == self.diagnosis_text(),
    {
        let mut issues: Vec<String> = Vec::new();
        assert(texts(issues@) =~= Seq::<Seq<char>>::empty());
        push_delay(
            &mut issues,
            self.book_to_send_ms,
            200,
            "STALE_BOOK(>200ms)",
            100,
            "STALE_BOOK(>100ms)",
        );
        push_delay(
            &mut issues,
            self.detection_to_send_ms,
            50,
            "PROCESSING_DELAY(>50ms)",
            20,
            "PROCESSING_DELAY(>20ms)",
        );
        push_delay(
            &mut issues,
            self.send_to_ack_ms,
            500,
            "SLOW_REST(>500ms)",
            200,
            "SLOW_REST(>200ms)",
        );
        push_label(&mut issues, value_or(self.buy_leg_rtt_ms, 0) > 400, "SLOW_BUY_LEG(>400ms)");
        push_label(&mut issues, value_or(self.sell_leg_rtt_ms, 0) > 400, "SLOW_SELL_LEG(>400ms)");
        push_delay(
            &mut issues,
            self.ack_to_fill_ms,
            200,
            "SLOW_WS_FILL(>200ms)",
            50,
            "SLOW_WS_FILL(>50ms)",
        );
        let moved: bool = match (self.detected_buy_ask, self.preflight_buy_ask) {
            (Some(d), Some(p)) => {
                let diff: i128 = if p >= d {
                    p as i128 - d as i128
                } else {
                    d as i128 - p as i128
                };
                d > 0 && diff * PCT_SCALE > 20_000_000 * d as i128
            },
            _ => false,
        };
        push_label(&mut issues, moved, "MARKET_MOVED(buy_ask)");
        if issues.len() == 0 {
            "OK".to_owned()
        } else {
            join(&issues, "|")
        }
    }
}

fn value_or(v: Option<i64>, default: i64) -> (r: i64)
    ensures
        r == or_else(v, default as int),
{
    match v {
        Some(x) => x,
        None => default,
    }
}

fn push_label(issues: &mut Vec<String>, holds: bool, label: &str)
    ensures
        texts(final(issues)@) == label_if(texts(old(issues)@), holds, label@),
{
    if holds {
        let s = label.to_owned();
        proof {
            lemma_texts_push(issues@, s);
        }
        issues.push(s);
    }
}

fn push_delay(
    issues: &mut Vec<String>,
    delay: Option<i64>,
    wide: i64,
    wide_label: &str,
    narrow: i64,
    narrow_label: &str,
)
    ensures
        texts(final(issues)@) == delay_label(
            texts(old(issues)@),
            or_else(delay, 0),
            wide as int,
            wide_label@,
            narrow as int,
            narrow_label@,
        ),
{
    let d: i64 = value_or(delay, 0);
    if d > wide {
        push_label(issues, true, wide_label);
    } else if d > narrow {
        push_label(issues, true, narrow_label);
    }
}

/// A profile of which only the book update is known.
pub open spec fn blank_latency(book_update_ms: Option<i64>) -> TradeLatency {
    TradeLatency {
        book_update_ms,
        opportunity_detected_ms: None,
        pre_flight_check_ms: None,
        order_send_ms: None,
        exchange_ack_ms: None,
        ws_fill_ms: None,
        detection_to_send_ms: None,
        send_to_ack_ms: None,
        ack_to_fill_ms: None,
        book_to_send_ms: None,
        total_pipeline_ms: None,
        buy_leg_rtt_ms: None,
        sell_leg_rtt_ms: None,
        reversal_rtt_ms: None,
        detected_buy_ask: None,
        detected_sell_bid: None,
        detected_spread_pct: None,
        preflight_buy_ask: None,
        preflight_sell_bid: None,
        preflight_spread_pct: None,
        latency_diagnosis: None,
    }
}

/// The profile as the fields of a JSON object, in the order of the stages.
/// What is not known is left out.
pub open spec fn latency_fields(l: TradeLatency) -> Seq<Seq<char>> {
    let none: Seq<Seq<char>> = seq![];
    let f = with_optional(none, "book_update_ms"@, int_value(l.book_update_ms));
    let f = with_optional(f, "opportunity_detected_ms"@, int_value(l.opportunity_detected_ms));
    let f = with_optional(f, "pre_flight_check_ms"@, int_value(l.pre_flight_check_ms));
    let f = with_optional(f, "order_send_ms"@, int_value(l.order_send_ms));
    let f = with_optional(f, "exchange_ack_ms"@, int_value(l.exchange_ack_ms));
    let f = with_optional(f, "ws_fill_ms"@, int_value(l.ws_fill_ms));
    let f = with_optional(f, "detection_to_send_ms"@, int_value(l.detection_to_send_ms));
    let f = with_optional(f, "send_to_ack_ms"@, int_value(l.send_to_ack_ms));
    let f = with_optional(f, "ack_to_fill_ms"@, int_value(l.ack_to_fill_ms));
    let f = with_optional(f, "book_to_send_ms"@, int_value(l.book_to_send_ms));
    let f = with_optional(f, "total_pipeline_ms"@, int_value(l.total_pipeline_ms));
    let f = with_optional(f, "buy_leg_rtt_ms"@, int_value(l.buy_leg_rtt_ms));
    let f = with_optional(f, "sell_leg_rtt_ms"@, int_value(l.sell_leg_rtt_ms));
    let f = with_optional(f, "reversal_rtt_ms"@, int_value(l.reversal_rtt_ms));
    let f = with_optional(f, "detected_buy_ask"@, price_value(l.detected_buy_ask));
    let f = with_optional(f, "detected_sell_bid"@, price_value(l.detected_sell_bid));
    let f = with_optional(f, "detected_spread_pct"@, pct_value(l.detected_spread_pct));
    let f = with_optional(f, "preflight_buy_ask"@, price_value(l.preflight_buy_ask));
    let f = with_optional(f, "preflight_sell_bid"@, price_value(l.preflight_sell_bid));
    let f = with_optional(f, "preflight_spread_pct"@, pct_value(l.preflight_spread_pct));
    with_optional(f, "latency_diagnosis"@, string_value(l.latency_diagnosis))
}

/// What a summary says of the round trips of the legs.
pub open spec fn legs_text(l: TradeLatency) -> Seq<char> {
    match (l.buy_leg_rtt_ms, l.sell_leg_rtt_ms) {
        (Some(b), Some(s)) => " (BuyLeg: "@ + int_text(b as int) + "ms, SellLeg: "@ + int_text(
            s as int,
        ) + "ms)"@,
        (Some(b), None) => " (BuyLeg: "@ + int_text(b as int) + "ms)"@,
        (None, Some(s)) => " (SellLeg: "@ + int_text(s as int) + "ms)"@,
        (None, None) => ""@,
    }
}

/// The diagnosis, a question mark before it is made.
pub open spec fn diagnosis_or_mark(l: TradeLatency) -> Seq<char> {
    match l.latency_diagnosis {
        Some(d) => d@,
        None => "?"@,
    }
}

/// A price, zero where there is none, with six digits behind the point.
pub open spec fn price6(p: Option<u64>) -> Seq<char> {
    fixed_text(
        match p {
            Some(v) => v as int,
            None => 0,
        },
        6,
    )
}

/// A percentage, zero where there is none, with three digits behind the point.
pub open spec fn pct3(p: Option<i128>) -> Seq<char> {
    fixed_text(
        match p {
            Some(v) => v as int,
            None => 0,
        },
        3,
    )
}

/// The first line of the summary: the delays and the diagnosis.
pub open spec fn summary_delays(l: TradeLatency, time: Seq<char>, coin: Seq<char>) -> Seq<char> {
    "["@ + time + "][Latency] "@ + coin + " | book→send: "@ + int_text(
        or_else(l.book_to_send_ms, -1),
    ) + "ms | send→ack: "@ + int_text(or_else(l.send_to_ack_ms, -1)) + "ms"@ + legs_text(l)
        + " | ack→fill: "@ + int_text(or_else(l.ack_to_fill_ms, -1)) + "ms | total: "@
        + int_text(or_else(l.total_pipeline_ms, -1)) + "ms | diag: "@ + diagnosis_or_mark(l)
}

/// The second line of the summary: the quotes.
pub open spec fn summary_quotes(l: TradeLatency, time: Seq<char>, coin: Seq<char>) -> Seq<char> {
    "["@ + time + "][Latency] "@ + coin + " | detected: ask="@ + price6(l.detected_buy_ask)
        + "/bid="@ + price6(l.detected_sell_bid) + " spread="@ + pct3(l.detected_spread_pct)
        + "% | preflight: ask="@ + price6(l.preflight_buy_ask) + "/bid="@ + price6(
        l.preflight_sell_bid,
    ) + " spread="@ + pct3(l.preflight_spread_pct) + "%"@
}

/// What is known when one or both legs of an opening trade failed.
pub struct LegFailure {
    pub coin: String,
    pub buy_exchange: Exchange,
    pub sell_exchange: Exchange,
    pub buy_ok: bool,
    pub sell_ok: bool,
    pub buy_rtt_ms: i64,
    pub sell_rtt_ms: i64,
    pub error: String,
    pub reversal: Option<Reversal>,
}

/// How the reversal of a filled leg went.
#[derive(Debug, Clone, Copy, PartialEq, Eq, Structural)]
pub struct Reversal {
    pub exchange: Exchange,
    pub rtt_ms: i64,
    pub ok: bool,
}

/// The word for a filled or a failed leg.
pub open spec fn leg_word(ok: bool) -> Seq<char> {
    if ok {
        "FILLED"@
    } else {
        "FAILED"@
    }
}

/// The outcome of a reversal.
pub open spec fn reversal_word(ok: bool) -> Seq<char> {
    if ok {
        "SUCCESS"@
    } else {
        "FAILED - MANUAL ACTION REQUIRED"@
    }
}

/// A delay right-aligned to four characters.
pub open spec fn delay4(ms: int) -> Seq<char> {
    right_aligned(int_text(ms), 4)
}

/// The round trip of a leg or of a reversal.
pub open spec fn leg_line(label: Seq<char>, exchange: Exchange, spacing: Seq<char>, ms: int, word: Seq<char>) -> Seq<char> {
    label + left_aligned(exchange.name_spec(), 7) + spacing + delay4(ms) + "ms ["@ + word + "]"@
}

/// The audit of a failed opening trade, line by line.
pub open spec fn audit_lines(l: TradeLatency, f: LegFailure, time: Seq<char>) -> Seq<Seq<char>> {
    let rule = repeated('═', 70);
    let head = seq![
        ""@,
        rule,
        "["@ + time + "][LiveTrading] 🚨 ONE-LEG FAILURE LATENCY AUDIT: "@ + f.coin@,
        rule,
        "  Failure Reason: "@ + f.error@,
        "  Round-Trip Timings:"@,
        "    • Combined Send→ACK RTT: "@ + int_text(
            or_else(
                l.send_to_ack_ms,
                crate::fixed::max_of(f.buy_rtt_ms as int, f.sell_rtt_ms as int),
            ),
        ) + "ms"@,
        leg_line(
            "    • Buy Leg  ("@,
            f.buy_exchange,
            "):   "@,
            f.buy_rtt_ms as int,
            leg_word(f.buy_ok),
        ),
        leg_line(
            "    • Sell Leg ("@,
            f.sell_exchange,
            "):  "@,
            f.sell_rtt_ms as int,
            leg_word(f.sell_ok),
        ),
    ];
    let timed = match f.reversal {
        Some(r) => head.push(
            leg_line(
                "    • Reversal ("@,
                r.exchange,
                "):  "@,
                r.rtt_ms as int,
                reversal_word(r.ok),
            ),
        ),
        None => head,
    };
    timed.push("  Pipeline Latency:"@).push(
        "    • Book Update → Send:    "@ + delay4(or_else(l.book_to_send_ms, -1)) + "ms"@,
    ).push(
        "    • Detection → Send:      "@ + delay4(or_else(l.detection_to_send_ms, -1)) + "ms"@,
    ).push(
        "    • Total Pipeline Time:   "@ + delay4(or_else(l.total_pipeline_ms, -1)) + "ms"@,
    ).push("    • Latency Diagnosis:     "@ + diagnosis_or_mark(l)).push(
        "  Quote & Spread Drift:"@,
    ).push(
        "    • Detected:  Ask="@ + price6(l.detected_buy_ask) + " / Bid="@ + price6(
            l.detected_sell_bid,
        ) + " (Spread: "@ + pct3(l.detected_spread_pct) + "%)"@,
    ).push(
        "    • Preflight: Ask="@ + price6(l.preflight_buy_ask) + " / Bid="@ + price6(
            l.preflight_sell_bid,
        ) + " (Spread: "@ + pct3(l.preflight_spread_pct) + "%)"@,
    ).push(rule).push(""@)
}

fn push_price6(out: &mut String, p: Option<u64>)
    ensures
        final(out)@ == old(out)@ + price6(p),
{
    let v: i128 = match p {
        Some(x) => x as i128,
        None => 0,
    };
    push_fixed(out, v, 6);
}

fn push_pct3(out: &mut String, p: Option<i128>)
    ensures
        final(out)@ == old(out)@ + pct3(p),
{
    let v: i128 = match p {
        Some(x) => x,
        None => 0,
    };
    push_fixed(out, v, 3);
}

fn push_line(lines: &mut Vec<String>, line: String)
    ensures
        texts(final(lines)@) == texts(old(lines)@).push(line@),
{
    proof {
        lemma_texts_push(lines@, line);
    }
    lines.push(line);
}

fn push_delay4(out: &mut String, ms: i64)
    ensures
        final(out)@ == old(out)@ + delay4(ms as int),
{
    let mut t = String::new();
    push_int(&mut t, ms);
    assert(t@ =~= int_text(ms as int));
    push_right_aligned(out, t.as_str(), 4);
}

fn delay_line(label: &str, ms: i64) -> (line: String)
    ensures
        line@ == label@ + delay4(ms as int) + "ms"@,
{
    let mut line = label.to_owned();
    push_delay4(&mut line, ms);
    line.append("ms");
    line
}

fn round_trip_line(label: &str, exchange: Exchange, spacing: &str, ms: i64, word: &str) -> (line: String)
    ensures
        line@ == leg_line(label@, exchange, spacing@, ms as int, word@),
{
    let mut line = label.to_owned();
    push_left_aligned(&mut line, exchange.name(), 7);
    line.append(spacing);
    push_delay4(&mut line, ms);
    line.append("ms [");
    line.append(word);
    line.append("]");
    line
}

fn is_stamp_ok(t: Option<i64>) -> (r: bool)
    ensures
        r == stamp_ok(t),
{
    match t {
        Some(ms) => ms >= 0,
        None => true,
    }
}

impl TradeLatency {
    /// Whether no time stamp is before the epoch.
    pub fn is_valid(&self) -> (r: bool)
        ensures
            r == self.wf(),
    {
        is_stamp_ok(self.book_update_ms) && is_stamp_ok(self.opportunity_detected_ms)
            && is_stamp_ok(self.order_send_ms) && is_stamp_ok(self.exchange_ack_ms)
            && is_stamp_ok(self.ws_fill_ms)
    }

    /// The profile as a JSON object.
    pub fn to_json(&self) -> (s: String)
        ensures
            s@ == object_text(latency_fields(*self)),
    {
        let mut f = Fields::new();
        f.put_int_if("book_update_ms", self.book_update_ms);
        f.put_int_if("opportunity_detected_ms", self.opportunity_detected_ms);
        f.put_int_if("pre_flight_check_ms", self.pre_flight_check_ms);
        f.put_int_if("order_send_ms", self.order_send_ms);
        f.put_int_if("exchange_ack_ms", self.exchange_ack_ms);
        f.put_int_if("ws_fill_ms", self.ws_fill_ms);
        f.put_int_if("detection_to_send_ms", self.detection_to_send_ms);
        f.put_int_if("send_to_ack_ms", self.send_to_ack_ms);
        f.put_int_if("ack_to_fill_ms", self.ack_to_fill_ms);
        f.put_int_if("book_to_send_ms", self.book_to_send_ms);
        f.put_int_if("total_pipeline_ms", self.total_pipeline_ms);
        f.put_int_if("buy_leg_rtt_ms", self.buy_leg_rtt_ms);
        f.put_int_if("sell_leg_rtt_ms", self.sell_leg_rtt_ms);
        f.put_int_if("reversal_rtt_ms", self.reversal_rtt_ms);
        f.put_price_if("detected_buy_ask", self.detected_buy_ask);
        f.put_price_if("detected_sell_bid", self.detected_sell_bid);
        f.put_pct_if("detected_spread_pct", self.detected_spread_pct);
        f.put_price_if("preflight_buy_ask", self.preflight_buy_ask);
        f.put_price_if("preflight_sell_bid", self.preflight_sell_bid);
        f.put_pct_if("preflight_spread_pct", self.preflight_spread_pct);
        f.put_string_if("latency_diagnosis", &self.latency_diagnosis);
        f.object()
    }

    fn push_diagnosis(&self, out: &mut String)
        ensures
            final(out)@ == old(out)@ + diagnosis_or_mark(*self),
    {
        match &self.latency_diagnosis {
            Some(d) => out.append(d.as_str()),
            None => out.append("?"),
        }
    }

    fn push_legs(&self, out: &mut String)
        ensures
            final(out)@ == old(out)@ + legs_text(*self),
    {
        let mut t = "".to_owned();
        match (self.buy_leg_rtt_ms, self.sell_leg_rtt_ms) {
            (Some(b), Some(s)) => {
                t = " (BuyLeg: ".to_owned();
                push_int(&mut t, b);
                t.append("ms, SellLeg: ");
                push_int(&mut t, s);
                t.append("ms)");
            },
            (Some(b), None) => {
                t = " (BuyLeg: ".to_owned();
                push_int(&mut t, b);
                t.append("ms)");
            },
            (None, Some(s)) => {
                t = " (SellLeg: ".to_owned();
                push_int(&mut t, s);
                t.append("ms)");
            },
            (None, None) => {},
        }
        out.append(t.as_str());
    }

    /// The two lines that summarise the profile of a trade. `time` is the text
    /// of the current time.
    pub fn log_summary(&self, coin: &str, time: &str) -> (lines: Vec<String>)
        ensures
            texts(lines@) == seq![
                summary_delays(*self, time@, coin@),
                summary_quotes(*self, time@, coin@),
            ],
    {
        let mut a = "[".to_owned();
        a.append(time);
        a.append("][Latency] ");
        a.append(coin);
        a.append(" | book→send: ");
        push_int(&mut a, value_or(self.book_to_send_ms, -1));
        a.append("ms | send→ack: ");
        push_int(&mut a, value_or(self.send_to_ack_ms, -1));
        a.append("ms");
        self.push_legs(&mut a);
        a.append(" | ack→fill: ");
        push_int(&mut a, value_or(self.ack_to_fill_ms, -1));
        a.append("ms | total: ");
        push_int(&mut a, value_or(self.total_pipeline_ms, -1));
        a.append("ms | diag: ");
        self.push_diagnosis(&mut a);
        let mut b = "[".to_owned();
        b.append(time);
        b.append("][Latency] ");
        b.append(coin);
        b.append(" | detected: ask=");
        push_price6(&mut b, self.detected_buy_ask);
        b.append("/bid=");
        push_price6(&mut b, self.detected_sell_bid);
        b.append(" spread=");
        push_pct3(&mut b, self.detected_spread_pct);
        b.append("% | preflight: ask=");
        push_price6(&mut b, self.preflight_buy_ask);
        b.append("/bid=");
        push_price6(&mut b, self.preflight_sell_bid);
        b.append(" spread=");
        push_pct3(&mut b, self.preflight_spread_pct);
        b.append("%");
        let mut lines: Vec<String> = Vec::new();
        assert(texts(lines@) =~= Seq::<Seq<char>>::empty());
        push_line(&mut lines, a);
        push_line(&mut lines, b);
        assert(texts(lines@) =~= seq![
            summary_delays(*self, time@, coin@),
            summary_quotes(*self, time@, coin@),
        ]);
        lines
    }

    /// The audit of an opening trade of which a leg failed, line by line.
    pub fn print_leg_failure_audit(&self, failure: &LegFailure, time: &str) -> (lines: Vec<String>)
        ensures
            texts(lines@) == audit_lines(*self, *failure, time@),
    {
        let mut rule = String::new();
        push_repeated(&mut rule, '═', 70);
        assert(rule@ =~= repeated('═', 70));
        let mut lines: Vec<String> = Vec::new();
        assert(texts(lines@) =~= Seq::<Seq<char>>::empty());
        push_line(&mut lines, "".to_owned());
        push_line(&mut lines, rule.clone());
        let mut title = "[".to_owned();
        title.append(time);
        title.append("][LiveTrading] 🚨 ONE-LEG FAILURE LATENCY AUDIT: ");
        title.append(failure.coin.as_str());
        push_line(&mut lines, title);
        push_line(&mut lines, rule.clone());
        let mut reason = "  Failure Reason: ".to_owned();
        reason.append(failure.error.as_str());
        push_line(&mut lines, reason);
        push_line(&mut lines, "  Round-Trip Timings:".to_owned());
        let longer: i64 = if failure.buy_rtt_ms >= failure.sell_rtt_ms {
            failure.buy_rtt_ms
        } else {
            failure.sell_rtt_ms
        };
        let mut combined = "    • Combined Send→ACK RTT: ".to_owned();
        push_int(&mut combined, value_or(self.send_to_ack_ms, longer));
        combined.append("ms");
        push_line(&mut lines, combined);
        push_line(
            &mut lines,
            round_trip_line(
                "    • Buy Leg  (",
                failure.buy_exchange,
                "):   ",
                failure.buy_rtt_ms,
                if failure.buy_ok {
                    "FILLED"
                } else {
                    "FAILED"
                },
            ),
        );
        push_line(
            &mut lines,
            round_trip_line(
                "    • Sell Leg (",
                failure.sell_exchange,
                "):  ",
                failure.sell_rtt_ms,
                if failure.sell_ok {
                    "FILLED"
                } else {
                    "FAILED"
                },
            ),
        );
        let ghost head = texts(lines@);
        if let Some(r) = failure.reversal {
            push_line(
                &mut lines,
                round_trip_line(
                    "    • Reversal (",
                    r.exchange,
                    "):  ",
                    r.rtt_ms,
                    if r.ok {
                        "SUCCESS"
                    } else {
                        "FAILED - MANUAL ACTION REQUIRED"
                    },
                ),
            );
        }
        push_line(&mut lines, "  Pipeline Latency:".to_owned());
        push_line(
            &mut lines,
            delay_line("    • Book Update → Send:    ", value_or(self.book_to_send_ms, -1)),
        );
        push_line(
            &mut lines,
            delay_line(
                "    • Detection → Send:      ",
                value_or(self.detection_to_send_ms, -1),
            ),
        );
        push_line(
            &mut lines,
            delay_line(
                "    • Total Pipeline Time:   ",
                value_or(self.total_pipeline_ms, -1),
            ),
        );
        let mut diag = "    • Latency Diagnosis:     ".to_owned();
        self.push_diagnosis(&mut diag);
        push_line(&mut lines, diag);
        push_line(&mut lines, "  Quote & Spread Drift:".to_owned());
        let mut det = "    • Detected:  Ask=".to_owned();
        push_price6(&mut det, self.detected_buy_ask);
        det.append(" / Bid=");
        push_price6(&mut det, self.detected_sell_bid);
        det.append(" (Spread: ");
        push_pct3(&mut det, self.detected_spread_pct);
        det.append("%)");
        push_line(&mut lines, det);
        let mut pre = "    • Preflight: Ask=".to_owned();
        push_price6(&mut pre, self.preflight_buy_ask);
        pre.append(" / Bid=");
        push_price6(&mut pre, self.preflight_sell_bid);
        pre.append(" (Spread: ");
        push_pct3(&mut pre, self.preflight_spread_pct);
        pre.append("%)");
        push_line(&mut lines, pre);
        push_line(&mut lines, rule);
        push_line(&mut lines, "".to_owned());
        assert(texts(lines@) =~= audit_lines(*self, *failure, time@));
        lines
    }
}

} // verus!
