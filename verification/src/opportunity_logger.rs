//! Every evaluated opportunity, traded or not: what is logged of it, and how often.
use crate::clock::{iso_time, iso_time_text};
use crate::json::{decimal_text, field, flag_text, json_string, object_text, Fields};
use crate::rejection::RejectionReason;
use crate::text::nat_text;
use vstd::hash_map::StringHashMap;
use vstd::prelude::*;

verus! {

/// An evaluated opportunity.
pub struct OpportunityRecord {
    /// Epoch nanoseconds.
    pub timestamp_ns: i64,
    pub symbol: String,
    /// `Binance->Bybit` or `Bybit->Binance`.
    pub direction: String,
    pub raw_bid: u64,
    pub raw_ask: u64,
    pub effective_buy_price: u64,
    pub effective_sell_price: u64,
    pub gross_spread_pct: i128,
    pub effective_spread_pct: i128,
    pub baseline_spread_pct: i128,
    pub spread_volatility_pct: i128,
    pub dynamic_entry_threshold_pct: i128,
    pub dynamic_exit_threshold_pct: i128,
    pub z_score: i128,
    pub spread_velocity: i128,
    pub expected_slippage_pct: i128,
    pub buy_fee_pct: i128,
    pub sell_fee_pct: i128,
    pub net_edge_pct: i128,
    pub signal_age_ms: u64,
    pub liquidity_ok: bool,
    pub data_fresh_ok: bool,
    pub entry_decision: bool,
    pub reject_reason: Option<RejectionReason>,
    pub exit_trigger_condition: Option<String>,
}

/// Seconds during which the same opportunity is not logged again with the same
/// outcome.
pub const THROTTLE_SECS: u64 = 1;

/// The key under which an opportunity is throttled.
pub open spec fn opportunity_key(symbol: Seq<char>, direction: Seq<char>) -> Seq<char> {
    symbol + "_"@ + direction
}

/// The outcome last logged of each opportunity, and when.
pub struct OpportunityThrottle {
    pub seen: StringHashMap<(Option<RejectionReason>, u64)>,
}

impl OpportunityThrottle {
    /// Whether an opportunity was logged with the same outcome less than the
    /// throttling time ago.
    pub open spec fn holds_back(
        &self,
        key: Seq<char>,
        reason: Option<RejectionReason>,
        now_ms: int,
    ) -> bool {
        &&& self.seen@.contains_key(key)
        &&& self.seen@[key].0 == reason
        &&& crate::stats::less(now_ms, self.seen@[key].1 as int) / 1000 < THROTTLE_SECS
    }

    /// Nothing has been logged.
    pub fn new() -> (t: OpportunityThrottle)
        ensures
            t.seen@ == Map::<Seq<char>, (Option<RejectionReason>, u64)>::empty(),
    {
        OpportunityThrottle { seen: StringHashMap::new() }
    }
}

fn same_outcome(a: Option<RejectionReason>, b: Option<RejectionReason>) -> (r: bool)
    ensures
        r == (a == b),
{
    match (a, b) {
        (Some(x), Some(y)) => x == y,
        (None, None) => true,
        _ => false,
    }
}

/// The JSON text of the rejection of an opportunity.
pub open spec fn reason_json(r: Option<RejectionReason>) -> Seq<char> {
    match r {
        Some(r) => json_string(r.name_spec()),
        None => "null"@,
    }
}

/// The JSON text of an optional condition.
pub open spec fn condition_json(c: Option<String>) -> Seq<char> {
    match c {
        Some(s) => json_string(s@),
        None => "null"@,
    }
}

/// The record as the fields of a JSON object.
pub open spec fn opportunity_fields(r: OpportunityRecord) -> Seq<Seq<char>> {
    let none: Seq<Seq<char>> = seq![];
    let f = none.push(field("timestamp"@, json_string(iso_time_text(r.timestamp_ns))));
    let f = f.push(field("symbol"@, json_string(r.symbol@)));
    let f = f.push(field("direction"@, json_string(r.direction@)));
    let f = f.push(field("raw_bid"@, decimal_text(r.raw_bid as int)));
    let f = f.push(field("raw_ask"@, decimal_text(r.raw_ask as int)));
    let f = f.push(field("effective_buy_price"@, decimal_text(r.effective_buy_price as int)));
    let f = f.push(field("effective_sell_price"@, decimal_text(r.effective_sell_price as int)));
    let f = f.push(field("gross_spread_pct"@, decimal_text(r.gross_spread_pct as int)));
    let f = f.push(field("effective_spread_pct"@, decimal_text(r.effective_spread_pct as int)));
    let f = f.push(field("baseline_spread_pct"@, decimal_text(r.baseline_spread_pct as int)));
    let f = f.push(field("spread_volatility_pct"@, decimal_text(r.spread_volatility_pct as int)));
    let f = f.push(
        field("dynamic_entry_threshold_pct"@, decimal_text(r.dynamic_entry_threshold_pct as int)),
    );
    let f = f.push(
        field("dynamic_exit_threshold_pct"@, decimal_text(r.dynamic_exit_threshold_pct as int)),
    );
    let f = f.push(field("z_score"@, decimal_text(r.z_score as int)));
    let f = f.push(field("spread_velocity"@, decimal_text(r.spread_velocity as int)));
    let f = f.push(field("expected_slippage_pct"@, decimal_text(r.expected_slippage_pct as int)));
    let f = f.push(field("buy_fee_pct"@, decimal_text(r.buy_fee_pct as int)));
    let f = f.push(field("sell_fee_pct"@, decimal_text(r.sell_fee_pct as int)));
    let f = f.push(field("net_edge_pct"@, decimal_text(r.net_edge_pct as int)));
    let f = f.push(field("signal_age_ms"@, nat_text(r.signal_age_ms as nat)));
    let f = f.push(field("liquidity_ok"@, flag_text(r.liquidity_ok)));
    let f = f.push(field("data_fresh_ok"@, flag_text(r.data_fresh_ok)));
    let f = f.push(field("entry_decision"@, flag_text(r.entry_decision)));
    let f = f.push(field("reject_reason"@, reason_json(r.reject_reason)));
    f.push(field("exit_trigger_condition"@, condition_json(r.exit_trigger_condition)))
}

impl OpportunityRecord {
    /// The record as a JSON object.
    pub fn to_json(&self) -> (s: String)
        ensures
            s@ == object_text(opportunity_fields(*self)),
    {
        let mut f = Fields::new();
        let time = iso_time(self.timestamp_ns);
        f.put_string("timestamp", time.as_str());
        f.put_string("symbol", self.symbol.as_str());
        f.put_string("direction", self.direction.as_str());
        f.put_decimal("raw_bid", self.raw_bid as i128);
        f.put_decimal("raw_ask", self.raw_ask as i128);
        f.put_decimal("effective_buy_price", self.effective_buy_price as i128);
        f.put_decimal("effective_sell_price", self.effective_sell_price as i128);
        f.put_decimal("gross_spread_pct", self.gross_spread_pct);
        f.put_decimal("effective_spread_pct", self.effective_spread_pct);
        f.put_decimal("baseline_spread_pct", self.baseline_spread_pct);
        f.put_decimal("spread_volatility_pct", self.spread_volatility_pct);
        f.put_decimal("dynamic_entry_threshold_pct", self.dynamic_entry_threshold_pct);
        f.put_decimal("dynamic_exit_threshold_pct", self.dynamic_exit_threshold_pct);
        f.put_decimal("z_score", self.z_score);
        f.put_decimal("spread_velocity", self.spread_velocity);
        f.put_decimal("expected_slippage_pct", self.expected_slippage_pct);
        f.put_decimal("buy_fee_pct", self.buy_fee_pct);
        f.put_decimal("sell_fee_pct", self.sell_fee_pct);
        f.put_decimal("net_edge_pct", self.net_edge_pct);
        f.put_nat("signal_age_ms", self.signal_age_ms);
        f.put_flag("liquidity_ok", self.liquidity_ok);
        f.put_flag("data_fresh_ok", self.data_fresh_ok);
        f.put_flag("entry_decision", self.entry_decision);
        match self.reject_reason {
            Some(r) => f.put_string("reject_reason", r.name()),
            None => f.put("reject_reason", "null"),
        }
        match &self.exit_trigger_condition {
            Some(c) => f.put_string("exit_trigger_condition", c.as_str()),
            None => f.put("exit_trigger_condition", "null"),
        }
        f.object()
    }
}

/// The line that is to be written of an opportunity at a time, nothing where it
/// is held back. What is written is noted.
pub fn log_opportunity(
    throttle: &mut OpportunityThrottle,
    record: &OpportunityRecord,
    now_ms: u64,
) -> (r: Option<String>)
    ensures
        ({
            let key = opportunity_key(record.symbol@, record.direction@);
            match r {
                Some(line) => {
                    &&& !old(throttle).holds_back(key, record.reject_reason, now_ms as int)
                    &&& line@ == object_text(opportunity_fields(*record))
                    &&& final(throttle).seen@ == old(throttle).seen@.insert(
                        key,
                        (record.reject_reason, now_ms),
                    )
                },
                None => {
                    &&& old(throttle).holds_back(key, record.reject_reason, now_ms as int)
                    &&& final(throttle).seen@ == old(throttle).seen@
                },
            }
        }),
{
    let mut key = record.symbol.clone();
    key.append("_");
    key.append(record.direction.as_str());
    if let Some(entry) = throttle.seen.get(key.as_str()) {
        if same_outcome(entry.0, record.reject_reason) && now_ms.saturating_sub(entry.1) / 1000
            < THROTTLE_SECS {
            return None;
        }
    }
    throttle.seen.insert(key, (record.reject_reason, now_ms));
    Some(record.to_json())
}

} // verus!
