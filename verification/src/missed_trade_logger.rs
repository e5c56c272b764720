//! Opportunities whose spread exceeded the entry threshold but that were not
//! traded: what is logged of them, and how often.
use crate::clock::{epoch_millis, iso_time, iso_time_text, log_time, log_time_text};
use crate::json::{decimal_text, field, json_string, object_text, pct_value, with_optional, Fields};
use crate::latency::{latency_fields, TradeLatency};
use crate::price_store::Exchange;
use crate::text::{
    after_space, before_space, is_space, fixed_text, fixed_to_string, int_text, join, joined, left_aligned, lemma_texts_push,
    push_fixed, push_int, push_left_aligned, push_right_aligned, right_aligned, same_text, texts,
    trim, trimmed,
};
use vstd::hash_map::StringHashMap;
use vstd::prelude::*;

verus! {

/// An opportunity that was not traded.
pub struct MissedTradeRecord {
    /// Epoch nanoseconds.
    pub timestamp_ns: i64,
    pub coin: String,
    pub spread_pct: i128,
    pub threshold_pct: i128,
    pub buy_exchange: Exchange,
    pub sell_exchange: Exchange,
    pub buy_price: u64,
    pub sell_price: u64,
    pub book_spread_pct: Option<i128>,
    pub reason: String,
    pub binance_balance: i64,
    pub bybit_balance: i64,
    pub latency: Option<TradeLatency>,
}

/// Seconds during which the same coin is not logged again for the same category.
pub const THROTTLE_SECS: u64 = 5;

/// Where the category of a reason ends: at the first colon or bracket from `i` on.
pub open spec fn mark_from(s: Seq<char>, i: int) -> int
    decreases s.len() - i,
{
    if i >= s.len() || s[i] == ':' || s[i] == '(' {
        i
    } else {
        mark_from(s, i + 1)
    }
}

/// The category of a reason: what stands before the first colon or bracket.
pub open spec fn category(reason: Seq<char>) -> Seq<char> {
    trimmed(reason.take(mark_from(reason, 0)))
}

proof fn lemma_mark_in_range(s: Seq<char>, i: int)
    requires
        0 <= i <= s.len(),
    ensures
        i <= mark_from(s, i) <= s.len(),
    decreases s.len() - i,
{
    if i < s.len() && s[i] != ':' && s[i] != '(' {
        lemma_mark_in_range(s, i + 1);
    }
}

proof fn lemma_mark_at(s: Seq<char>, i: int, n: int)
    requires
        0 <= i <= n < s.len(),
        s[n] == ':',
        forall|k: int| i <= k < n ==> s[k] != ':' && s[k] != '(',
    ensures
        mark_from(s, i) == n,
    decreases n - i,
{
    if i < n {
        lemma_mark_at(s, i + 1, n);
    }
}

/// A reason that begins with a word and a colon is of the category that the word
/// names.
pub proof fn lemma_category(word: Seq<char>, reason: Seq<char>)
    requires
        0 < word.len() < reason.len(),
        word.is_prefix_of(reason),
        reason[word.len() as int] == ':',
        forall|k: int| 0 <= k < word.len() ==> word[k] != ':' && word[k] != '(',
        !is_space(word[0]),
        !is_space(word.last()),
    ensures
        category(reason) == word,
{
    let n = word.len() as int;
    assert(reason.take(n) =~= word);
    assert forall|k: int| 0 <= k < n implies reason[k] != ':' && reason[k] != '(' by {
        assert(reason.take(n)[k] == word[k]);
    }
    lemma_mark_at(reason, 0, n);
    assert(after_space(word, 0) == 0);
    assert(before_space(word, 0, n) == n);
    assert(word.subrange(0, n) =~= word);
}

/// The category of a reason, such as `COOLDOWN` of `COOLDOWN: remaining 15s`.
pub fn reason_category(reason: &str) -> (c: &str)
    ensures
        c@ == category(reason@),
{
    let n: usize = reason.unicode_len();
    let mut i: usize = 0;
    for c in it: reason.chars()
        invariant_except_break
            i == it.index(),
        invariant
            it.seq() == reason@,
            i <= n == reason@.len(),
            mark_from(reason@, 0) == mark_from(reason@, i as int),
        ensures
            i == mark_from(reason@, 0),
    {
        if c == ':' || c == '(' {
            break;
        }
        i = i + 1;
    }
    trim(reason.substring_char(0, i))
}

/// Whether a category is that of orders that were sent and failed. Those are
/// never held back.
pub open spec fn is_execution_failure(cat: Seq<char>) -> bool {
    cat == "LEG_FILL_FAILED"@ || cat == "BOTH_LEGS_FAILED"@ || cat == "ONE_LEG_FAILED"@
}

/// What was last logged of each coin: the category, and when.
pub struct ThrottleMap {
    pub seen: StringHashMap<(String, u64)>,
}

impl ThrottleMap {
    /// Whether a coin was logged under the same category less than the
    /// throttling time ago.
    pub open spec fn holds_back(&self, coin: Seq<char>, cat: Seq<char>, now_ms: int) -> bool {
        &&& self.seen@.contains_key(coin)
        &&& self.seen@[coin].0@ == cat
        &&& crate::stats::less(now_ms, self.seen@[coin].1 as int) / 1000 < THROTTLE_SECS
    }

    /// Nothing has been logged.
    pub fn new() -> (t: ThrottleMap)
        ensures
            t.seen@ == Map::<Seq<char>, (String, u64)>::empty(),
    {
        ThrottleMap { seen: StringHashMap::new() }
    }

    /// Whether a map is this one with a coin noted under a category at a time.
    pub open spec fn noted(
        &self,
        after: ThrottleMap,
        coin: Seq<char>,
        cat: Seq<char>,
        now_ms: u64,
    ) -> bool {
        &&& after.seen@.dom() == self.seen@.dom().insert(coin)
        &&& after.seen@[coin].0@ == cat
        &&& after.seen@[coin].1 == now_ms
        &&& forall|k: Seq<char>|
            k != coin && self.seen@.contains_key(k) ==> #[trigger] after.seen@[k] == self.seen@[k]
    }

    /// Whether a missed trade is to be logged at a time. When it is, it is noted,
    /// unless it is an execution failure, which is always logged.
    pub fn should_log_at(&mut self, coin: &str, reason: &str, now_ms: u64) -> (r: bool)
        ensures
            r == (is_execution_failure(category(reason@)) || !old(self).holds_back(
                coin@,
                category(reason@),
                now_ms as int,
            )),
            is_execution_failure(category(reason@)) || !r ==> final(self).seen@ == old(self).seen@,
            !is_execution_failure(category(reason@)) && r ==> old(self).noted(*final(self), coin@, category(reason@), now_ms),
    {
        let cat = reason_category(reason);
        if same_text(cat, "LEG_FILL_FAILED") || same_text(cat, "BOTH_LEGS_FAILED") || same_text(
            cat,
            "ONE_LEG_FAILED",
        ) {
            return true;
        }
        if let Some(entry) = self.seen.get(coin) {
            if same_text(entry.0.as_str(), cat) && now_ms.saturating_sub(entry.1) / 1000
                < THROTTLE_SECS {
                return false;
            }
        }
        self.seen.insert(coin.to_owned(), (cat.to_owned(), now_ms));
        true
    }

    /// Whether a missed trade is to be logged now. When it is, it is noted, unless
    /// it is an execution failure, which is always logged.
    pub fn should_log(&mut self, coin: &str, reason: &str) -> (r: bool)
        ensures
            is_execution_failure(category(reason@)) ==> r,
            is_execution_failure(category(reason@)) || !r ==> final(self).seen@ == old(self).seen@,
            !is_execution_failure(category(reason@)) ==> exists|now_ms: u64|
                {
                    &&& r == !#[trigger] old(self).holds_back(
                        coin@,
                        category(reason@),
                        now_ms as int,
                    )
                    &&& r ==> old(self).noted(*final(self), coin@, category(reason@), now_ms)
                },
    {
        let now_ms: u64 = epoch_millis();
        let ghost held = old(self).holds_back(coin@, category(reason@), now_ms as int);
        let r: bool = self.should_log_at(coin, reason, now_ms);
        assert(r == (is_execution_failure(category(reason@)) || !held));
        r
    }
}

/// The round trip of a leg, a question mark where it is not known.
pub open spec fn leg_ms(v: Option<i64>) -> Seq<char> {
    match v {
        Some(ms) => int_text(ms as int) + "ms"@,
        None => "?"@,
    }
}

/// `parts` with a labelled delay more, where it is known.
pub open spec fn with_delay(
    parts: Seq<Seq<char>>,
    label: Seq<char>,
    v: Option<i64>,
) -> Seq<Seq<char>> {
    match v {
        Some(ms) => parts.push(label + int_text(ms as int) + "ms"@),
        None => parts,
    }
}

/// What a log line says about the round trips.
pub open spec fn rtt_parts(l: TradeLatency) -> Seq<Seq<char>> {
    let none: Seq<Seq<char>> = seq![];
    let legs = "(BuyLeg: "@ + leg_ms(l.buy_leg_rtt_ms) + ", SellLeg: "@ + leg_ms(l.sell_leg_rtt_ms)
        + ")"@;
    match l.send_to_ack_ms {
        Some(ack) => none.push("RTT: send→ack="@ + int_text(ack as int) + "ms "@ + legs),
        None => if l.buy_leg_rtt_ms is Some || l.sell_leg_rtt_ms is Some {
            none.push("RTT: "@ + legs)
        } else {
            none
        },
    }
}

/// What a log line says about the latency of a trade, part by part.
pub open spec fn latency_parts(l: TradeLatency) -> Seq<Seq<char>> {
    let p = with_delay(rtt_parts(l), "Reversal: "@, l.reversal_rtt_ms);
    let p = with_delay(p, "book→send: "@, l.book_to_send_ms);
    let p = with_delay(p, "det→send: "@, l.detection_to_send_ms);
    let p = with_delay(p, "total: "@, l.total_pipeline_ms);
    match l.latency_diagnosis {
        Some(d) => p.push("diag: "@ + d@),
        None => p,
    }
}

/// What a log line says about the latency of a trade.
pub open spec fn latency_suffix(l: Option<TradeLatency>) -> Seq<char> {
    match l {
        Some(l) => if latency_parts(l).len() == 0 {
            ""@
        } else {
            " | LATENCY: "@ + joined(latency_parts(l), " | "@)
        },
        None => ""@,
    }
}

/// The spread of the books in a log line.
pub open spec fn book_text(p: Option<i128>) -> Seq<char> {
    match p {
        Some(v) => fixed_text(v as int, 3) + "%"@,
        None => "N/A"@,
    }
}

/// The line of the text log, with its newline.
pub open spec fn log_line(r: MissedTradeRecord) -> Seq<char> {
    "["@ + log_time_text(r.timestamp_ns) + "] MISSED | COIN: "@ + left_aligned(r.coin@, 8)
        + " | Spread: "@ + right_aligned(fixed_text(r.spread_pct as int, 3), 6) + "% (Min: "@
        + fixed_text(r.threshold_pct as int, 2) + "%) | BUY: "@ + left_aligned(
        r.buy_exchange.name_spec(),
        7,
    ) + " @ "@ + left_aligned(fixed_text(r.buy_price as int, 6), 10) + " | SELL: "@
        + left_aligned(r.sell_exchange.name_spec(), 7) + " @ "@ + left_aligned(
        fixed_text(r.sell_price as int, 6),
        10,
    ) + " | BookSpread: "@ + right_aligned(book_text(r.book_spread_pct), 6) + " | REASON: "@
        + r.reason@ + " | Balances: Binance=$"@ + fixed_text(r.binance_balance as int, 2)
        + ", Bybit=$"@ + fixed_text(r.bybit_balance as int, 2) + latency_suffix(r.latency) + "\n"@
}

/// The record as the fields of a JSON object.
pub open spec fn record_fields(r: MissedTradeRecord) -> Seq<Seq<char>> {
    let none: Seq<Seq<char>> = seq![];
    let f = none.push(field("timestamp"@, json_string(iso_time_text(r.timestamp_ns))));
    let f = f.push(field("coin"@, json_string(r.coin@)));
    let f = f.push(field("spread_pct"@, decimal_text(r.spread_pct as int)));
    let f = f.push(field("threshold_pct"@, decimal_text(r.threshold_pct as int)));
    let f = f.push(field("buy_exchange"@, json_string(r.buy_exchange.name_spec())));
    let f = f.push(field("sell_exchange"@, json_string(r.sell_exchange.name_spec())));
    let f = f.push(field("buy_price"@, decimal_text(r.buy_price as int)));
    let f = f.push(field("sell_price"@, decimal_text(r.sell_price as int)));
    let f = with_optional(f, "book_spread_pct"@, pct_value(r.book_spread_pct));
    let f = f.push(field("reason"@, json_string(r.reason@)));
    let f = f.push(field("binance_balance"@, decimal_text(r.binance_balance as int)));
    let f = f.push(field("bybit_balance"@, decimal_text(r.bybit_balance as int)));
    match r.latency {
        Some(l) => f.push(field("latency"@, object_text(latency_fields(l)))),
        None => f,
    }
}

fn push_part(parts: &mut Vec<String>, part: String)
    ensures
        texts(final(parts)@) == texts(old(parts)@).push(part@),
{
    proof {
        lemma_texts_push(parts@, part);
    }
    parts.push(part);
}

fn push_delay_part(parts: &mut Vec<String>, label: &str, v: Option<i64>)
    ensures
        texts(final(parts)@) == with_delay(texts(old(parts)@), label@, v),
{
    if let Some(ms) = v {
        let mut part = label.to_owned();
        push_int(&mut part, ms);
        part.append("ms");
        push_part(parts, part);
    }
}

fn leg_text(v: Option<i64>) -> (s: String)
    ensures
        s@ == leg_ms(v),
{
    match v {
        Some(ms) => {
            let mut s = String::new();
            push_int(&mut s, ms);
            s.append("ms");
            assert(s@ =~= int_text(ms as int) + "ms"@);
            s
        },
        None => "?".to_owned(),
    }
}

fn list_latency(l: &TradeLatency) -> (parts: Vec<String>)
    ensures
        texts(parts@) == latency_parts(*l),
{
    let mut parts: Vec<String> = Vec::new();
    assert(texts(parts@) =~= Seq::<Seq<char>>::empty());
    let mut legs = "(BuyLeg: ".to_owned();
    let buy = leg_text(l.buy_leg_rtt_ms);
    legs.append(buy.as_str());
    legs.append(", SellLeg: ");
    let sell = leg_text(l.sell_leg_rtt_ms);
    legs.append(sell.as_str());
    legs.append(")");
    if let Some(ack) = l.send_to_ack_ms {
        let mut part = "RTT: send→ack=".to_owned();
        push_int(&mut part, ack);
        part.append("ms ");
        part.append(legs.as_str());
        push_part(&mut parts, part);
    } else if l.buy_leg_rtt_ms.is_some() || l.sell_leg_rtt_ms.is_some() {
        let mut part = "RTT: ".to_owned();
        part.append(legs.as_str());
        push_part(&mut parts, part);
    }
    assert(texts(parts@) =~= rtt_parts(*l));
    push_delay_part(&mut parts, "Reversal: ", l.reversal_rtt_ms);
    push_delay_part(&mut parts, "book→send: ", l.book_to_send_ms);
    push_delay_part(&mut parts, "det→send: ", l.detection_to_send_ms);
    push_delay_part(&mut parts, "total: ", l.total_pipeline_ms);
    if let Some(d) = &l.latency_diagnosis {
        let mut part = "diag: ".to_owned();
        part.append(d.as_str());
        push_part(&mut parts, part);
    }
    parts
}

fn suffix_of(l: &Option<TradeLatency>) -> (s: String)
    ensures
        s@ == latency_suffix(*l),
{
    match l {
        Some(l) => {
            let parts = list_latency(l);
            if parts.len() == 0 {
                "".to_owned()
            } else {
                let mut s = " | LATENCY: ".to_owned();
                let body = join(&parts, " | ");
                s.append(body.as_str());
                s
            }
        },
        None => "".to_owned(),
    }
}

impl MissedTradeRecord {
    /// The line of the text log, with its newline.
    pub fn text_line(&self) -> (s: String)
        ensures
            s@ == log_line(*self),
    {
        let mut s = "[".to_owned();
        let time = log_time(self.timestamp_ns);
        s.append(time.as_str());
        s.append("] MISSED | COIN: ");
        push_left_aligned(&mut s, self.coin.as_str(), 8);
        s.append(" | Spread: ");
        let spread = fixed_to_string(self.spread_pct, 3);
        push_right_aligned(&mut s, spread.as_str(), 6);
        s.append("% (Min: ");
        push_fixed(&mut s, self.threshold_pct, 2);
        s.append("%) | BUY: ");
        push_left_aligned(&mut s, self.buy_exchange.name(), 7);
        s.append(" @ ");
        let buy = fixed_to_string(self.buy_price as i128, 6);
        push_left_aligned(&mut s, buy.as_str(), 10);
        s.append(" | SELL: ");
        push_left_aligned(&mut s, self.sell_exchange.name(), 7);
        s.append(" @ ");
        let sell = fixed_to_string(self.sell_price as i128, 6);
        push_left_aligned(&mut s, sell.as_str(), 10);
        s.append(" | BookSpread: ");
        let book = match self.book_spread_pct {
            Some(v) => {
                let mut b = fixed_to_string(v, 3);
                b.append("%");
                b
            },
            None => "N/A".to_owned(),
        };
        push_right_aligned(&mut s, book.as_str(), 6);
        s.append(" | REASON: ");
        s.append(self.reason.as_str());
        s.append(" | Balances: Binance=$");
        push_fixed(&mut s, self.binance_balance as i128, 2);
        s.append(", Bybit=$");
        push_fixed(&mut s, self.bybit_balance as i128, 2);
        let suffix = suffix_of(&self.latency);
        s.append(suffix.as_str());
        s.append("\n");
        s
    }

    /// The record as a JSON object.
    pub fn to_json(&self) -> (s: String)
        ensures
            s@ == object_text(record_fields(*self)),
    {
        let mut f = Fields::new();
        let time = iso_time(self.timestamp_ns);
        f.put_string("timestamp", time.as_str());
        f.put_string("coin", self.coin.as_str());
        f.put_decimal("spread_pct", self.spread_pct);
        f.put_decimal("threshold_pct", self.threshold_pct);
        f.put_string("buy_exchange", self.buy_exchange.name());
        f.put_string("sell_exchange", self.sell_exchange.name());
        f.put_decimal("buy_price", self.buy_price as i128);
        f.put_decimal("sell_price", self.sell_price as i128);
        f.put_pct_if("book_spread_pct", self.book_spread_pct);
        f.put_string("reason", self.reason.as_str());
        f.put_decimal("binance_balance", self.binance_balance as i128);
        f.put_decimal("bybit_balance", self.bybit_balance as i128);
        if let Some(l) = &self.latency {
            let body = l.to_json();
            f.put("latency", body.as_str());
        }
        f.object()
    }
}

/// What is written of a missed trade: a line of the text log and a line of the
/// JSON log.
pub struct MissedTradeLines {
    pub text: String,
    pub json: String,
}

/// What is to be written of a missed trade at a time, nothing where it is held
/// back.
pub fn log_missed_trade(throttle: &mut ThrottleMap, record: &MissedTradeRecord, now_ms: u64) -> (r:
    Option<MissedTradeLines>)
    ensures
        r is Some <==> (is_execution_failure(category(record.reason@)) || !old(throttle).holds_back(
            record.coin@,
            category(record.reason@),
            now_ms as int,
        )),
        r is Some ==> r->Some_0.text@ == log_line(*record),
        r is Some ==> r->Some_0.json@ == object_text(record_fields(*record)),
        r is None ==> final(throttle).seen@ == old(throttle).seen@,
        is_execution_failure(category(record.reason@)) ==> final(throttle).seen@ == old(throttle).seen@,
        r is Some && !is_execution_failure(category(record.reason@)) ==> old(throttle).noted(*final(throttle), record.coin@, category(record.reason@), now_ms),
{
    if !throttle.should_log_at(record.coin.as_str(), record.reason.as_str(), now_ms) {
        return None;
    }
    Some(MissedTradeLines { text: record.text_line(), json: record.to_json() })
}

/// A coin that has just been logged is held back under the same category for
/// the throttling time, and no longer; under another category it is not.
pub proof fn law_throttle_window(t: ThrottleMap, coin: Seq<char>, cat: Seq<char>, now_ms: int)
    requires
        t.seen@.contains_key(coin),
        t.seen@[coin].0@ == cat,
        now_ms >= t.seen@[coin].1,
    ensures
        t.holds_back(coin, cat, now_ms) <==> now_ms < t.seen@[coin].1 + 5000,
        forall|other: Seq<char>| other != cat ==> !#[trigger] t.holds_back(coin, other, now_ms),
{
}

} // verus!
