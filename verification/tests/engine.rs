use live_arb::clock::TimeOfDay;
use live_arb::config::{DynamicSpreadConfig, TradingParams};
use live_arb::exchanges::binance_api;
use live_arb::exchanges::binance_api::BinancePosition;
use live_arb::exchanges::bybit_api::BybitPosition;
use live_arb::exchanges::exchange_info::{
    load_binance_info, BinanceFilter, BinanceSymbolRules, ExchangeInfoCache,
};
use live_arb::latency::TradeLatency;
use live_arb::live_trading::close::{
    are_quotes_in_range, retry_delay_ms, settle_close, CloseFill, CloseFills, CloseRefusal,
    CloseStep,
};
use live_arb::live_trading::open::{
    audit_fills, is_book_in_range, order_side, settle_legs, usdt_symbol, Alignment, LegsOutcome,
    OpenCandidate, OpenContext, OpenFills, OpenRefusal, Quote, UnifiedFill,
};
use live_arb::live_trading::pass::Look;
use live_arb::live_trading::reasons::OpenFailure;
use live_arb::live_trading::scan::{
    enabled_prices, rank_candidates, refresh_due, ScanRefusal, Scanner,
};
use live_arb::live_trading::{are_prices_in_range, LiveTradingEngine, OpenLeg};
use live_arb::position_sync::{strip_usdt, sync_open_positions};
use live_arb::price_store::{
    new_funding_store, new_status, new_store, CoinPrices, Exchange, OrderBookEntry,
};
use live_arb::rejection::RejectionReason;
use std::time::Instant;

const USDT: i64 = 100_000_000;
const MS: i64 = 1_000_000;
const NOW: i64 = 1_700_000_000_000 * MS;

fn engine() -> LiveTradingEngine {
    let mut e = LiveTradingEngine::new(
        TradingParams::default(),
        "trades".to_string(),
        ExchangeInfoCache::new(),
    );
    e.binance_balance = 100 * USDT;
    e.bybit_balance = 100 * USDT;
    e
}

fn book(bid: f64, ask: f64) -> OrderBookEntry {
    OrderBookEntry {
        best_bid: Some((bid * 1e8).round() as u64),
        best_bid_qty: Some(1_000_000_000),
        best_ask: Some((ask * 1e8).round() as u64),
        best_ask_qty: Some(1_000_000_000),
    }
}

fn candidate() -> OpenCandidate {
    OpenCandidate {
        coin: "BTC".to_string(),
        buy_ex: Exchange::Binance,
        sell_ex: Exchange::Bybit,
        buy_book: book(99.9, 100.0),
        sell_book: book(102.0, 102.1),
        buy_price: 10_000_000_000,
        sell_price: 10_200_000_000,
        spread: 200_000_000,
        dynamic_entry: 60_000_000,
        spread_velocity: 0,
        latency: TradeLatency::new(Some(1000)),
    }
}

fn context() -> OpenContext {
    OpenContext {
        funding_hours: 8,
        now_ns: NOW,
        time: TimeOfDay { hour: 3, minute: 0, second: 0 },
        fresh: None,
    }
}

fn refusal(e: &mut LiveTradingEngine, c: &OpenCandidate, x: &OpenContext) -> OpenRefusal {
    e.decide_open(c, x).outcome.unwrap_err()
}

fn quote() -> Quote {
    Quote { ask: 10_000_000_000, bid: 10_200_000_000, spread_pct: 200_000_000 }
}

fn fill(id: &str, price: u64, qty: u64, fee: u64) -> UnifiedFill {
    UnifiedFill {
        order_id: id.to_string(),
        avg_price: price,
        filled_qty: qty,
        quote_qty: price as u128 * qty as u128 / 100_000_000,
        commission: fee,
    }
}

fn fills(qty: u64) -> OpenFills {
    OpenFills {
        quote: quote(),
        buy: fill("b", 10_000_000_000, qty, 1_000_000),
        sell: fill("s", 10_200_000_000, qty, 1_100_000),
        buy_qty: qty,
        sell_qty: qty,
        funding_hours: 8,
        now_ns: NOW,
    }
}

fn opened() -> LiveTradingEngine {
    let mut e = engine();
    e.book_open(&candidate(), &fills(20_000_000), TradeLatency::new(None));
    e
}

#[test]
fn a_good_opportunity_is_planned() {
    let mut e = engine();
    let d = e.decide_open(&candidate(), &context());
    assert!(d.set_leverage);
    let plan = d.outcome.unwrap();
    assert_eq!(plan.quote, quote());
    assert_eq!(plan.usdt, 2_000_000_000);
    assert_eq!(plan.quantity, 19_600_000);
    assert_eq!(plan.worst_buy_price, 10_035_000_000);
    assert_eq!(plan.worst_sell_price, 10_164_300_000);
    assert_eq!(plan.pre_flight, None);

    // The leverage is set once for each symbol.
    assert!(!e.decide_open(&candidate(), &context()).set_leverage);
}

#[test]
fn a_narrow_spread_leaves_less_room_to_slip() {
    let mut c = candidate();
    c.sell_book = book(101.1, 101.2);
    c.spread = 110_000_000;
    let plan = engine().decide_open(&c, &context()).outcome.unwrap();
    assert_eq!(plan.worst_buy_price, 10_020_000_000);
    assert_eq!(plan.worst_sell_price, 10_089_780_000);
}

#[test]
fn prices_and_quantities_follow_the_rules_of_the_exchange() {
    let filter = |kind: &str, value: &str| BinanceFilter {
        filter_type: kind.to_string(),
        tick_size: Some(value.to_string()),
        step_size: Some(value.to_string()),
        notional: None,
        min_notional: None,
    };
    let mut info = ExchangeInfoCache::new();
    let rules = BinanceSymbolRules {
        symbol: "BTCUSDT".to_string(),
        filters: vec![filter("PRICE_FILTER", "0.2"), filter("LOT_SIZE", "0.05")],
    };
    assert_eq!(load_binance_info(&mut info, &vec![rules]), 1);
    let mut e = LiveTradingEngine::new(TradingParams::default(), String::new(), info);
    e.binance_balance = 100 * USDT;
    e.bybit_balance = 100 * USDT;
    assert_eq!(e.round_price("BTCUSDT", Exchange::Binance, 10_035_000_000, true), 10_040_000_000);
    assert_eq!(e.round_price("BTCUSDT", Exchange::Binance, 10_035_000_000, false), 10_020_000_000);
    assert_eq!(e.round_price("BTCUSDT", Exchange::Bybit, 10_035_000_001, true), 10_035_000_001);
    assert_eq!(e.get_min_notional("BTCUSDT", Exchange::Binance), 500_000_000);
    assert_eq!(
        e.round_quantity_exact("BTCUSDT", Exchange::Binance, 19_607_843, 10_000_000_000),
        15_000_000
    );
    let plan = e.decide_open(&candidate(), &context()).outcome.unwrap();
    assert_eq!(plan.quantity, 15_000_000);
    assert_eq!(plan.worst_buy_price, 10_040_000_000);
}

#[test]
fn quantities_are_rounded_by_the_price() {
    let round = LiveTradingEngine::round_quantity;
    assert_eq!(round(199_999_999, 19_999_999), 100_000_000);
    assert_eq!(round(199_999_999, 20_000_000), 190_000_000);
    assert_eq!(round(199_999_999, 200_000_000), 199_000_000);
    assert_eq!(round(199_999_999, 5_000_000_000), 199_900_000);
    assert_eq!(round(199_999_999, 100_000_000_000), 199_990_000);
}

#[test]
fn the_engine_gates_opening() {
    let c = candidate();
    let x = context();

    assert_eq!(refusal(&mut opened(), &c, &x), OpenRefusal::AlreadyOpen);

    let mut e = engine();
    e.emergency_halt = true;
    assert_eq!(refusal(&mut e, &c, &x), OpenRefusal::EmergencyHalt);
    e.clear_halt();
    assert!(e.decide_open(&c, &x).outcome.is_ok());

    let mut e = engine();
    e.last_trade_time.insert("BTC".to_string(), NOW - 12_999 * MS);
    assert_eq!(refusal(&mut e, &c, &x), OpenRefusal::Cooldown { remaining_secs: 18 });
    assert!(e.is_on_cooldown_at("BTC", NOW));
    assert!(!e.is_on_cooldown_at("BTC", NOW + 20_000 * MS));
    assert!(!e.is_on_cooldown("BTC"));
    assert!(!e.is_on_cooldown("ETH"));

    for spread in [99_999_999, 1_000_000_001] {
        let mut far = candidate();
        far.spread = spread;
        assert_eq!(refusal(&mut engine(), &far, &x), OpenRefusal::SpreadOutOfRange);
    }

    let mut e = engine();
    for coin in ["A", "B", "C", "D", "E"] {
        let mut other = candidate();
        other.coin = coin.to_string();
        e.book_open(&other, &fills(20_000_000), TradeLatency::new(None));
    }
    assert_eq!(e.open_position_count(), 5);
    assert_eq!(refusal(&mut e, &c, &x), OpenRefusal::MaxPositions { open: 5 });

    let mut hourly = context();
    hourly.funding_hours = 1;
    assert_eq!(refusal(&mut engine(), &c, &hourly), OpenRefusal::OneHourFunding { hours: 1 });

    let mut near = context();
    near.time = TimeOfDay { hour: 7, minute: 56, second: 30 };
    assert_eq!(refusal(&mut engine(), &c, &near), OpenRefusal::NearFunding { seconds: 210 });
}

#[test]
fn the_books_gate_opening() {
    let x = context();
    let with = |buy: OrderBookEntry, sell: OrderBookEntry| {
        let mut c = candidate();
        c.buy_book = buy;
        c.sell_book = sell;
        c
    };
    let mut empty = book(99.9, 100.0);
    empty.best_ask = Some(0);
    assert_eq!(refusal(&mut engine(), &with(empty, book(102.0, 103.0)), &x), OpenRefusal::NoAsk);
    let mut empty = book(102.0, 103.0);
    empty.best_bid = None;
    assert_eq!(refusal(&mut engine(), &with(book(99.9, 100.0), empty), &x), OpenRefusal::NoBid);
    assert!(matches!(
        refusal(&mut engine(), &with(book(99.9, 100.0), book(100.0, 103.0)), &x),
        OpenRefusal::Crossed { spread_pct: 0, .. }
    ));
    assert!(matches!(
        refusal(&mut engine(), &with(book(99.9, 100.0), book(100.9, 103.0)), &x),
        OpenRefusal::BookSpreadBelowMin { .. }
    ));
    assert!(matches!(
        refusal(&mut engine(), &with(book(99.9, 100.0), book(111.0, 112.0)), &x),
        OpenRefusal::BookSpreadTooHigh { .. }
    ));

    // The fees of four legs, the exit spread and the buffer are 0.61%.
    let mut e = engine();
    e.params.entry_spread_threshold = 10_000_000;
    let c = with(book(99.9, 100.0), book(100.61, 103.0));
    assert!(matches!(
        refusal(&mut e, &c, &x),
        OpenRefusal::NotProfitable { required_pct: 61_000_000, .. }
    ));
    let c = with(book(99.9, 100.0), book(100.62, 103.0));
    assert!(e.decide_open(&c, &x).outcome.is_ok());
}

#[test]
fn balances_and_depth_gate_opening() {
    let c = candidate();
    let x = context();

    let mut e = engine();
    e.bybit_balance = USDT - 1;
    assert_eq!(refusal(&mut e, &c, &x), OpenRefusal::InsufficientBalance { quote: quote() });

    let mut thin = candidate();
    thin.buy_book.best_ask_qty = None;
    assert_eq!(refusal(&mut engine(), &thin, &x), OpenRefusal::NoAskQty { quote: quote() });
    let mut thin = candidate();
    thin.sell_book.best_bid_qty = Some(0);
    assert_eq!(refusal(&mut engine(), &thin, &x), OpenRefusal::NoBidQty { quote: quote() });
    let mut thin = candidate();
    thin.buy_book.best_ask_qty = Some(4_000_000);
    assert_eq!(
        refusal(&mut engine(), &thin, &x),
        OpenRefusal::LowLiquidity {
            quote: quote(),
            usdt: 400_000_000,
            buy_usdt: 400_000_000,
            sell_usdt: 102_000_000_000,
        }
    );

    // A depth of six USDT is taken as it is.
    let mut thin = candidate();
    thin.buy_book.best_ask_qty = Some(6_000_000);
    assert_eq!(engine().decide_open(&thin, &x).outcome.unwrap().usdt, 600_000_000);
    let mut thin = candidate();
    thin.buy_book.best_ask_qty = Some(5_200_000);
    assert_eq!(
        refusal(&mut engine(), &thin, &x),
        OpenRefusal::BelowMinNotional {
            quote: quote(),
            quantity: 5_000_000,
            min_notional: 500_000_000,
        }
    );

    let mut dear = candidate();
    dear.buy_book = book(999_000.0, 1_000_000.0);
    dear.sell_book = book(1_020_000.0, 1_030_000.0);
    assert!(matches!(refusal(&mut engine(), &dear, &x), OpenRefusal::ZeroQuantity { .. }));

    let mut e = engine();
    e.binance_balance = 20 * USDT;
    assert_eq!(
        refusal(&mut e, &c, &x),
        OpenRefusal::MarginBuy { quote: quote(), usdt: 2_000_000_000 }
    );
    e.binance_balance = 2_020_000_000;
    assert!(e.decide_open(&c, &x).outcome.is_ok());
    e.bybit_balance = 2_019_999_999;
    assert_eq!(
        refusal(&mut e, &c, &x),
        OpenRefusal::MarginSell { quote: quote(), usdt: 2_000_000_000 }
    );
}

#[test]
fn a_last_look_gates_opening() {
    let c = candidate();
    let look = |buy: OrderBookEntry, sell: OrderBookEntry| {
        let mut p = CoinPrices::default();
        p.binance_book = buy;
        p.bybit_book = sell;
        let mut x = context();
        x.fresh = Some(p);
        x
    };
    let x = look(book(99.9, 100.0), book(100.0, 102.0));
    assert_eq!(
        refusal(&mut engine(), &c, &x),
        OpenRefusal::PreFlightInvalid { ask: 10_000_000_000, bid: 10_000_000_000 }
    );
    let x = look(book(99.9, 100.0), book(100.5, 102.0));
    assert!(matches!(
        refusal(&mut engine(), &c, &x),
        OpenRefusal::PreFlightCollapsed { .. }
    ));
    let x = look(book(99.9, 100.0), book(101.0, 102.0));
    let plan = engine().decide_open(&c, &x).outcome.unwrap();
    assert_eq!(plan.pre_flight.unwrap().bid, 10_100_000_000);
    assert_eq!(plan.quote.bid, 10_200_000_000);

    let mut same = candidate();
    same.sell_ex = Exchange::Binance;
    assert_eq!(refusal(&mut engine(), &same, &context()), OpenRefusal::Unsupported);
}

#[test]
fn trying_to_open_reads_the_clock_and_the_stores() {
    let mut funding = new_funding_store();
    funding.or_insert("BTC".to_string(), 0);
    let store = new_store();
    let mut c = candidate();
    assert!(is_book_in_range(&c.buy_book) && c.latency.is_valid());
    let d = engine().try_open_position(&mut c, &funding, &store);
    assert_eq!(d.outcome, Err(OpenRefusal::OneHourFunding { hours: 0 }));
}

#[test]
fn trade_sizes_are_capped_by_the_leverage() {
    let mut e = engine();
    assert_eq!(
        e.calculate_trade_params(Exchange::Binance, Exchange::Bybit),
        Some((2_000_000_000, 10))
    );
    e.binance_balance = 150_000_000;
    assert_eq!(
        e.calculate_trade_params(Exchange::Binance, Exchange::Bybit),
        Some((1_500_000_000, 10))
    );
    e.params.trade_size_usdt = 499_999_999;
    assert_eq!(e.calculate_trade_params(Exchange::Binance, Exchange::Bybit), None);
    assert_eq!(e.get_balance(Exchange::Binance), 150_000_000);
}

#[test]
fn reasons_are_told_in_words() {
    let mut e = engine();
    e.binance_balance = 1_520_000_000;
    let c = candidate();
    let text = |r: &OpenRefusal| e.refusal_reason(&c, r).unwrap();
    assert_eq!(text(&OpenRefusal::AlreadyOpen), "ALREADY_OPEN: Position already open on this coin");
    assert_eq!(
        text(&OpenRefusal::Cooldown { remaining_secs: 18 }),
        "COOLDOWN: Coin in cooldown (18s remaining of 30s)"
    );
    assert_eq!(
        text(&OpenRefusal::MaxPositions { open: 5 }),
        "MAX_POSITIONS_REACHED: Currently 5/5 open positions (holding: )"
    );
    assert_eq!(
        text(&OpenRefusal::NearFunding { seconds: 210 }),
        "NEAR_FUNDING: Within 5m funding pause window (next funding in 3m 30s)"
    );
    assert_eq!(
        text(&OpenRefusal::NoAsk),
        "ORDERBOOK_EMPTY: Missing best ask in Binance order book"
    );
    assert_eq!(
        text(&OpenRefusal::BookSpreadBelowMin { quote: quote() }),
        "BOOK_SPREAD_BELOW_MIN: Real orderbook spread 2.000% < required entry threshold 1.00%"
    );
    assert_eq!(
        text(&OpenRefusal::NotProfitable { quote: quote(), required_pct: 61_000_000 }),
        "BOOK_SPREAD_NOT_PROFITABLE: Book spread 2.000% < min required 0.610% (fees 0.210% + exit 0.30% + 0.1% buffer)"
    );
    assert_eq!(
        text(&OpenRefusal::MarginBuy { quote: quote(), usdt: 2_000_000_000 }),
        "INSUFFICIENT_MARGIN_BUY: Binance balance $15.20 < required margin $20.20 for $20 trade at 10x"
    );
    assert!(e.refusal_reason(&c, &OpenRefusal::SpreadOutOfRange).is_none());

    let missed = e.missed_open(&c, &OpenRefusal::AlreadyOpen, NOW).unwrap();
    assert_eq!(missed.coin, "BTC");
    assert_eq!(missed.timestamp_ns, NOW);
    assert_eq!(missed.binance_balance, 1_520_000_000);
    assert_eq!(missed.spread_pct, 200_000_000);
    assert!(e.missed_open(&c, &OpenRefusal::SpreadOutOfRange, NOW).is_none());
}

#[test]
fn legs_settle() {
    let ok = |id: &str| -> Result<UnifiedFill, String> { Ok(fill(id, 1, 7, 0)) };
    let failed = || -> Result<UnifiedFill, String> { Err("no".to_string()) };
    let (b, y) = (Exchange::Binance, Exchange::Bybit);
    assert_eq!(settle_legs(b, y, &ok("1"), &ok("2")), LegsOutcome::BothFilled);
    assert_eq!(
        settle_legs(b, y, &ok("1"), &failed()),
        LegsOutcome::ReverseBuy { exchange: b, quantity: 7 }
    );
    assert_eq!(
        settle_legs(b, y, &failed(), &ok("2")),
        LegsOutcome::ReverseSell { exchange: y, quantity: 7 }
    );
    assert_eq!(settle_legs(b, y, &failed(), &failed()), LegsOutcome::BothFailed);
    assert_eq!(order_side(b, true), "BUY");
    assert_eq!(order_side(b, false), "SELL");
    assert_eq!(order_side(y, true), "Buy");
    assert_eq!(order_side(y, false), "Sell");
    assert_eq!(usdt_symbol("BTC"), "BTCUSDT");
    let binance_fill = binance_api::OrderFill {
        order_id: 77,
        symbol: "BTCUSDT".to_string(),
        side: "BUY".to_string(),
        avg_price: 5,
        filled_qty: 6,
        quote_qty: 7,
        commission: 8,
        commission_asset: "USDT".to_string(),
        realized_pnl: 0,
        timestamp: 9,
    };
    let unified = UnifiedFill::from_binance_fill(&binance_fill);
    assert_eq!(unified.order_id, "77");
    assert_eq!((unified.avg_price, unified.filled_qty, unified.commission), (5, 6, 8));
}

#[test]
fn failures_are_told() {
    let c = candidate();
    let failure = OpenFailure {
        outcome: LegsOutcome::ReverseBuy { exchange: Exchange::Binance, quantity: 7 },
        error: "timeout".to_string(),
        other_error: String::new(),
        buy_rtt_ms: 70,
        sell_rtt_ms: 240,
        reversal_rtt_ms: 80,
        reversed: true,
    };
    assert_eq!(
        failure.reason(&c).unwrap(),
        "LEG_FILL_FAILED: Sell on Bybit failed (timeout) [RTT: Bybit=240ms, Binance=70ms] — reversed Binance Buy (rev: 80ms)"
    );
    let audit = failure.audit(&c);
    assert!(audit.buy_ok && !audit.sell_ok);
    assert_eq!(audit.reversal.unwrap().rtt_ms, 80);
    let lines = c.latency.print_leg_failure_audit(&failure.audit(&c), "now");
    assert!(lines.iter().any(|l| l.contains("Reversal (Binance):    80ms [SUCCESS]")));
}

#[test]
fn a_failed_reversal_halts_the_engine() {
    let mut e = engine();
    let outcome = LegsOutcome::ReverseBuy { exchange: Exchange::Binance, quantity: 7 };
    e.note_failed_open("BTC", outcome, true, NOW);
    assert!(!e.emergency_halt);
    assert!(e.is_on_cooldown_at("BTC", NOW + 1000 * MS));
    e.note_failed_open("BTC", outcome, false, NOW);
    assert!(e.emergency_halt);
}

#[test]
fn excess_is_given_back() {
    let buy = fill("b", 10_000_000_000, 20_000_000, 0);
    let sell = fill("s", 10_200_000_000, 15_000_000, 0);
    let mut a = Alignment::start(&buy, &sell).unwrap();
    assert!(a.on_buy);
    assert_eq!(a.excess, 5_000_000);
    let order = a.next_order(&book(99.0, 100.0), &book(102.0, 103.0)).unwrap();
    assert!(!order.is_buy);
    assert_eq!(order.quantity, 5_000_000);
    assert_eq!(order.worst_price, 9_880_200_000);
    a.settle(Some(3_000_000));
    assert_eq!((a.buy_qty, a.sell_qty, a.excess), (17_000_000, 15_000_000, 2_000_000));
    let order = a.next_order(&book(99.0, 100.0), &book(102.0, 103.0)).unwrap();
    assert_eq!(order.worst_price, 9_850_500_000);
    a.settle(None);
    assert_eq!(a.buy_qty, 17_000_000);
    assert!(a.next_order(&book(99.0, 100.0), &book(102.0, 103.0)).is_none());

    let mut a = Alignment::start(&sell, &buy).unwrap();
    assert!(!a.on_buy);
    let order = a.next_order(&book(99.0, 100.0), &book(102.0, 103.0)).unwrap();
    assert!(order.is_buy);
    assert_eq!(order.worst_price, 10_320_600_000);
    a.settle(Some(5_000_000));
    assert_eq!((a.buy_qty, a.sell_qty), (15_000_000, 15_000_000));

    // A tenth of a percent is let pass.
    let close = fill("s", 10_200_000_000, 19_980_000, 0);
    assert!(Alignment::start(&buy, &close).is_none());
}

#[test]
fn slippage_is_audited() {
    let a = audit_fills(quote(), 10_030_000_000, 10_180_000_000);
    assert_eq!(a.buy_slippage, 30_000_000);
    assert_eq!(a.sell_slippage, 19_607_843);
    assert_eq!(a.entry_spread, 149_551_345);
    assert!(!a.is_high_slippage());
    assert!(audit_fills(quote(), 10_036_000_000, 10_200_000_000).is_high_slippage());
    assert!(audit_fills(quote(), 9_964_000_000, 10_200_000_000).is_high_slippage());
}

#[test]
fn an_open_trade_is_booked() {
    let mut e = engine();
    assert!(e.can_account());
    let r = e.book_open(&candidate(), &fills(20_000_000), TradeLatency::new(Some(5)));
    assert_eq!(r.id, 1);
    assert_eq!(r.total_fee, 2_100_000);
    assert_eq!(r.pnl_net, -2_100_000);
    assert_eq!(r.spread_after, 200_000_000);
    e.push_recent_trade(r.clone());
    assert_eq!(r.latency.unwrap().book_update_ms, Some(5));
    assert_eq!(e.trade_count, 1);
    assert_eq!(e.total_fees_paid, 2_100_000);
    assert_eq!(e.recent_trades.len(), 1);
    let p = &e.open_positions[e.position_index("BTC").unwrap()];
    assert_eq!(p.entry_spread, 200_000_000);
    assert_eq!(p.open_time_ns, NOW);
    // One percent up on the long leg, one percent up on the short leg.
    assert_eq!(p.unrealized_pnl(10_100_000_000, 10_302_000_000), 20_000_000 - 20_400_000 - 2_100_000);
}

fn close_fills() -> CloseFills {
    CloseFills {
        sell: CloseFill { order_id: "cs".to_string(), avg_price: 10_100_000_000, commission: 900_000 },
        buy: CloseFill { order_id: "cb".to_string(), avg_price: 10_110_000_000, commission: 800_000 },
        current_spread: 9_900_990,
        hold_secs: 40,
        now_ns: NOW + 40_000 * MS,
    }
}

#[test]
fn a_close_is_planned_at_the_current_market() {
    let e = opened();
    let plan = e.decide_close("BTC", &None, NOW + 40_999 * MS).unwrap();
    assert_eq!(plan.sell_on, Exchange::Binance);
    assert_eq!(plan.buy_on, Exchange::Bybit);
    assert_eq!((plan.sell_qty, plan.buy_qty), (20_000_000, 20_000_000));
    assert_eq!(plan.worst_sell_price, 9_950_000_000);
    assert_eq!(plan.worst_buy_price, 10_251_000_000);
    assert_eq!(plan.hold_secs, 40);

    let mut p = CoinPrices::default();
    p.binance_book = book(110.0, 111.0);
    p.bybit_book = book(112.0, 113.0);
    assert!(are_quotes_in_range(&Some(p)));
    let plan = e.decide_close("BTC", &Some(p), NOW).unwrap();
    assert_eq!(plan.worst_sell_price, 10_945_000_000);
    assert_eq!(plan.worst_buy_price, 11_356_500_000);

    let mut store = new_store();
    store.put("BTC".to_string(), p);
    assert_eq!(e.try_close_position("BTC", &store).unwrap().worst_sell_price, 10_945_000_000);
    assert_eq!(e.decide_close("ETH", &None, NOW), Err(CloseRefusal::NoPosition));

    let mut tiny = engine();
    tiny.book_open(&candidate(), &fills(50_000), TradeLatency::new(None));
    assert_eq!(tiny.decide_close("BTC", &None, NOW), Err(CloseRefusal::ZeroQuantity));
}

#[test]
fn a_close_is_booked() {
    let mut e = opened();
    let f = close_fills();
    assert!(f.is_in_range());
    let r = e.book_close("BTC", &f).unwrap();
    // Long: 1.0 on 0.2. Short: 0.9 on 0.2.
    assert_eq!(r.pnl_gross, 20_000_000 + 18_000_000);
    assert_eq!(r.total_fee, 2_100_000 + 1_700_000);
    assert_eq!(r.pnl_net, 38_000_000 - 3_800_000);
    assert_eq!(r.hold_duration_secs, Some(40));
    assert_eq!(r.exit_spread, Some(9_900_990));
    assert_eq!(r.id, 2);
    assert_eq!(e.open_position_count(), 0);
    assert_eq!((e.closed_count, e.winning_trades, e.losing_trades), (1, 1, 0));
    assert_eq!(e.total_pnl, 34_200_000);
    assert_eq!(e.total_fees_paid, 3_800_000);
    assert!(e.is_on_cooldown_at("BTC", NOW + 41_000 * MS));
    assert!(e.book_close("BTC", &f).is_none());
}

#[test]
fn a_half_closed_position_stays_for_review() {
    let mut e = opened();
    assert_eq!(e.open_positions[0].leg_left, None);
    e.leave_for_review("BTC", OpenLeg::Short, NOW);
    assert_eq!(e.open_position_count(), 1);
    assert_eq!(e.open_positions[0].leg_left, Some(OpenLeg::Short));
    assert_eq!(e.open_positions[0].buy_filled_qty, 20_000_000);
    assert_eq!(e.closed_count, 0);
    assert!(e.is_on_cooldown_at("BTC", NOW));
    assert_eq!(e.decide_close("BTC", &None, NOW), Err(CloseRefusal::UnderReview));

    // A coin without a position is only noted as traded.
    e.leave_for_review("ETH", OpenLeg::Long, NOW);
    assert_eq!(e.open_position_count(), 1);
}

#[test]
fn closing_legs_settle() {
    assert_eq!(settle_close(true, true), CloseStep::Done);
    assert_eq!(settle_close(true, false), CloseStep::RetryBuy);
    assert_eq!(settle_close(false, true), CloseStep::RetrySell);
    assert_eq!(settle_close(false, false), CloseStep::KeepOpen);
    assert_eq!(retry_delay_ms(0), None);
    assert_eq!(retry_delay_ms(1), Some(300));
    assert_eq!(retry_delay_ms(3), Some(900));
    assert_eq!(retry_delay_ms(4), None);
    let c = CloseFill::from_fill(&fill("x", 5, 6, 7));
    assert_eq!((c.order_id.as_str(), c.avg_price, c.commission), ("x", 5, 7));
}

#[test]
fn unrealized_profit_is_summed() {
    let e = opened();
    let mut store = new_store();
    assert_eq!(e.total_unrealized_pnl(&store), 0);
    let mut p = CoinPrices::default();
    p.binance = Some(10_100_000_000);
    store.put("BTC".to_string(), p);
    assert!(are_prices_in_range(&store));
    assert_eq!(e.total_unrealized_pnl(&store), 20_000_000 - 2_100_000);
    p.bybit = Some(u64::MAX);
    store.put("BTC".to_string(), p);
    assert!(!are_prices_in_range(&store));
}

#[test]
fn balances_are_refreshed() {
    let mut e = engine();
    e.refresh_balances(5, Some(6), 0, Some(7));
    assert_eq!((e.binance_balance, e.bybit_balance), (5, 7));
    e.refresh_balances(0, None, -1, None);
    assert_eq!((e.binance_balance, e.bybit_balance), (5, 7));
}

#[test]
fn history_is_restored() {
    let mut first = engine();
    let mut trades =
        vec![first.book_open(&candidate(), &fills(20_000_000), TradeLatency::new(None))];
    trades.push(first.book_close("BTC", &close_fills()).unwrap());
    let mut e = engine();
    let summary = e.restore_history(trades.clone());
    assert_eq!(summary.total_trades, 2);
    assert_eq!(e.trade_count, 2);
    assert_eq!(e.total_pnl, 34_200_000);
    assert_eq!(e.total_fees_paid, 2_100_000 + 3_800_000);
    assert_eq!((e.closed_count, e.winning_trades, e.losing_trades), (1, 1, 0));
    assert_eq!(e.recent_trades.len(), 2);

    let many: Vec<_> = (0..150)
        .map(|i| {
            let mut t = trades[0].clone();
            t.id = i;
            t
        })
        .collect();
    e.restore_history(many);
    assert_eq!(e.recent_trades.len(), 100);
    assert_eq!(e.recent_trades[0].id, 50);

    // The oldest trade makes room.
    let mut next = trades[0].clone();
    next.id = 999;
    e.push_recent_trade(next);
    assert_eq!(e.recent_trades.len(), 100);
    assert_eq!(e.recent_trades[0].id, 51);
    assert_eq!(e.recent_trades[99].id, 999);
}

fn binance_position(symbol: &str, amount: &str, entry: &str) -> BinancePosition {
    BinancePosition {
        symbol: symbol.to_string(),
        positionAmt: amount.to_string(),
        entryPrice: entry.to_string(),
        unRealizedProfit: "0".to_string(),
        leverage: "10".to_string(),
        positionSide: "BOTH".to_string(),
    }
}

fn bybit_position(symbol: &str, side: &str, size: &str, entry: &str) -> BybitPosition {
    BybitPosition {
        symbol: symbol.to_string(),
        side: side.to_string(),
        size: size.to_string(),
        avgPrice: entry.to_string(),
        unrealisedPnl: "0".to_string(),
        leverage: "10".to_string(),
    }
}

#[test]
fn hedged_positions_are_recovered() {
    let binance = vec![
        binance_position("BTCUSDT", "0.2", "100"),
        binance_position("ETHUSDT", "-3", "10"),
        binance_position("XRPUSDT", "5", "1"),
        binance_position("ADAUSDT", "5", "1"),
        binance_position("NILUSDT", "0", "1"),
    ];
    let bybit = vec![
        bybit_position("BTCUSDT", "Sell", "0.1", "102"),
        bybit_position("ETHUSDT", "Buy", "4", "9"),
        bybit_position("XRPUSDT", "Buy", "5", "1"),
        bybit_position("SOLUSDT", "Buy", "5", "1"),
    ];
    let r = sync_open_positions(&binance, &bybit, NOW);
    assert_eq!(r.positions.len(), 2);
    let btc = r.positions.iter().find(|p| p.coin == "BTC").unwrap();
    assert_eq!(btc.buy_exchange, Exchange::Binance);
    assert_eq!((btc.entry_buy_price, btc.entry_sell_price), (10_000_000_000, 10_200_000_000));
    assert_eq!((btc.buy_filled_qty, btc.sell_filled_qty), (10_000_000, 10_000_000));
    assert_eq!(btc.buy_quote_value, 1_000_000_000);
    assert_eq!(btc.entry_spread, 200_000_000);
    assert_eq!(btc.buy_order_id, "sync_bin_BTCUSDT");
    assert_eq!(btc.sell_order_id, "sync_byb_BTCUSDT");
    assert_eq!(btc.open_time_ns, NOW);
    assert_eq!(btc.funding_hours, 8);
    let eth = r.positions.iter().find(|p| p.coin == "ETH").unwrap();
    assert_eq!(eth.buy_exchange, Exchange::Bybit);
    assert_eq!(eth.buy_filled_qty, 300_000_000);
    assert_eq!(eth.entry_buy_price, 900_000_000);
    assert_eq!(eth.buy_order_id, "sync_byb_ETHUSDT");

    let finding = |symbol: &str| r.findings.iter().find(|f| f.symbol == symbol).unwrap();
    assert!(finding("BTCUSDT").is_hedged());
    assert!(!finding("XRPUSDT").is_hedged());
    assert!(finding("ADAUSDT").bybit.is_none());
    assert!(finding("SOLUSDT").binance.is_none());
    assert_eq!(r.findings.len(), 5);

    let mut e = engine();
    for p in r.positions {
        e.restore_position(p);
    }
    assert_eq!(e.open_position_count(), 2);
    assert_eq!(strip_usdt("BTCUSDT"), "BTC");
    assert_eq!(strip_usdt("USDTUSDT"), "");
}

fn fresh_prices() -> CoinPrices {
    let mut p = CoinPrices::default();
    p.binance = Some(10_000_000_000);
    p.bybit = Some(10_200_000_000);
    p.binance_book = book(99.9, 100.0);
    p.bybit_book = book(100.3, 100.4);
    p.binance_book_updated = Some(Instant::now());
    p.bybit_book_updated = Some(Instant::now());
    p.binance_book_epoch_ms = Some(7);
    p
}

/// A scanner that has seen ordinary spreads for a while.
fn warm_scanner(minutes: i64) -> (Scanner, i64) {
    let mut scanner = Scanner::new(DynamicSpreadConfig::default(), 0);
    let mut now = 0;
    for i in 0..2 * minutes {
        let mut p = fresh_prices();
        p.bybit_book = if i % 2 == 0 { book(100.2, 100.3) } else { book(100.25, 100.35) };
        scanner.scan_coin("BTC", &p, Some(0), Some(0), 2_000_000_000, now);
        now += 30_000 * MS;
    }
    (scanner, now)
}

#[test]
fn a_cold_scanner_finds_nothing() {
    let mut scanner = Scanner::new(DynamicSpreadConfig::default(), 0);
    let p = fresh_prices();
    let r = scanner.scan_coin("BTC", &p, Some(2001), Some(0), 2_000_000_000, 5 * MS);
    assert!(r.records.is_empty() && r.candidate.is_none());
    let r = scanner.scan_coin("BTC", &p, Some(2000), None, 2_000_000_000, 5 * MS);
    assert!(r.records.is_empty());
    let r = scanner.scan_coin("BTC", &p, Some(2000), Some(0), 2_000_000_000, 5 * MS);
    assert!(r.candidate.is_none());
    assert_eq!(r.records.len(), 2);
    assert_eq!(r.records[0].direction, "Binance->Bybit");
    assert_eq!(r.records[0].gross_spread_pct, 30_000_000);
    assert_eq!(r.records[0].reject_reason, Some(RejectionReason::INSUFFICIENT_HISTORY));
    assert_eq!(r.records[1].direction, "Bybit->Binance");
    assert_eq!(r.records[1].raw_ask, 10_040_000_000);

    let mut thin = fresh_prices();
    thin.binance_book.best_ask_qty = Some(1);
    let r = scanner.scan_coin("ETH", &thin, Some(0), Some(0), 2_000_000_000, 5 * MS);
    assert_eq!(r.records[0].reject_reason, Some(RejectionReason::INSUFFICIENT_LIQUIDITY));
    assert!(!r.records[0].liquidity_ok);

    let mut wild = fresh_prices();
    wild.bybit_book = book(120.0, 121.0);
    let r = scanner.scan_coin("SOL", &wild, Some(0), Some(0), 2_000_000_000, 5 * MS);
    assert_eq!(r.records[0].reject_reason, Some(RejectionReason::RISK_LIMIT));

    // However large a spread is, the statistics see it as it is.
    wild.binance_book = book(0.00000001, 0.00000001);
    wild.binance_book.best_ask_qty = Some(1_000_000_000_000_000_000);
    wild.bybit_book = book(1_000_000.0, 1_000_001.0);
    wild.bybit_book.best_bid_qty = Some(1_000_000_000_000_000_000);
    let r = scanner.scan_coin("WILD", &wild, Some(0), Some(0), 2_000_000_000, 5 * MS);
    assert_eq!(r.records[0].reject_reason, Some(RejectionReason::RISK_LIMIT));
    assert_eq!(r.records[0].effective_spread_pct, 999_999_999_999_990_000_000_000);
    let slot = scanner.from_binance.index.get("WILD").copied().unwrap();
    let stats = &scanner.from_binance.slots[slot];
    assert_eq!((stats.sample_count, stats.last_spread), (1, 999_999_999_999_990_000_000_000));
}

#[test]
fn a_spike_is_a_candidate() {
    let (mut scanner, now) = warm_scanner(40);
    let mut spike = fresh_prices();
    spike.bybit_book = book(100.8, 100.9);
    let r = scanner.scan_coin("BTC", &spike, Some(0), Some(0), 2_000_000_000, now);
    let c = r.candidate.unwrap();
    assert_eq!(r.records.len(), 1);
    assert!(r.records[0].entry_decision);
    assert_eq!(c.buy_ex, Exchange::Binance);
    assert_eq!(c.sell_ex, Exchange::Bybit);
    assert_eq!(c.spread, 80_000_000);
    assert_eq!(c.buy_price, 10_000_000_000);
    assert_eq!(c.latency.book_update_ms, Some(7));
    assert_eq!(c.latency.opportunity_detected_ms, Some(now / MS));
    assert_eq!(r.records[0].timestamp_ns, now);
    assert_eq!(c.latency.detected_spread_pct, Some(80_000_000));
    assert!(c.dynamic_entry >= 60_000_000 && c.dynamic_entry < 80_000_000);
}

#[test]
fn the_market_is_scanned_where_both_exchanges_are_enabled() {
    let (mut scanner, now) = warm_scanner(40);
    let mut store = new_store();
    let mut spike = fresh_prices();
    spike.bybit_book = book(100.8, 100.9);
    store.put("BTC".to_string(), spike);
    store.put("ETH".to_string(), fresh_prices());
    store.put("OLD".to_string(), CoinPrices::default());
    let mut status = new_status();
    status.bybit_enabled = false;
    let r = scanner.scan_market(&store, &status, 2_000_000_000, now);
    assert!(r.records.is_empty() && r.candidates.is_empty());
    status.bybit_enabled = true;
    let r = scanner.scan_market(&store, &status, 2_000_000_000, now);
    assert_eq!(r.candidates.len(), 1);
    assert_eq!(r.candidates[0].coin, "BTC");
    assert_eq!(r.records.len(), 3);
}

#[test]
fn convergence_closes_after_the_minimum_hold() {
    let (scanner, now) = warm_scanner(40);
    let mut e = opened();
    e.open_positions[0].open_time_ns = now - 30_000 * MS;
    let config = DynamicSpreadConfig::default();
    let params = TradingParams::default();
    let mut p = fresh_prices();
    p.bybit_book = book(99.9, 100.0);
    let signal_at = |e: &LiveTradingEngine, p: &CoinPrices, bybit: u64, near: bool| {
        scanner.close_signal(
            &e.open_positions[0],
            p,
            Some(10_000_000_000),
            Some(bybit),
            near,
            &params,
            now,
            &config,
        )
    };
    let signal = |e: &LiveTradingEngine, p: &CoinPrices, near: bool| {
        signal_at(e, p, 10_030_000_000, near)
    };
    let s = signal(&e, &p, false);
    assert_eq!(s.close.unwrap().0, 30_000_000);
    assert!(!s.force);
    assert!(signal(&e, &p, true).force);

    // Nothing is called for while the position is left for review.
    e.open_positions[0].leg_left = Some(OpenLeg::Long);
    let s = signal(&e, &p, true);
    assert!(s.close.is_none() && !s.force);
    e.open_positions[0].leg_left = None;

    // The prices are still more than 0.3% apart, until the position is overdue.
    assert!(signal_at(&e, &p, 10_030_000_100, false).close.is_none());
    e.open_positions[0].open_time_ns = now - 600_001 * MS;
    assert!(signal_at(&e, &p, 10_030_000_100, false).close.is_some());

    // Held for less than thirty seconds.
    e.open_positions[0].open_time_ns = now - 29_999 * MS;
    assert!(signal(&e, &p, false).close.is_none());

    // Still apart, and not overdue.
    e.open_positions[0].open_time_ns = now - 30_000 * MS;
    p.bybit_book = book(102.0, 102.1);
    assert!(signal(&e, &p, false).close.is_none());
    // Funding forces the close even where a book lacks a best price.
    p.bybit_book.best_bid = None;
    let s = signal(&e, &p, true);
    assert!(s.close.is_none() && s.force);
    assert!(!signal(&e, &p, false).force);
}

#[test]
fn a_pass_collects_what_is_to_be_closed() {
    let (scanner, now) = warm_scanner(40);
    let config = DynamicSpreadConfig::default();
    let mut e = opened();
    let mut c = candidate();
    c.coin = "ETH".to_string();
    e.book_open(&c, &fills(20_000_000), TradeLatency::new(None));
    e.open_positions[0].open_time_ns = now - 30_000 * MS;
    e.open_positions[1].open_time_ns = now - 30_000 * MS;
    let mut p = fresh_prices();
    p.bybit_book = book(99.9, 100.0);
    let seen = p;
    let look = |near_funding: bool| {
        Some(Look {
            prices: seen,
            binance: Some(10_000_000_000),
            bybit: Some(10_020_000_000),
            near_funding,
        })
    };
    let pass = scanner.collect_closes_at(&e, &vec![look(false), look(true)], now, &config);
    // Nothing was learnt of the spreads of ETH.
    assert_eq!(pass.due.len(), 1);
    assert_eq!((pass.due[0].coin.as_str(), pass.due[0].spread), ("BTC", 20_000_000));
    assert_eq!(pass.forced, vec!["ETH".to_string()]);
    let pass = scanner.collect_closes_at(&e, &vec![None, None], now, &config);
    assert!(pass.due.is_empty() && pass.forced.is_empty());

    // A look leaves out stale prices and exchanges that are off.
    let mut status = new_status();
    let l = Look::seen(seen, (Some(2000), Some(2001)), &status, true);
    assert_eq!((l.binance, l.bybit, l.near_funding), (seen.binance, None, true));
    assert!(seen.binance.is_some());
    status.binance_enabled = false;
    let l = Look::seen(seen, (Some(0), None), &status, false);
    assert_eq!((l.binance, l.bybit, l.near_funding), (None, None, false));

    // Prices that were never updated are not fresh.
    let mut store = new_store();
    store.put("BTC".to_string(), p);
    let funding = new_funding_store();
    let pass = scanner.collect_closes(&e, &store, &new_status(), &funding, now, &config);
    assert!(pass.due.is_empty() && pass.forced.is_empty());
    p.binance_updated = Some(Instant::now());
    p.bybit_updated = Some(Instant::now());
    p.bybit = Some(10_020_000_000);
    store.put("BTC".to_string(), p);
    let pass = scanner.collect_closes(&e, &store, &new_status(), &funding, now, &config);
    assert_eq!(pass.due.len(), 1);
}

#[test]
fn funding_forces_a_close_after_ten_seconds() {
    let e = opened();
    assert!(!e.may_force_close("BTC", NOW + 9_999 * MS));
    assert!(e.may_force_close("BTC", NOW + 10_000 * MS));
    assert!(!e.may_force_close("ETH", NOW + 10_000 * MS));
    let mut status = new_status();
    status.binance_enabled = false;
    assert_eq!(enabled_prices(&status, (Some(1), Some(2))), (None, Some(2)));
}

#[test]
fn switches_gate_execution() {
    let mut e = engine();
    let mut status = new_status();
    assert!(matches!(e.check_admission(&status), Some(ScanRefusal::TradingPaused)));
    status.trading_enabled = true;
    assert!(e.check_admission(&status).is_none());
    assert!(status.note_trade());
    assert!(matches!(
        e.check_admission(&status),
        Some(ScanRefusal::SessionLimit { limit: 1, taken: 1 })
    ));
    status.trade_limit = 0;
    assert!(e.check_admission(&status).is_none());
    assert!(!status.note_trade());
    for coin in ["A", "B", "C", "D", "E"] {
        let mut c = candidate();
        c.coin = coin.to_string();
        e.book_open(&c, &fills(20_000_000), TradeLatency::new(None));
    }
    match e.check_admission(&status) {
        Some(r) => assert_eq!(
            e.admission_reason(&r),
            "MAX_POSITIONS_REACHED: Currently 5/5 open positions (holding: A, B, C, D, E)"
        ),
        None => unreachable!(),
    }
    assert_eq!(e.open_coins().len(), 5);
    assert!(refresh_due(600) && !refresh_due(599));
}

#[test]
fn the_widest_spread_comes_first() {
    let with = |spread: i128| {
        let mut c = candidate();
        c.spread = spread;
        c
    };
    let order = rank_candidates(&vec![with(5), with(9), with(5), with(7)]);
    assert_eq!(order, vec![1, 3, 0, 2]);
}
