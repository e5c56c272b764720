use live_arb::config::TradingParams;
use live_arb::exchanges::exchange_info::ExchangeInfoCache;
use live_arb::latency::TradeLatency;
use live_arb::live_trading::close::{CloseFill, ClosePlan, CloseRefusal};
use live_arb::live_trading::open::{
    LegsOutcome, OpenCandidate, OpenPlan, Quote, UnifiedFill,
};
use live_arb::live_trading::runs::{CloseAction, CloseRun, LegOrder, OpenAction, OpenRun};
use live_arb::live_trading::{LiveTradingEngine, OpenLeg};
use live_arb::price_store::{Exchange, OrderBookEntry};

const MS: i64 = 1_000_000;
const NOW: i64 = 1_700_000_000_000 * MS;

fn engine() -> LiveTradingEngine {
    LiveTradingEngine::new(
        TradingParams::default(),
        "trades".to_string(),
        ExchangeInfoCache::new(),
    )
}

fn book(bid: u64, ask: u64) -> OrderBookEntry {
    OrderBookEntry {
        best_bid: Some(bid),
        best_bid_qty: Some(1_000_000_000),
        best_ask: Some(ask),
        best_ask_qty: Some(1_000_000_000),
    }
}

fn candidate() -> OpenCandidate {
    OpenCandidate {
        coin: "BTC".to_string(),
        buy_ex: Exchange::Binance,
        sell_ex: Exchange::Bybit,
        buy_book: book(9_990_000_000, 10_000_000_000),
        sell_book: book(10_200_000_000, 10_210_000_000),
        buy_price: 10_000_000_000,
        sell_price: 10_200_000_000,
        spread: 200_000_000,
        dynamic_entry: 60_000_000,
        spread_velocity: 0,
        latency: TradeLatency::new(None),
    }
}

fn plan() -> OpenPlan {
    OpenPlan {
        quote: Quote { ask: 10_000_000_000, bid: 10_200_000_000, spread_pct: 200_000_000 },
        usdt: 2_000_000_000,
        quantity: 20_000_000,
        worst_buy_price: 10_035_000_000,
        worst_sell_price: 10_164_300_000,
        pre_flight: None,
    }
}

fn fill(id: &str, price: u64, qty: u64) -> UnifiedFill {
    UnifiedFill {
        order_id: id.to_string(),
        avg_price: price,
        filled_qty: qty,
        quote_qty: price as u128 * qty as u128 / 100_000_000,
        commission: 1_000_000,
    }
}

fn started() -> OpenRun {
    OpenRun::start(&candidate(), plan())
}

#[test]
fn both_legs_open_a_position() {
    let mut run = started();
    assert_eq!(run.next(), OpenAction::SendBoth);
    let (buy, sell) = run.orders();
    assert_eq!(
        buy,
        LegOrder {
            exchange: Exchange::Binance,
            is_buy: true,
            quantity: 20_000_000,
            reduce_only: false,
            price: None,
        }
    );
    assert_eq!(
        sell,
        LegOrder {
            exchange: Exchange::Bybit,
            is_buy: false,
            quantity: 20_000_000,
            reduce_only: false,
            price: None,
        }
    );
    run.on_legs(
        Ok(fill("b", 10_000_000_000, 20_000_000)),
        Ok(fill("s", 10_200_000_000, 20_000_000)),
    );
    assert_eq!(run.next(), OpenAction::Book);

    let mut e = engine();
    let r = e.conclude_open(&candidate(), &run, 8, NOW, TradeLatency::new(Some(7))).unwrap();
    assert_eq!((r.id, r.total_fee, r.buy_order_id.as_str()), (1, 2_000_000, "b"));
    assert_eq!(r.latency.unwrap().book_update_ms, Some(7));
    assert_eq!(e.open_position_count(), 1);
    assert_eq!(e.open_positions[0].buy_filled_qty, 20_000_000);
    assert!(!e.emergency_halt);
}

#[test]
fn a_lone_leg_is_reversed_at_market() {
    let mut run = started();
    run.on_legs(Ok(fill("b", 10_000_000_000, 19_000_000)), Err("margin".to_string()));
    let back = LegOrder {
        exchange: Exchange::Binance,
        is_buy: false,
        quantity: 19_000_000,
        reduce_only: true,
        price: None,
    };
    assert_eq!(run.next(), OpenAction::Reverse(back));
    run.on_reversal(true);
    assert_eq!(run.next(), OpenAction::Fail);
    let f = run.failure(11, 22, 33);
    assert_eq!(
        f.outcome,
        LegsOutcome::ReverseBuy { exchange: Exchange::Binance, quantity: 19_000_000 }
    );
    assert_eq!((f.error.as_str(), f.other_error.as_str(), f.reversed), ("margin", "", true));
    assert_eq!((f.buy_rtt_ms, f.sell_rtt_ms, f.reversal_rtt_ms), (11, 22, 33));

    let mut e = engine();
    assert!(e.conclude_open(&candidate(), &run, 8, NOW, TradeLatency::new(None)).is_none());
    assert!(!e.emergency_halt);
    assert_eq!(e.open_position_count(), 0);
    assert!(e.is_on_cooldown_at("BTC", NOW + 1000 * MS));
}

#[test]
fn a_failed_reversal_halts() {
    let mut run = started();
    run.on_legs(Err("timeout".to_string()), Ok(fill("s", 10_200_000_000, 20_000_000)));
    let back = LegOrder {
        exchange: Exchange::Bybit,
        is_buy: true,
        quantity: 20_000_000,
        reduce_only: true,
        price: None,
    };
    assert_eq!(run.next(), OpenAction::Reverse(back));
    run.on_reversal(false);
    let mut e = engine();
    assert!(e.conclude_open(&candidate(), &run, 8, NOW, TradeLatency::new(None)).is_none());
    assert!(e.emergency_halt);
}

#[test]
fn two_failed_legs_halt() {
    let mut run = started();
    run.on_legs(Err("x".to_string()), Err("y".to_string()));
    assert_eq!(run.next(), OpenAction::Fail);
    let f = run.failure(1, 2, 0);
    assert_eq!(f.outcome, LegsOutcome::BothFailed);
    assert_eq!((f.error.as_str(), f.other_error.as_str()), ("x", "y"));
    let mut e = engine();
    assert!(e.conclude_open(&candidate(), &run, 8, NOW, TradeLatency::new(None)).is_none());
    assert!(e.emergency_halt);
}

#[test]
fn unequal_legs_are_aligned_twice_at_most() {
    let mut run = started();
    run.on_legs(
        Ok(fill("b", 10_000_000_000, 20_000_000)),
        Ok(fill("s", 10_200_000_000, 15_000_000)),
    );
    let first = LegOrder {
        exchange: Exchange::Binance,
        is_buy: false,
        quantity: 5_000_000,
        reduce_only: true,
        price: Some(9_970_020_000),
    };
    assert_eq!(run.next(), OpenAction::Align(first));
    run.on_alignment(Some(3_000_000));
    let second = LegOrder { quantity: 2_000_000, price: Some(9_940_050_000), ..first };
    assert_eq!(run.next(), OpenAction::Align(second));
    run.on_alignment(None);
    assert_eq!(run.next(), OpenAction::Book);
    let f = run.fills(4, NOW);
    assert_eq!((f.buy_qty, f.sell_qty), (17_000_000, 15_000_000));
    assert_eq!((f.buy.filled_qty, f.funding_hours), (20_000_000, 4));
    assert!(f.is_in_range());

    let mut e = engine();
    let r = e.conclude_open(&candidate(), &run, 4, NOW, TradeLatency::new(None)).unwrap();
    assert_eq!(r.buy_filled_qty, 17_000_000);
    assert_eq!(r.funding_interval_hours, Some(4));
}

#[test]
fn fills_are_brought_into_range() {
    let f = fill("b", 5, 6);
    let same = f.clone().bounded();
    assert_eq!((same.order_id.as_str(), same.avg_price, same.filled_qty), ("b", 5, 6));
    assert_eq!((same.quote_qty, same.commission), (f.quote_qty, 1_000_000));
    let wild = fill("b", u64::MAX, 6);
    assert!(!wild.is_in_range());
    let bounded = wild.bounded();
    assert!(bounded.is_in_range());
    assert_eq!((bounded.avg_price, bounded.filled_qty), (1_000_000_000_000_000_000, 6));
}

fn opened() -> LiveTradingEngine {
    let mut run = started();
    run.on_legs(
        Ok(fill("b", 10_000_000_000, 20_000_000)),
        Ok(fill("s", 10_200_000_000, 20_000_000)),
    );
    let mut e = engine();
    e.conclude_open(&candidate(), &run, 8, NOW, TradeLatency::new(None));
    e
}

fn close_plan() -> ClosePlan {
    opened().decide_close("BTC", &None, NOW + 40_000 * MS).unwrap()
}

fn closed(id: &str, price: u64) -> CloseFill {
    CloseFill { order_id: id.to_string(), avg_price: price, commission: 900_000 }
}

#[test]
fn both_legs_close_a_position() {
    let mut run = CloseRun::start(close_plan());
    assert_eq!(run.next(), CloseAction::SendBoth);
    let (sell, buy) = run.orders();
    assert_eq!((sell.exchange, sell.is_buy, sell.reduce_only), (Exchange::Binance, false, true));
    assert_eq!((buy.exchange, buy.is_buy, buy.reduce_only), (Exchange::Bybit, true, true));
    assert_eq!((sell.price, buy.price), (Some(9_950_000_000), Some(10_251_000_000)));
    run.on_legs(Some(closed("cs", 10_100_000_000)), Some(closed("cb", 10_110_000_000)));
    assert_eq!(run.next(), CloseAction::Book);

    let mut e = opened();
    let r = e.conclude_close("BTC", &run, 9_900_990, NOW + 40_000 * MS).unwrap();
    assert_eq!(r.pnl_gross, 38_000_000);
    assert_eq!(r.total_fee, 3_800_000);
    assert_eq!(r.hold_duration_secs, Some(40));
    assert_eq!(e.open_position_count(), 0);
    assert_eq!((e.closed_count, e.winning_trades), (1, 1));
}

#[test]
fn a_leg_that_is_left_is_tried_again() {
    let mut run = CloseRun::start(close_plan());
    run.on_legs(Some(closed("cs", 10_100_000_000)), None);
    let again = LegOrder {
        exchange: Exchange::Bybit,
        is_buy: true,
        quantity: 20_000_000,
        reduce_only: true,
        price: None,
    };
    assert_eq!(run.next(), CloseAction::Retry { delay_ms: 300, order: again });
    run.on_retry(None);
    assert_eq!(run.next(), CloseAction::Retry { delay_ms: 600, order: again });
    run.on_retry(Some(closed("cb", 10_110_000_000)));
    assert_eq!(run.next(), CloseAction::Book);
    let mut e = opened();
    let r = e.conclude_close("BTC", &run, 0, NOW + 41_000 * MS).unwrap();
    assert_eq!(r.close_buy_order_id.as_deref(), Some("cb"));
}

#[test]
fn three_failed_retries_leave_the_position_for_review() {
    let mut run = CloseRun::start(close_plan());
    run.on_legs(None, Some(closed("cb", 10_110_000_000)));
    let mut n = 0;
    while let CloseAction::Retry { delay_ms, order } = run.next() {
        n += 1;
        assert_eq!(delay_ms, 300 * n);
        assert_eq!((order.exchange, order.is_buy), (Exchange::Binance, false));
        run.on_retry(None);
    }
    assert_eq!(n, 3);
    assert_eq!(run.next(), CloseAction::Review);
    let mut e = opened();
    let (pnl, fees, trades) = (e.total_pnl, e.total_fees_paid, e.trade_count);
    assert!(e.conclude_close("BTC", &run, 0, NOW).is_none());
    assert_eq!((e.open_position_count(), e.closed_count), (1, 0));
    assert_eq!((e.total_pnl, e.total_fees_paid, e.trade_count), (pnl, fees, trades));
    assert_eq!(e.open_positions[0].leg_left, Some(OpenLeg::Long));

    let mut other = CloseRun::start(close_plan());
    other.on_legs(Some(closed("cs", 10_100_000_000)), None);
    for _ in 0..3 {
        other.on_retry(None);
    }
    let mut e = opened();
    assert!(e.conclude_close("BTC", &other, 0, NOW).is_none());
    assert_eq!(e.open_positions[0].leg_left, Some(OpenLeg::Short));
    assert_eq!(e.decide_close("BTC", &None, NOW), Err(CloseRefusal::UnderReview));
}

#[test]
fn a_close_that_failed_on_both_legs_keeps_the_position() {
    let mut run = CloseRun::start(close_plan());
    run.on_legs(None, None);
    assert_eq!(run.next(), CloseAction::KeepOpen);
    let mut e = opened();
    assert!(e.conclude_close("BTC", &run, 0, NOW).is_none());
    assert_eq!(e.open_position_count(), 1);
}
