use live_arb::exchanges::binance_private_ws::{user_event_of, UserEvent};
use live_arb::exchanges::bybit_private_ws::{private_topic_of, PrivateTopic};
use live_arb::exchanges::session::{
    is_heard, may_connect, on_feed_event, set_connected, FeedAction, FeedEvent, Frame, LeaveReason,
};
use live_arb::price_store::{
    new_status, new_store, CoinPrices, Exchange, ExchangeStatus, PriceStore,
};
use std::time::Instant;

fn full_store() -> PriceStore {
    let mut p = CoinPrices::default();
    p.binance = Some(10_000_000_000);
    p.bybit = Some(10_200_000_000);
    p.binance_updated = Some(Instant::now());
    p.bybit_updated = Some(Instant::now());
    p.binance_book.best_bid = Some(9_990_000_000);
    p.bybit_book.best_bid = Some(10_190_000_000);
    let mut store = new_store();
    store.put("BTC".to_string(), p);
    store
}

fn connected() -> ExchangeStatus {
    let mut s = new_status();
    set_connected(Exchange::Binance, &mut s, true);
    set_connected(Exchange::Bybit, &mut s, true);
    s
}

fn binance_after(s: &mut ExchangeStatus, store: &mut PriceStore, event: FeedEvent) -> FeedAction {
    on_feed_event(Exchange::Binance, s, store, event)
}

#[test]
fn a_session_goes_on_while_it_is_heard() {
    let mut s = connected();
    let mut store = full_store();
    for (event, action) in [
        (FeedEvent::EnableCheck, FeedAction::Wait),
        (FeedEvent::PingDue { silent_ms: 30_000 }, FeedAction::SendPing),
        (FeedEvent::Arrived(Frame::Text), FeedAction::Read),
        (FeedEvent::Arrived(Frame::Ping), FeedAction::SendPong),
        (FeedEvent::Arrived(Frame::Pong), FeedAction::Wait),
        (FeedEvent::Arrived(Frame::Other), FeedAction::Wait),
    ] {
        assert_eq!(binance_after(&mut s, &mut store, event), action);
    }
    assert!(s.binance_connected);
    assert_eq!(store.get("BTC").unwrap().binance, Some(10_000_000_000));
    assert!(is_heard(Frame::Pong) && is_heard(Frame::Text));
    assert!(!is_heard(Frame::Close) && !is_heard(Frame::Ended));
}

#[test]
fn a_session_that_ends_leaves_no_prices() {
    let mut off = connected();
    off.binance_enabled = false;
    for (mut s, event, reason) in [
        (off, FeedEvent::EnableCheck, LeaveReason::Disabled),
        (connected(), FeedEvent::PingDue { silent_ms: 30_001 }, LeaveReason::Silent),
        (connected(), FeedEvent::SendFailed, LeaveReason::SendFailed),
        (connected(), FeedEvent::Arrived(Frame::Close), LeaveReason::Closed),
        (connected(), FeedEvent::Arrived(Frame::Failed), LeaveReason::Failed),
        (connected(), FeedEvent::Arrived(Frame::Ended), LeaveReason::Ended),
    ] {
        let mut store = full_store();
        assert_eq!(binance_after(&mut s, &mut store, event), FeedAction::Leave(reason));
        assert!(!s.binance_connected && s.bybit_connected);
        let p = store.get("BTC").unwrap();
        assert_eq!((p.binance, p.binance_book.best_bid), (None, None));
        // The other exchange keeps its prices.
        assert_eq!((p.bybit, p.bybit_book.best_bid), (Some(10_200_000_000), Some(10_190_000_000)));
    }

    let mut s = connected();
    let mut store = full_store();
    on_feed_event(Exchange::Bybit, &mut s, &mut store, FeedEvent::SendFailed);
    assert!(s.binance_connected && !s.bybit_connected);
    let p = store.get("BTC").unwrap();
    assert_eq!((p.binance, p.bybit), (Some(10_000_000_000), None));
}

#[test]
fn a_disabled_exchange_does_not_connect() {
    let mut s = connected();
    let mut store = full_store();
    assert!(may_connect(Exchange::Bybit, &mut s, &mut store));
    assert_eq!(store.get("BTC").unwrap().bybit, Some(10_200_000_000));
    s.bybit_enabled = false;
    assert!(!may_connect(Exchange::Bybit, &mut s, &mut store));
    assert!(!s.bybit_connected);
    assert_eq!(store.get("BTC").unwrap().bybit, None);
}

#[test]
fn private_messages_are_told_apart() {
    assert_eq!(private_topic_of("", "execution"), PrivateTopic::Execution);
    assert_eq!(private_topic_of("", "order"), PrivateTopic::Order);
    assert_eq!(private_topic_of("", "wallet"), PrivateTopic::Wallet);
    assert_eq!(private_topic_of("", "position"), PrivateTopic::Other);
    assert_eq!(private_topic_of("pong", "order"), PrivateTopic::Other);
    assert_eq!(user_event_of("ORDER_TRADE_UPDATE"), UserEvent::Order);
    assert_eq!(user_event_of("ACCOUNT_UPDATE"), UserEvent::Account);
    assert_eq!(user_event_of("MARGIN_CALL"), UserEvent::Other);
}
