use live_arb::exchanges::binance_api::{BinanceClient, BinanceOrderResponse};
use live_arb::exchanges::bybit_api::{
    BybitClient, BybitOrderDetail, BybitOrderResult, BybitResponse,
};
use live_arb::exchanges::execution::{DetailError, FILL_TIMEOUT_MS};
use live_arb::exchanges::fill_channel::{new_pending_fill_map, FillEvent};

fn order(status: &str, executed: &str) -> BinanceOrderResponse {
    BinanceOrderResponse {
        orderId: 77,
        symbol: "BTCUSDT".to_string(),
        status: status.to_string(),
        side: "BUY".to_string(),
        origQty: "0.5".to_string(),
        executedQty: executed.to_string(),
        avgPrice: String::new(),
        cumQuote: String::new(),
        updateTime: 1234,
    }
}

fn event(is_expired: bool) -> FillEvent {
    FillEvent {
        order_id: "77".to_string(),
        avg_price: 10_000_000_000,
        filled_qty: 50_000_000,
        quote_qty: 5_000_000_000,
        commission: 2_500_000,
        timestamp: 99,
        is_expired,
    }
}

#[test]
fn a_binance_order_waits_before_it_is_sent() {
    let mut pending = new_pending_fill_map();
    let (ticket, receiver) =
        BinanceClient::begin_order(&mut pending, "BTCUSDT", "BUY", 50_000_000, false, Some(7));
    assert!(pending.contains(&ticket.client_order_id));
    assert!(ticket.client_order_id.starts_with("arb"));
    assert_eq!((ticket.symbol.as_str(), ticket.side.as_str()), ("BTCUSDT", "BUY"));
    assert_eq!((ticket.quantity, ticket.reduce_only, ticket.price), (50_000_000, false, Some(7)));

    let id = ticket.client_order_id.as_str();
    assert_eq!(BinanceClient::after_placing(&mut pending, id, &Ok(order("NEW", ""))), None);
    assert!(pending.contains(id));

    assert!(pending.resolve("other", "78", event(false)).is_none());
    let notice = pending.resolve(id, "77", event(false)).unwrap();
    assert_eq!((notice.id.as_str(), notice.event.avg_price), (id, 10_000_000_000));
    assert!(notice.deliver());
    assert!(!pending.contains(id));
    let came = receiver.into_end().try_recv().unwrap();
    let f = BinanceClient::after_waiting(&mut pending, id, &order("NEW", ""), &Some(came))
        .unwrap()
        .unwrap();
    assert_eq!((f.order_id, f.avg_price, f.filled_qty), (77, 10_000_000_000, 50_000_000));
    assert_eq!(FILL_TIMEOUT_MS, 500);
}

#[test]
fn a_refused_binance_order_no_longer_waits() {
    let mut pending = new_pending_fill_map();
    let (ticket, _receiver) =
        BinanceClient::begin_order(&mut pending, "BTCUSDT", "BUY", 1, true, None);
    let id = ticket.client_order_id.as_str();
    assert_eq!(
        BinanceClient::after_placing(&mut pending, id, &Err("refused".to_string())),
        Some("refused".to_string())
    );
    assert!(!pending.contains(id));

    let (ticket, _receiver) =
        BinanceClient::begin_order(&mut pending, "BTCUSDT", "BUY", 1, true, None);
    let id = ticket.client_order_id.as_str();
    assert_eq!(
        BinanceClient::after_placing(&mut pending, id, &Ok(order("EXPIRED", "0"))),
        Some(
            "Binance IOC order 77 expired/canceled with 0 fill (slippage limit exceeded)"
                .to_string()
        )
    );
    assert!(!pending.contains(id));
}

#[test]
fn a_binance_order_without_an_event_is_asked_for() {
    let mut pending = new_pending_fill_map();
    let (ticket, _receiver) =
        BinanceClient::begin_order(&mut pending, "BTCUSDT", "BUY", 1, false, None);
    let id = ticket.client_order_id.as_str();
    let placed = order("NEW", "");
    assert!(BinanceClient::after_waiting(&mut pending, id, &placed, &None).is_none());
    assert!(!pending.contains(id));

    let mut detail = order("FILLED", "0.5");
    detail.avgPrice = "100".to_string();
    detail.cumQuote = "50".to_string();
    let f = BinanceClient::after_query(&placed, &Ok(detail)).unwrap();
    assert_eq!((f.avg_price, f.commission), (10_000_000_000, 2_500_000));
    assert_eq!(
        BinanceClient::after_query(&placed, &Err(DetailError::Query("down".to_string())))
            .unwrap_err(),
        "Binance order 77 WS timeout + REST query failed: down. Check exchange manually."
    );
    let unreadable =
        DetailError::Parse { error: "eof".to_string(), body: "{".to_string() };
    assert_eq!(
        BinanceClient::after_query(&placed, &Err(unreadable)).unwrap_err(),
        "Binance order 77 WS timeout + REST detail parse failed: eof | body: {"
    );
    assert_eq!(
        BinanceClient::after_waiting(&mut pending, id, &placed, &Some(event(true)))
            .unwrap()
            .unwrap_err(),
        "Binance order 77 expired with 0 fill (IOC limit missed — slippage exceeded)"
    );
}

fn reply(code: i32) -> BybitResponse<BybitOrderResult> {
    BybitResponse {
        retCode: code,
        retMsg: "no".to_string(),
        result: BybitOrderResult { orderId: "abc".to_string(), orderLinkId: "l".to_string() },
    }
}

#[test]
fn a_bybit_order_runs_its_course() {
    let mut pending = new_pending_fill_map();
    let (ticket, _receiver) =
        BybitClient::begin_order(&mut pending, "BTCUSDT", "Buy", 50_000_000, false, None);
    let id = ticket.order_link_id.as_str();
    assert!(id.starts_with("arb-"));
    assert!(pending.contains(id));
    assert_eq!(
        BybitClient::after_placing(&mut pending, id, &Ok(reply(0))),
        Ok("abc".to_string())
    );
    assert!(pending.contains(id));
    let f = BybitClient::after_waiting(&mut pending, &ticket, "abc", &Some(event(false)))
        .unwrap()
        .unwrap();
    assert_eq!((f.order_id.as_str(), f.side.as_str(), f.timestamp), ("abc", "Buy", 99));
    assert!(BybitClient::after_waiting(&mut pending, &ticket, "abc", &Some(event(true)))
        .unwrap()
        .is_err());
    assert!(BybitClient::after_waiting(&mut pending, &ticket, "abc", &None).is_none());
    assert!(!pending.contains(id));

    let f = BybitClient::after_query(&ticket, "abc", &None);
    assert_eq!((f.avg_price, f.filled_qty), (0, 50_000_000));
    let detail = BybitOrderDetail {
        orderId: "abc".to_string(),
        symbol: "BTCUSDT".to_string(),
        side: "Buy".to_string(),
        orderStatus: "Filled".to_string(),
        avgPrice: "100".to_string(),
        qty: "0.5".to_string(),
        cumExecQty: "0.4".to_string(),
        cumExecValue: "40".to_string(),
        cumExecFee: "-0.02".to_string(),
        updatedTime: "5".to_string(),
    };
    let f = BybitClient::after_query(&ticket, "abc", &Some(detail));
    assert_eq!((f.avg_price, f.filled_qty, f.commission), (10_000_000_000, 40_000_000, 2_000_000));
}

#[test]
fn a_refused_bybit_order_no_longer_waits() {
    let mut pending = new_pending_fill_map();
    let (ticket, _receiver) =
        BybitClient::begin_order(&mut pending, "BTCUSDT", "Buy", 1, false, None);
    let id = ticket.order_link_id.as_str();
    assert_eq!(
        BybitClient::after_placing(&mut pending, id, &Ok(reply(5))),
        Err("Bybit order error: 5 - no".to_string())
    );
    assert!(!pending.contains(id));
    assert_eq!(
        BybitClient::after_placing(&mut pending, id, &Err("down".to_string())),
        Err("down".to_string())
    );
}
