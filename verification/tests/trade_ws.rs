use live_arb::exchanges::binance_api::OrderTicket;
use live_arb::exchanges::binance_trade_ws::{read_reply, timeout_error, BinanceTradeWs, WsApiError};
use live_arb::exchanges::signing::sign;

fn ticket(price: Option<u64>) -> OrderTicket {
    OrderTicket {
        symbol: "BTCUSDT".to_string(),
        side: "BUY".to_string(),
        quantity: 150_000_000,
        client_order_id: "arb1".to_string(),
        reduce_only: false,
        price,
    }
}

fn connected() -> BinanceTradeWs {
    let mut ws = BinanceTradeWs::new("key-id".to_string(), "key".to_string());
    ws.on_connect();
    ws
}

#[test]
fn nothing_is_ordered_without_a_connection() {
    let mut ws = BinanceTradeWs::new("key-id".to_string(), "key".to_string());
    assert!(!ws.is_connected());
    assert_eq!(
        ws.place_order(&ticket(None)).unwrap_err(),
        "BinanceTradeWS not connected".to_string()
    );
    ws.on_connect();
    assert!(ws.is_connected());
    // The refused order used up no number.
    assert_eq!(ws.place_order(&ticket(None)).unwrap().0, "arb_ws_1");
}

#[test]
fn frames_are_signed_over_sorted_parameters() {
    let ws = connected();
    let query = "apiKey=key-id&newClientOrderId=arb1&price=123.456789&quantity=1.50000000&reduceOnly=false&side=BUY&symbol=BTCUSDT&timeInForce=IOC&timestamp=9&type=LIMIT";
    assert_eq!(
        ws.order_frame("arb_ws_1", &ticket(Some(12_345_678_900)), 9),
        format!(
            "{{\"id\":\"arb_ws_1\",\"method\":\"order.place\",\"params\":{{\"apiKey\":\"key-id\",\"newClientOrderId\":\"arb1\",\"price\":\"123.456789\",\"quantity\":\"1.50000000\",\"reduceOnly\":\"false\",\"side\":\"BUY\",\"signature\":\"{}\",\"symbol\":\"BTCUSDT\",\"timeInForce\":\"IOC\",\"timestamp\":9,\"type\":\"LIMIT\"}}}}",
            sign("key", query)
        )
    );
    let query = "apiKey=key-id&newClientOrderId=arb1&quantity=1.50000000&reduceOnly=false&side=BUY&symbol=BTCUSDT&timestamp=9&type=MARKET";
    assert_eq!(
        ws.order_frame("arb_ws_1", &ticket(None), 9),
        format!(
            "{{\"id\":\"arb_ws_1\",\"method\":\"order.place\",\"params\":{{\"apiKey\":\"key-id\",\"newClientOrderId\":\"arb1\",\"quantity\":\"1.50000000\",\"reduceOnly\":\"false\",\"side\":\"BUY\",\"signature\":\"{}\",\"symbol\":\"BTCUSDT\",\"timestamp\":9,\"type\":\"MARKET\"}}}}",
            sign("key", query)
        )
    );
}

#[test]
fn a_reply_reaches_its_request() {
    let mut ws = connected();
    let (first, frame, one) = ws.place_order(&ticket(None)).unwrap();
    let (second, _, two) = ws.place_order(&ticket(None)).unwrap();
    assert_eq!(first, "arb_ws_1");
    assert_eq!(second, "arb_ws_2");
    assert!(frame.starts_with("{\"id\":\"arb_ws_1\",\"method\":\"order.place\""));
    let answer = ws.on_reply("arb_ws_2", read_reply(200, Some("{}".to_string()), None)).unwrap();
    assert_eq!((answer.id.as_str(), &answer.reply), ("arb_ws_2", &Ok("{}".to_string())));
    assert!(answer.deliver());
    assert_eq!(two.into_end().try_recv().unwrap(), Ok("{}".to_string()));
    assert!(one.into_end().try_recv().is_err());
    assert!(ws.on_reply("arb_ws_2", Ok(String::new())).is_none());
    ws.forget("arb_ws_1");
    assert!(ws.on_reply("arb_ws_1", Ok(String::new())).is_none());
}

#[test]
fn a_disconnect_fails_all_requests() {
    let mut ws = connected();
    let (_, _, one) = ws.place_order(&ticket(None)).unwrap();
    let (_, _, two) = ws.place_order(&ticket(None)).unwrap();
    let answers = ws.on_disconnect();
    assert!(!ws.is_connected());
    let mut ids: Vec<String> = answers.iter().map(|a| a.id.clone()).collect();
    ids.sort();
    assert_eq!(ids, vec!["arb_ws_1".to_string(), "arb_ws_2".to_string()]);
    for answer in answers {
        assert!(answer.deliver());
    }
    assert!(ws.on_disconnect().is_empty());
    assert_eq!(one.into_end().try_recv().unwrap(), Err("WS disconnected".to_string()));
    assert_eq!(two.into_end().try_recv().unwrap(), Err("WS disconnected".to_string()));
    assert!(ws.on_reply("arb_ws_1", Ok(String::new())).is_none());
}

#[test]
fn replies_are_read() {
    assert_eq!(read_reply(200, Some("x".to_string()), None), Ok("x".to_string()));
    assert_eq!(
        read_reply(200, None, None),
        Err("Empty result in 200 response".to_string())
    );
    let error = WsApiError { code: -2019, msg: "Margin is insufficient.".to_string() };
    assert_eq!(
        read_reply(400, None, Some(error)),
        Err("Binance WS API error -2019: Margin is insufficient.".to_string())
    );
    assert_eq!(read_reply(503, None, None), Err("WS API status 503".to_string()));
    assert_eq!(timeout_error("arb_ws_7"), "WS order timeout (500ms) for reqId=arb_ws_7");
}
