use live_arb::exchanges::binance_api::{
    self, BalanceError, BinanceBalance, BinanceClient, BinanceOrderResponse, BinancePosition,
};
use live_arb::exchanges::bybit_api::{
    self, read_amount_or, read_size, BybitAccount, BybitClient, BybitCoinBalance, BybitOrderDetail,
    BybitOrderResult, BybitPosition, BybitResponse, BybitWalletResult,
};
use live_arb::exchanges::fill_channel::FillEvent;
use live_arb::exchanges::signing::sign;

fn binance() -> BinanceClient {
    BinanceClient::new("key-id".to_string(), "key".to_string())
}

fn bybit() -> BybitClient {
    BybitClient::new("key-id".to_string(), "key".to_string())
}

fn order(status: &str, executed: &str) -> BinanceOrderResponse {
    BinanceOrderResponse {
        orderId: 77,
        symbol: "BTCUSDT".to_string(),
        status: status.to_string(),
        side: "BUY".to_string(),
        origQty: "0.5".to_string(),
        executedQty: executed.to_string(),
        avgPrice: String::new(),
        cumQuote: String::new(),
        updateTime: 1234,
    }
}

fn fill(is_expired: bool) -> FillEvent {
    FillEvent {
        order_id: "77".to_string(),
        avg_price: 10_000_000_000,
        filled_qty: 50_000_000,
        quote_qty: 5_000_000_000,
        commission: 2_500_000,
        timestamp: 99,
        is_expired,
    }
}

#[test]
fn signatures_are_hmac_sha256_in_hex() {
    let expected = "f7bc83f430538424b13298e6aa6fb143ef4d59a14946175997479dbc2d1a3cd8";
    let text = "The quick brown fox jumps over the lazy dog";
    assert_eq!(sign("key", text), expected);
    assert_eq!(binance().sign(text), expected);
    assert_eq!(
        sign("", ""),
        "b613679a0814d9ec772f95d778c35fc5ff1697c493715653c6c712144292c5ad"
    );
}

#[test]
fn bybit_signs_the_time_the_key_and_the_window_first() {
    let c = bybit();
    assert_eq!(c.sign(1700, "a=b"), sign("key", "1700key-id5000a=b"));
    let headers = c.auth_headers(1700, "abc");
    assert_eq!(
        headers,
        vec![
            ("X-BAPI-API-KEY", "key-id".to_string()),
            ("X-BAPI-SIGN", "abc".to_string()),
            ("X-BAPI-SIGN-TYPE", "2".to_string()),
            ("X-BAPI-TIMESTAMP", "1700".to_string()),
            ("X-BAPI-RECV-WINDOW", "5000".to_string()),
        ]
    );
}

#[test]
fn binance_urls_are_signed() {
    let c = binance();
    assert_eq!(
        c.balance_url(5),
        format!(
            "https://fapi.binance.com/fapi/v2/balance?timestamp=5&signature={}",
            sign("key", "timestamp=5")
        )
    );
    assert_eq!(
        c.positions_url(5),
        format!(
            "https://fapi.binance.com/fapi/v2/positionRisk?timestamp=5&signature={}",
            sign("key", "timestamp=5")
        )
    );
    assert_eq!(
        c.leverage_url("BTCUSDT", 10, 5),
        format!(
            "https://fapi.binance.com/fapi/v1/leverage?symbol=BTCUSDT&leverage=10&timestamp=5&signature={}",
            sign("key", "symbol=BTCUSDT&leverage=10&timestamp=5")
        )
    );
    let query = "symbol=BTCUSDT&orderId=7&timestamp=5";
    assert_eq!(
        c.order_detail_url("BTCUSDT", 7, 5),
        format!(
            "https://fapi.binance.com/fapi/v1/order?{}&signature={}",
            query,
            sign("key", query)
        )
    );
    assert_eq!(
        c.order_trades_url("BTCUSDT", 7, 5),
        format!(
            "https://fapi.binance.com/fapi/v1/userTrades?{}&signature={}",
            query,
            sign("key", query)
        )
    );
}

#[test]
fn binance_orders_are_limited_or_at_market() {
    let mut ticket = binance_api::OrderTicket {
        symbol: "BTCUSDT".to_string(),
        side: "BUY".to_string(),
        quantity: 150_000_000,
        client_order_id: "arb1".to_string(),
        reduce_only: false,
        price: Some(12_345_678_900),
    };
    assert_eq!(
        BinanceClient::order_query(&ticket, 9),
        "symbol=BTCUSDT&side=BUY&type=LIMIT&timeInForce=IOC&quantity=1.50000000&price=123.456789&newClientOrderId=arb1&reduceOnly=false&timestamp=9"
    );
    ticket.price = None;
    ticket.reduce_only = true;
    let query = "symbol=BTCUSDT&side=BUY&type=MARKET&quantity=1.50000000&newClientOrderId=arb1&reduceOnly=true&timestamp=9";
    assert_eq!(BinanceClient::order_query(&ticket, 9), query);
    assert_eq!(
        binance().order_url(&ticket, 9),
        format!(
            "https://fapi.binance.com/fapi/v1/order?{}&signature={}",
            query,
            sign("key", query)
        )
    );
}

#[test]
fn order_ids_are_made_of_microseconds() {
    assert_eq!(BinanceClient::client_order_id_at(1700000000000001), "arb1700000000000001");
    assert_eq!(BybitClient::order_link_id_at(1700000000000001), "arb-1700000000000001");
    assert!(BinanceClient::new_client_order_id().starts_with("arb1"));
    assert!(BybitClient::new_order_link_id().starts_with("arb-1"));
    assert!(BinanceClient::timestamp_ms() > 1_600_000_000_000);
    assert!(BybitClient::timestamp_ms() > 1_600_000_000_000);
}

#[test]
fn binance_balance_is_the_available_usdt() {
    let entry = |asset: &str, available: &str| BinanceBalance {
        asset: asset.to_string(),
        balance: "1".to_string(),
        availableBalance: available.to_string(),
        crossUnPnl: "0".to_string(),
    };
    let list = vec![entry("BNB", "3"), entry("USDT", "15.2")];
    assert_eq!(BinanceClient::get_balance(&list), Ok(1_520_000_000));
    assert_eq!(
        BinanceClient::get_balance(&vec![entry("BNB", "3")]),
        Err(BalanceError::Missing)
    );
    assert_eq!(
        BinanceClient::get_balance(&vec![entry("USDT", "many")]),
        Err(BalanceError::Unreadable)
    );
}

#[test]
fn empty_positions_are_left_out() {
    let binance = |symbol: &str, amount: &str| BinancePosition {
        symbol: symbol.to_string(),
        positionAmt: amount.to_string(),
        entryPrice: "1".to_string(),
        unRealizedProfit: "0".to_string(),
        leverage: "10".to_string(),
        positionSide: "BOTH".to_string(),
    };
    let open = BinanceClient::get_positions(vec![
        binance("A", "0.000"),
        binance("B", "-2"),
        binance("C", "x"),
        binance("D", "0.5"),
    ]);
    let names: Vec<String> = open.into_iter().map(|p| p.symbol).collect();
    assert_eq!(names, vec!["B".to_string(), "D".to_string()]);

    let bybit = |symbol: &str, size: &str| BybitPosition {
        symbol: symbol.to_string(),
        side: "Buy".to_string(),
        size: size.to_string(),
        avgPrice: "1".to_string(),
        unrealisedPnl: "0".to_string(),
        leverage: "10".to_string(),
    };
    let open = BybitClient::get_positions(vec![bybit("A", "0"), bybit("B", "2"), bybit("C", "")]);
    assert_eq!(open.len(), 1);
    assert_eq!(open[0].symbol, "B");
}

#[test]
fn an_order_that_expires_unfilled_is_refused() {
    assert_eq!(
        BinanceClient::check_accepted(&order("EXPIRED", "0.000")),
        Err("Binance IOC order 77 expired/canceled with 0 fill (slippage limit exceeded)".to_string())
    );
    assert!(BinanceClient::check_accepted(&order("CANCELED", "")).is_err());
    assert!(BinanceClient::check_accepted(&order("CANCELED", "0.1")).is_ok());
    assert!(BinanceClient::check_accepted(&order("NEW", "")).is_ok());
}

#[test]
fn a_binance_fill_comes_from_its_event() {
    let f = BinanceClient::fill_from_event(&order("NEW", ""), &fill(false)).unwrap();
    assert_eq!(f.order_id, 77);
    assert_eq!(f.symbol, "BTCUSDT");
    assert_eq!(f.side, "BUY");
    assert_eq!(f.avg_price, 10_000_000_000);
    assert_eq!(f.filled_qty, 50_000_000);
    assert_eq!(f.quote_qty, 5_000_000_000);
    assert_eq!(f.commission, 2_500_000);
    assert_eq!(f.commission_asset, "USDT");
    assert_eq!(f.timestamp, 99);
    assert_eq!(
        BinanceClient::fill_from_event(&order("NEW", ""), &fill(true)).unwrap_err(),
        "Binance order 77 expired with 0 fill (IOC limit missed — slippage exceeded)"
    );
}

#[test]
fn a_binance_fill_comes_from_a_query() {
    let mut detail = order("FILLED", "0.5");
    detail.avgPrice = "100".to_string();
    detail.cumQuote = "50".to_string();
    let f = BinanceClient::fill_from_detail(&order("NEW", ""), &detail).unwrap();
    assert_eq!(f.avg_price, 10_000_000_000);
    assert_eq!(f.filled_qty, 50_000_000);
    assert_eq!(f.commission, 2_500_000);
    assert_eq!(f.timestamp, 1234);
    let error = BinanceClient::fill_from_detail(&order("NEW", ""), &order("NEW", "0")).unwrap_err();
    assert_eq!(
        error,
        "Binance order 77 filled with zero data after timeout (status=NEW, avgPrice=0, qty=0). Check exchange manually."
    );
}

fn wallet(code: i32, accounts: Vec<BybitAccount>) -> BybitResponse<BybitWalletResult> {
    BybitResponse {
        retCode: code,
        retMsg: "bad".to_string(),
        result: BybitWalletResult { list: accounts },
    }
}

fn account(available: &str, total: &str, coins: Vec<BybitCoinBalance>) -> BybitAccount {
    BybitAccount {
        accountType: "UNIFIED".to_string(),
        totalWalletBalance: total.to_string(),
        totalAvailableBalance: available.to_string(),
        coin: coins,
    }
}

fn coin(name: &str, wallet: &str, withdraw: &str, equity: &str) -> BybitCoinBalance {
    BybitCoinBalance {
        coin: name.to_string(),
        availableToWithdraw: withdraw.to_string(),
        walletBalance: wallet.to_string(),
        equity: equity.to_string(),
        unrealisedPnl: String::new(),
    }
}

#[test]
fn bybit_balance_takes_the_first_readable_value() {
    let read = |accounts| BybitClient::get_balance(&wallet(0, accounts));
    assert_eq!(
        read(vec![account("9", "8", vec![coin("BTC", "1", "1", "1"), coin("USDT", " 7 ", "6", "5")])]),
        Ok(700_000_000)
    );
    assert_eq!(read(vec![account("9", "8", vec![coin("USDT", "", "6", "5")])]), Ok(600_000_000));
    assert_eq!(read(vec![account("9", "8", vec![coin("USDT", "", "x", "5")])]), Ok(500_000_000));
    assert_eq!(read(vec![account("9", "8", vec![coin("USDT", "", "", "")])]), Ok(0));
    assert_eq!(read(vec![account("9", "8", vec![])]), Ok(900_000_000));
    assert_eq!(read(vec![account("", "8", vec![])]), Ok(800_000_000));
    assert_eq!(
        read(vec![account("", "", vec![]), account("", "", vec![coin("USDT", "4", "", "")])]),
        Ok(400_000_000)
    );
    assert_eq!(read(vec![]), Ok(0));
    assert_eq!(
        BybitClient::get_balance(&wallet(10003, vec![])),
        Err("Bybit API error: 10003 - bad".to_string())
    );
}

#[test]
fn bybit_bodies_list_their_keys_in_order() {
    let mut ticket = bybit_api::OrderTicket {
        symbol: "BTCUSDT".to_string(),
        side: "Sell".to_string(),
        quantity: 150_000_000,
        order_link_id: "arb-1".to_string(),
        reduce_only: true,
        price: None,
    };
    assert_eq!(
        BybitClient::order_body(&ticket),
        "{\"category\":\"linear\",\"orderLinkId\":\"arb-1\",\"orderType\":\"Market\",\"qty\":\"1.50000000\",\"reduceOnly\":true,\"side\":\"Sell\",\"symbol\":\"BTCUSDT\",\"timeInForce\":\"IOC\"}"
    );
    ticket.price = Some(12_345_678_900);
    ticket.reduce_only = false;
    assert_eq!(
        BybitClient::order_body(&ticket),
        "{\"category\":\"linear\",\"orderLinkId\":\"arb-1\",\"orderType\":\"Limit\",\"price\":\"123.456789\",\"qty\":\"1.50000000\",\"reduceOnly\":false,\"side\":\"Sell\",\"symbol\":\"BTCUSDT\",\"timeInForce\":\"IOC\"}"
    );
    assert_eq!(
        BybitClient::leverage_body("BTCUSDT", 10),
        "{\"buyLeverage\":\"10\",\"category\":\"linear\",\"sellLeverage\":\"10\",\"symbol\":\"BTCUSDT\"}"
    );
    assert_eq!(
        BybitClient::order_lookup("BTCUSDT", "abc"),
        "category=linear&symbol=BTCUSDT&orderId=abc"
    );
}

#[test]
fn bybit_error_codes_are_reported() {
    let reply = |code| BybitResponse {
        retCode: code,
        retMsg: "no".to_string(),
        result: BybitOrderResult { orderId: "1".to_string(), orderLinkId: "2".to_string() },
    };
    assert_eq!(BybitClient::check_accepted(&reply(0)), Ok(()));
    assert_eq!(
        BybitClient::check_accepted(&reply(5)),
        Err("Bybit order error: 5 - no".to_string())
    );
    assert_eq!(BybitClient::check_query(0, "no"), Ok(()));
    assert_eq!(BybitClient::check_query(-1, "no"), Err("Bybit API error: -1 - no".to_string()));
    assert_eq!(BybitClient::check_leverage(0, "no"), Ok(()));
    assert_eq!(BybitClient::check_leverage(110043, "same"), Ok(()));
    assert_eq!(
        BybitClient::check_leverage(110044, "no"),
        Err("Bybit set leverage error: 110044 - no".to_string())
    );
}

fn detail(avg: &str, qty: &str, value: &str, fee: &str) -> BybitOrderDetail {
    BybitOrderDetail {
        orderId: "abc".to_string(),
        symbol: "BTCUSDT".to_string(),
        side: "Buy".to_string(),
        orderStatus: "Filled".to_string(),
        avgPrice: avg.to_string(),
        qty: "0.5".to_string(),
        cumExecQty: qty.to_string(),
        cumExecValue: value.to_string(),
        cumExecFee: fee.to_string(),
        updatedTime: "5".to_string(),
    }
}

#[test]
fn a_bybit_fill_comes_from_its_event_or_a_query() {
    let f = BybitClient::fill_from_event("abc", "BTCUSDT", "Buy", &fill(false)).unwrap();
    assert_eq!(f.order_id, "abc");
    assert_eq!(f.avg_price, 10_000_000_000);
    assert_eq!(f.timestamp, 99);
    assert_eq!(
        BybitClient::fill_from_event("abc", "BTCUSDT", "Buy", &fill(true)).unwrap_err(),
        "Bybit order abc expired with 0 fill (IOC limit missed — slippage exceeded)"
    );

    let known = Some(detail("100", "0.4", "40", "-0.02"));
    let f = BybitClient::fill_from_detail("abc", "BTCUSDT", "Buy", 50_000_000, &known);
    assert_eq!(f.avg_price, 10_000_000_000);
    assert_eq!(f.filled_qty, 40_000_000);
    assert_eq!(f.quote_qty, 4_000_000_000);
    assert_eq!(f.commission, 2_000_000);
    assert_eq!(f.timestamp, 0);

    let unreadable = Some(detail("", "", "", ""));
    let f = BybitClient::fill_from_detail("abc", "BTCUSDT", "Buy", 50_000_000, &unreadable);
    assert_eq!((f.avg_price, f.filled_qty, f.commission), (0, 50_000_000, 0));

    let f = BybitClient::fill_from_detail("abc", "BTCUSDT", "Buy", 50_000_000, &None);
    assert_eq!((f.avg_price, f.filled_qty, f.quote_qty), (0, 50_000_000, 0));

    assert_eq!(
        BybitClient::get_order_detail(vec![]).unwrap_err(),
        "Order not found".to_string()
    );
    assert_eq!(
        BybitClient::get_order_detail(vec![detail("1", "", "", ""), detail("2", "", "", "")])
            .unwrap()
            .avgPrice,
        "1"
    );
}

#[test]
fn sizes_ignore_their_sign() {
    assert_eq!(read_size("-0.02"), 2_000_000);
    assert_eq!(read_size("x"), 0);
    assert_eq!(read_amount_or("1.5", 7), 150_000_000);
    assert_eq!(read_amount_or("x", 7), 7);
}
