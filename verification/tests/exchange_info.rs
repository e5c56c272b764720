use live_arb::exchanges::exchange_info::{
    binance_rules, instruments_url, load_binance_info, load_bybit_info, load_bybit_text,
    BinanceFilter, BinanceSymbolRules, BybitInstrumentPage, BybitInstrumentRules,
    ExchangeInfoCache, PageOutcome,
};

fn filter(kind: &str, value: &str) -> BinanceFilter {
    let text = Some(value.to_string());
    BinanceFilter {
        filter_type: kind.to_string(),
        tick_size: if kind == "PRICE_FILTER" { text.clone() } else { None },
        step_size: if kind.ends_with("LOT_SIZE") { text.clone() } else { None },
        notional: if kind == "MIN_NOTIONAL" { text } else { None },
        min_notional: None,
    }
}

#[test]
fn rounding_goes_to_the_grid() {
    assert_eq!(ExchangeInfoCache::round_price_down(1_234_567, 1000), 1_234_000);
    assert_eq!(ExchangeInfoCache::round_price_up(1_234_567, 1000), 1_235_000);
    assert_eq!(ExchangeInfoCache::round_price_up(1_234_000, 1000), 1_234_000);
    assert_eq!(ExchangeInfoCache::round_qty_down(999, 1000), 0);
    assert_eq!(ExchangeInfoCache::round_qty_down(999, 0), 999);
    assert_eq!(ExchangeInfoCache::round_price_up(999, 0), 999);
}

#[test]
fn the_coarser_lot_counts() {
    let rules = binance_rules(&vec![
        filter("PRICE_FILTER", "0.01"),
        filter("LOT_SIZE", "0.001"),
        filter("MARKET_LOT_SIZE", "0.1"),
        filter("MIN_NOTIONAL", "20"),
    ]);
    assert_eq!(rules.tick_size, 1_000_000);
    assert_eq!(rules.step_size, 10_000_000);
    assert_eq!(rules.min_notional, 2_000_000_000);
    let rules = binance_rules(&vec![filter("LOT_SIZE", "0.1"), filter("MARKET_LOT_SIZE", "0.001")]);
    assert_eq!(rules.step_size, 10_000_000);
    assert_eq!(rules.tick_size, 0);
    assert_eq!(rules.min_notional, 500_000_000);
    let mut old = filter("MIN_NOTIONAL", "7");
    old.min_notional = old.notional.take();
    assert_eq!(binance_rules(&vec![old]).min_notional, 700_000_000);
    assert_eq!(binance_rules(&vec![filter("MIN_NOTIONAL", "x")]).min_notional, 500_000_000);
}

#[test]
fn binance_symbols_need_a_tick_and_a_step() {
    let mut cache = ExchangeInfoCache::new();
    let symbol = |name: &str, filters: Vec<BinanceFilter>| BinanceSymbolRules {
        symbol: name.to_string(),
        filters,
    };
    let full = || vec![filter("PRICE_FILTER", "0.1"), filter("LOT_SIZE", "1")];
    let count = load_binance_info(
        &mut cache,
        &vec![
            symbol("BTCUSDT", full()),
            symbol("BTCBUSD", full()),
            symbol("ETHUSDT", vec![filter("PRICE_FILTER", "0.1")]),
        ],
    );
    assert_eq!(count, 1);
    assert_eq!(cache.get_binance("BTCUSDT").unwrap().tick_size, 10_000_000);
    assert!(cache.get_binance("BTCBUSD").is_none());
    assert!(cache.get_binance("ETHUSDT").is_none());
    assert!(cache.get_bybit("BTCUSDT").is_none());
}

fn page(code: i64, names: &[&str], next: &str) -> BybitInstrumentPage {
    BybitInstrumentPage {
        ret_code: Some(code),
        ret_msg: if code == 7 { Some("limit".to_string()) } else { None },
        list: Some(
            names
                .iter()
                .map(|n| BybitInstrumentRules {
                    symbol: Some(n.to_string()),
                    tick_size: Some("0.01".to_string()),
                    qty_step: Some("1".to_string()),
                })
                .collect(),
        ),
        next_cursor: Some(next.to_string()),
    }
}

#[test]
fn bybit_pages_follow_their_cursor() {
    let mut cache = ExchangeInfoCache::new();
    match load_bybit_info(&mut cache, &page(0, &["AUSDT", "BUSDC"], "x"), "") {
        PageOutcome::More(1, next) => assert_eq!(next, "x"),
        _ => unreachable!(),
    }
    assert!(matches!(
        load_bybit_info(&mut cache, &page(0, &["CUSDT"], "x"), "x"),
        PageOutcome::Done(1)
    ));
    assert!(matches!(
        load_bybit_info(&mut cache, &page(0, &["DUSDT"], ""), "y"),
        PageOutcome::Done(1)
    ));
    assert!(matches!(load_bybit_info(&mut cache, &page(0, &[], "z"), "y"), PageOutcome::Done(0)));
    match load_bybit_info(&mut cache, &page(7, &["EUSDT"], ""), "") {
        PageOutcome::Failed(e) => assert_eq!(e, "Bybit instruments-info API error: limit"),
        _ => unreachable!(),
    }
    match load_bybit_info(&mut cache, &page(-1, &[], ""), "") {
        PageOutcome::Failed(e) => assert_eq!(e, "Bybit instruments-info API error: unknown"),
        _ => unreachable!(),
    }
    assert_eq!(cache.get_bybit("AUSDT").unwrap().min_notional, 500_000_000);
    assert!(cache.get_bybit("BUSDC").is_none());
    assert!(cache.get_bybit("EUSDT").is_none());
}

#[test]
fn what_a_page_does_not_state_has_defaults() {
    let mut cache = ExchangeInfoCache::new();
    let mut p = page(0, &["AUSDT"], "x");
    p.ret_code = None;
    match load_bybit_info(&mut cache, &p, "") {
        PageOutcome::Failed(e) => assert_eq!(e, "Bybit instruments-info API error: unknown"),
        _ => unreachable!(),
    }
    assert!(cache.get_bybit("AUSDT").is_none());
    let mut p = page(0, &["AUSDT"], "x");
    p.next_cursor = None;
    if let Some(list) = &mut p.list {
        list.push(BybitInstrumentRules { symbol: None, tick_size: None, qty_step: None });
    }
    assert!(matches!(load_bybit_info(&mut cache, &p, ""), PageOutcome::Done(1)));
    p.list = None;
    assert!(matches!(load_bybit_info(&mut cache, &p, ""), PageOutcome::Done(0)));
}

#[test]
fn a_page_is_read_from_its_text() {
    let mut cache = ExchangeInfoCache::new();
    let text = "{\"retCode\":0,\"retMsg\":\"OK\",\"result\":{\"list\":[\
        {\"symbol\":\"AUSDT\",\"priceFilter\":{\"tickSize\":\"0.01\"},\"lotSizeFilter\":{\"qtyStep\":\"1e-3\"}},\
        {\"symbol\":\"BUSDT\",\"priceFilter\":{\"tickSize\":\"0.000000001\"},\"lotSizeFilter\":{\"qtyStep\":\"1\"}},\
        {\"symbol\":\"CUSDT\",\"priceFilter\":{\"tickSize\":0.01},\"lotSizeFilter\":{\"qtyStep\":\"1\"}},\
        {\"symbol\":7}],\"nextPageCursor\":\"next\"}}";
    match load_bybit_text(&mut cache, text, "") {
        PageOutcome::More(2, next) => assert_eq!(next, "next"),
        _ => unreachable!(),
    }
    let a = cache.get_bybit("AUSDT").unwrap();
    assert_eq!((a.tick_size, a.step_size, a.min_notional), (1_000_000, 100_000, 500_000_000));
    assert_eq!(cache.get_bybit("BUSDT").unwrap().tick_size, 1);
    assert!(cache.get_bybit("CUSDT").is_none());
    assert!(matches!(load_bybit_text(&mut cache, text, "next"), PageOutcome::Done(2)));

    match load_bybit_text(&mut cache, "{\"retCode\":10001,\"retMsg\":\"params\"}", "") {
        PageOutcome::Failed(e) => assert_eq!(e, "Bybit instruments-info API error: params"),
        _ => unreachable!(),
    }
    match load_bybit_text(&mut cache, "{}", "") {
        PageOutcome::Failed(e) => assert_eq!(e, "Bybit instruments-info API error: unknown"),
        _ => unreachable!(),
    }
    match load_bybit_text(&mut cache, "<html>", "") {
        PageOutcome::Failed(e) => assert_eq!(
            e,
            "Failed to parse Bybit instruments-info: expected value at line 1 column 1"
        ),
        _ => unreachable!(),
    }
}

#[test]
fn pages_have_addresses() {
    let first = "https://api.bybit.com/v5/market/instruments-info?category=linear&limit=1000";
    assert_eq!(instruments_url(""), first);
    assert_eq!(instruments_url("abc"), format!("{}&cursor=abc", first));
}
