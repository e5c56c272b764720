//! What is sent to the exchanges for an order.
use crate::exchanges::binance_api;
use crate::exchanges::binance_api::{
    leverage_query_text, order_lookup_text, order_query_text, signed_url_text, BinanceClient,
};
use crate::exchanges::binance_trade_ws::{order_params, reply_text, signed_query, WsApiError};
use crate::exchanges::bybit_api;
use crate::exchanges::bybit_api::{
    bybit_signature, leverage_fields, lookup_text, order_fields, presign_text, BybitClient,
};
use crate::exchanges::signing::{hex_text, signature_text};
use crate::json::{field, flag_text, json_string};
use crate::live_trading::open::side_text;
use crate::price_store::Exchange;
use crate::text::{fixed_text, nat_text};
use vstd::prelude::*;

verus! {

/// A text in front of another begins their sum, and the other ends it.
proof fn lemma_parts(a: Seq<char>, b: Seq<char>)
    ensures
        a.is_prefix_of(a + b),
        b.is_suffix_of(a + b),
{
    assert((a + b).subrange(0, a.len() as int) =~= a);
    assert((a + b).subrange(a.len() as int, (a + b).len() as int) =~= b);
}

/// The side of an order is spelled as its exchange wants it, and the two sides differ.
pub proof fn law_sides(exchange: Exchange)
    ensures
        side_text(Exchange::Binance, true) == "BUY"@,
        side_text(Exchange::Binance, false) == "SELL"@,
        side_text(Exchange::Bybit, true) == "Buy"@,
        side_text(Exchange::Bybit, false) == "Sell"@,
        side_text(exchange, true) != side_text(exchange, false),
{
    reveal_strlit("BUY");
    reveal_strlit("SELL");
    reveal_strlit("Buy");
    reveal_strlit("Sell");
    assert("BUY"@.len() == 3 && "SELL"@.len() == 4 && "Buy"@.len() == 3 && "Sell"@.len() == 4);
}

/// An order to Binance begins with its symbol and its side and the way it is matched,
/// and ends with its own id, whether it only reduces, and the time. Its quantity is
/// written to eight places and its limit, where it has one, to six.
pub proof fn law_binance_order(t: binance_api::OrderTicket, ts: int)
    ensures
        ({
            let text = order_query_text(t, ts);
            let head = "symbol="@ + t.symbol@ + "&side="@ + t.side@;
            let flag = if t.reduce_only {
                "true"@
            } else {
                "false"@
            };
            let tail = "&newClientOrderId="@ + t.client_order_id@ + "&reduceOnly="@ + flag
                + "&timestamp="@ + nat_text(ts as nat);
            let quantity = fixed_text(t.quantity as int, 8);
            &&& head.is_prefix_of(text)
            &&& tail.is_suffix_of(text)
            &&& t.price is None ==> text == head + ("&type=MARKET&quantity="@ + quantity) + tail
            &&& t.price is Some ==> text == head + ("&type=LIMIT&timeInForce=IOC&quantity="@
                + quantity + "&price="@ + fixed_text(t.price->Some_0 as int, 6)) + tail
        }),
{
    let text = order_query_text(t, ts);
    let head = "symbol="@ + t.symbol@ + "&side="@ + t.side@;
    let flag = if t.reduce_only {
        "true"@
    } else {
        "false"@
    };
    let tail = "&newClientOrderId="@ + t.client_order_id@ + "&reduceOnly="@ + flag + "&timestamp="@
        + nat_text(ts as nat);
    let quantity = fixed_text(t.quantity as int, 8);
    let middle = if t.price is None {
        "&type=MARKET&quantity="@ + quantity
    } else {
        "&type=LIMIT&timeInForce=IOC&quantity="@ + quantity + "&price="@ + fixed_text(
            t.price->Some_0 as int,
            6,
        )
    };
    assert(text =~= head + middle + tail);
    lemma_parts(head + middle, tail);
    assert(text.subrange(0, head.len() as int) =~= head);
}

/// An order to Bybit names what it trades: each of its fields stands in it once, with
/// the value of the ticket. A limit is filled at once or cancelled.
pub proof fn law_bybit_order(t: bybit_api::OrderTicket)
    ensures
        ({
            let f = order_fields(t);
            &&& f.len() == (if t.price is Some {
                9int
            } else {
                8
            })
            &&& f.contains(field("category"@, json_string("linear"@)))
            &&& f.contains(field("orderLinkId"@, json_string(t.order_link_id@)))
            &&& t.price is Some ==> f.contains(field("orderType"@, json_string("Limit"@)))
                && f.contains(
                field("price"@, json_string(fixed_text(t.price->Some_0 as int, 6))),
            )
            &&& t.price is None ==> f.contains(field("orderType"@, json_string("Market"@)))
            &&& f.contains(field("qty"@, json_string(fixed_text(t.quantity as int, 8))))
            &&& t.reduce_only ==> f.contains(field("reduceOnly"@, "true"@))
            &&& !t.reduce_only ==> f.contains(field("reduceOnly"@, "false"@))
            &&& f.contains(field("side"@, json_string(t.side@)))
            &&& f.contains(field("symbol"@, json_string(t.symbol@)))
            &&& f.contains(field("timeInForce"@, json_string("IOC"@)))
        }),
{
    let f = order_fields(t);
    let n = f.len() as int;
    assert(f[0] == field("category"@, json_string("linear"@)));
    assert(f[1] == field("orderLinkId"@, json_string(t.order_link_id@)));
    if t.price is Some {
        assert(f[2] == field("orderType"@, json_string("Limit"@)));
        assert(f[3] == field("price"@, json_string(fixed_text(t.price->Some_0 as int, 6))));
    } else {
        assert(f[2] == field("orderType"@, json_string("Market"@)));
    }
    assert(f[n - 5] == field("qty"@, json_string(fixed_text(t.quantity as int, 8))));
    assert(f[n - 4] == field("reduceOnly"@, flag_text(t.reduce_only)));
    assert(f[n - 3] == field("side"@, json_string(t.side@)));
    assert(f[n - 2] == field("symbol"@, json_string(t.symbol@)));
    assert(f[n - 1] == field("timeInForce"@, json_string("IOC"@)));
}

/// An order that is sent over the socket holds the values of its ticket, and the
/// signature of just these.
pub proof fn law_socket_order(
    api_key: Seq<char>,
    api_secret: Seq<char>,
    t: binance_api::OrderTicket,
    ts: int,
)
    ensures
        ({
            let f = order_params(api_key, api_secret, t, ts);
            let flag = if t.reduce_only {
                "true"@
            } else {
                "false"@
            };
            &&& f.len() == (if t.price is Some {
                11int
            } else {
                9
            })
            &&& f.contains(field("apiKey"@, json_string(api_key)))
            &&& f.contains(field("newClientOrderId"@, json_string(t.client_order_id@)))
            &&& f.contains(field("quantity"@, json_string(fixed_text(t.quantity as int, 8))))
            &&& f.contains(field("reduceOnly"@, json_string(flag)))
            &&& f.contains(field("side"@, json_string(t.side@)))
            &&& f.contains(field("symbol"@, json_string(t.symbol@)))
            &&& f.contains(field("timestamp"@, nat_text(ts as nat)))
            &&& f.contains(
                field(
                    "signature"@,
                    json_string(signature_text(api_secret, signed_query(api_key, t, ts))),
                ),
            )
            &&& t.price is Some ==> {
                &&& f.contains(
                    field("price"@, json_string(fixed_text(t.price->Some_0 as int, 6))),
                )
                &&& f.contains(field("timeInForce"@, json_string("IOC"@)))
                &&& f.contains(field("type"@, json_string("LIMIT"@)))
            }
            &&& t.price is None ==> f.contains(field("type"@, json_string("MARKET"@)))
        }),
{
    let f = order_params(api_key, api_secret, t, ts);
    let flag = flag_text(t.reduce_only);
    assert(f[0] == field("apiKey"@, json_string(api_key)));
    assert(f[1] == field("newClientOrderId"@, json_string(t.client_order_id@)));
    let k: int = if t.price is Some {
        assert(f[2] == field("price"@, json_string(fixed_text(t.price->Some_0 as int, 6))));
        3
    } else {
        2
    };
    assert(f[k] == field("quantity"@, json_string(fixed_text(t.quantity as int, 8))));
    assert(f[k + 1] == field("reduceOnly"@, json_string(flag)));
    assert(f[k + 2] == field("side"@, json_string(t.side@)));
    assert(f[k + 3] == field(
        "signature"@,
        json_string(signature_text(api_secret, signed_query(api_key, t, ts))),
    ));
    assert(f[k + 4] == field("symbol"@, json_string(t.symbol@)));
    let n = f.len() as int;
    if t.price is Some {
        assert(f[k + 5] == field("timeInForce"@, json_string("IOC"@)));
        assert(f[n - 1] == field("type"@, json_string("LIMIT"@)));
    } else {
        assert(f[n - 1] == field("type"@, json_string("MARKET"@)));
    }
    assert(f[n - 2] == field("timestamp"@, nat_text(ts as nat)));
}

/// What is signed of an order over the socket names all that is sent of it.
pub proof fn law_signed_order(api_key: Seq<char>, t: binance_api::OrderTicket, ts: int)
    ensures
        ({
            let text = signed_query(api_key, t, ts);
            let flag = if t.reduce_only {
                "true"@
            } else {
                "false"@
            };
            let head = "apiKey="@ + api_key + "&newClientOrderId="@ + t.client_order_id@;
            let middle = "&quantity="@ + fixed_text(t.quantity as int, 8) + "&reduceOnly="@ + flag
                + "&side="@ + t.side@ + "&symbol="@ + t.symbol@;
            let time = "&timestamp="@ + nat_text(ts as nat);
            &&& t.price is None ==> text == head + middle + time + "&type=MARKET"@
            &&& t.price is Some ==> text == head + ("&price="@ + fixed_text(
                t.price->Some_0 as int,
                6,
            )) + middle + "&timeInForce=IOC"@ + time + "&type=LIMIT"@
        }),
{
    reveal_strlit("&type=");
    reveal_strlit("LIMIT");
    reveal_strlit("MARKET");
    reveal_strlit("&type=LIMIT");
    reveal_strlit("&type=MARKET");
    let text = signed_query(api_key, t, ts);
    let flag = flag_text(t.reduce_only);
    let head = "apiKey="@ + api_key + "&newClientOrderId="@ + t.client_order_id@;
    let middle = "&quantity="@ + fixed_text(t.quantity as int, 8) + "&reduceOnly="@ + flag
        + "&side="@ + t.side@ + "&symbol="@ + t.symbol@;
    let time = "&timestamp="@ + nat_text(ts as nat);
    assert("&type="@ + "LIMIT"@ =~= "&type=LIMIT"@);
    assert("&type="@ + "MARKET"@ =~= "&type=MARKET"@);
    if t.price is None {
        assert(text =~= head + middle + time + "&type=MARKET"@);
    } else {
        assert(text =~= head + ("&price="@ + fixed_text(t.price->Some_0 as int, 6)) + middle
            + "&timeInForce=IOC"@ + time + "&type=LIMIT"@);
    }
}

/// A signed request holds its query unchanged and the signature of just that query
/// behind it.
pub proof fn law_signed_request(client: BinanceClient, path: Seq<char>, query: Seq<char>)
    ensures
        signed_url_text(client, path, query) == client.base_url@ + path + ("?"@ + query) + (
        "&signature="@ + signature_text(client.api_secret@, query)),
        ("&signature="@ + signature_text(client.api_secret@, query)).is_suffix_of(
            signed_url_text(client, path, query),
        ),
{
    let tail = "&signature="@ + signature_text(client.api_secret@, query);
    let head = client.base_url@ + path + ("?"@ + query);
    assert(signed_url_text(client, path, query) =~= head + tail);
    lemma_parts(head, tail);
}

/// What Bybit gets signed begins with the time and ends with the payload; between them
/// stand the key and the window.
pub proof fn law_bybit_signing(c: BybitClient, ts: int, payload: Seq<char>)
    ensures
        presign_text(c, ts, payload) == nat_text(ts as nat) + (c.api_key@ + c.recv_window@)
            + payload,
        bybit_signature(c, ts, payload) == signature_text(
            c.api_secret@,
            nat_text(ts as nat) + (c.api_key@ + c.recv_window@) + payload,
        ),
{
    assert(presign_text(c, ts, payload) =~= nat_text(ts as nat) + (c.api_key@ + c.recv_window@)
        + payload);
}

/// Questions about an order and settings of the leverage name their symbol, and both
/// sides get the same leverage.
pub proof fn law_questions(symbol: Seq<char>, order_id: Seq<char>, id: int, leverage: int, ts: int)
    ensures
        order_lookup_text(symbol, id, ts) == "symbol="@ + symbol + ("&orderId="@ + nat_text(
            id as nat,
        )) + ("&timestamp="@ + nat_text(ts as nat)),
        leverage_query_text(symbol, leverage, ts) == "symbol="@ + symbol + ("&leverage="@
            + nat_text(leverage as nat)) + ("&timestamp="@ + nat_text(ts as nat)),
        lookup_text(symbol, order_id) == "category=linear&symbol="@ + symbol + ("&orderId="@
            + order_id),
        leverage_fields(symbol, leverage).contains(
            field("buyLeverage"@, json_string(nat_text(leverage as nat))),
        ),
        leverage_fields(symbol, leverage).contains(
            field("sellLeverage"@, json_string(nat_text(leverage as nat))),
        ),
        leverage_fields(symbol, leverage).contains(field("symbol"@, json_string(symbol))),
{
    assert(order_lookup_text(symbol, id, ts) =~= "symbol="@ + symbol + ("&orderId="@ + nat_text(
        id as nat,
    )) + ("&timestamp="@ + nat_text(ts as nat)));
    assert(leverage_query_text(symbol, leverage, ts) =~= "symbol="@ + symbol + ("&leverage="@
        + nat_text(leverage as nat)) + ("&timestamp="@ + nat_text(ts as nat)));
    assert(lookup_text(symbol, order_id) =~= "category=linear&symbol="@ + symbol + ("&orderId="@
        + order_id));
    let f = leverage_fields(symbol, leverage);
    assert(f[0] == field("buyLeverage"@, json_string(nat_text(leverage as nat))));
    assert(f[2] == field("sellLeverage"@, json_string(nat_text(leverage as nat))));
    assert(f[3] == field("symbol"@, json_string(symbol)));
}

/// A reply over the socket is taken where its status says that all went well and it
/// holds a result; in every other case it is an error.
pub proof fn law_replies(status: i32, result: Option<String>, error: Option<WsApiError>)
    ensures
        reply_text(status, result, error) is Ok <==> status == 200 && result is Some,
        status == 200 && result is Some ==> reply_text(status, result, error)->Ok_0
            == result->Some_0@,
        status != 200 && error is None ==> reply_text(status, result, error)->Err_0
            == "WS API status "@ + crate::text::int_text(status as int),
{
}

/// Each byte is written in two digits: the first counts sixteens, the second ones. Ten
/// and above are written with letters.
pub proof fn law_hex(bytes: Seq<u8>, b: u8)
    ensures
        hex_text(Seq::empty()).len() == 0,
        ({
            let t = hex_text(bytes.push(b));
            let s = hex_text(bytes);
            let high = t[t.len() - 2] as int;
            let low = t[t.len() - 1] as int;
            let value = |c: int|
                if c <= 57 {
                    c - 48
                } else {
                    c - 97 + 10
                };
            &&& t.len() == s.len() + 2
            &&& s.is_prefix_of(t)
            &&& 48 <= high <= 57 || 97 <= high <= 102
            &&& 48 <= low <= 57 || 97 <= low <= 102
            &&& value(high) * 16 + value(low) == b
        }),
{
    assert(bytes.push(b).drop_last() =~= bytes);
    let s = hex_text(bytes);
    let t = hex_text(bytes.push(b));
    assert(t.len() == s.len() + 2);
    assert(t.subrange(0, s.len() as int) =~= s);
}

} // verus!
