//! Bybit linear perpetuals: signed requests and what their replies mean.
use super::fill_channel::FillEvent;
use super::signing::{sign, signature_text};
use crate::clock::{epoch_micros, epoch_millis};
use crate::fixed::MAX_AMOUNT;
use crate::json::{field, flag_text, json_string, object_text, Fields};
use crate::text::{
    fixed_text, fixed_to_string, int_text, nat_text, parse_amount, parse_signed, push_int,
    push_nat, same_text, signed_units, trim, trimmed,
};
use vstd::prelude::*;

verus! {

/// Credentials and address of the Bybit API.
#[derive(Clone)]
pub struct BybitClient {
    pub api_key: String,
    pub api_secret: String,
    pub base_url: String,
    pub recv_window: String,
}

/// Envelope of every reply.
#[derive(Debug)]
#[allow(non_snake_case)]
pub struct BybitResponse<T> {
    pub retCode: i32,
    pub retMsg: String,
    pub result: T,
}

/// Wallet balances.
#[derive(Debug)]
pub struct BybitWalletResult {
    pub list: Vec<BybitAccount>,
}

/// An account with its coins.
#[derive(Debug)]
#[allow(non_snake_case)]
pub struct BybitAccount {
    pub accountType: String,
    pub totalWalletBalance: String,
    pub totalAvailableBalance: String,
    pub coin: Vec<BybitCoinBalance>,
}

/// Balance of a coin in an account.
#[derive(Debug)]
#[allow(non_snake_case)]
pub struct BybitCoinBalance {
    pub coin: String,
    pub availableToWithdraw: String,
    pub walletBalance: String,
    pub equity: String,
    pub unrealisedPnl: String,
}

/// Reply to a new order.
#[derive(Debug, Clone)]
#[allow(non_snake_case)]
pub struct BybitOrderResult {
    pub orderId: String,
    pub orderLinkId: String,
}

/// Reply to an order query.
#[derive(Debug, Clone)]
pub struct BybitOrderDetailResult {
    pub list: Vec<BybitOrderDetail>,
}

/// An order with what it was filled with.
#[derive(Debug, Clone)]
#[allow(non_snake_case)]
pub struct BybitOrderDetail {
    pub orderId: String,
    pub symbol: String,
    pub side: String,
    pub orderStatus: String,
    pub avgPrice: String,
    pub qty: String,
    pub cumExecQty: String,
    pub cumExecValue: String,
    pub cumExecFee: String,
    pub updatedTime: String,
}

/// Executions of an order.
#[derive(Debug, Clone)]
pub struct BybitExecutionResult {
    pub list: Vec<BybitExecution>,
}

/// One execution of an order.
#[derive(Debug, Clone)]
#[allow(non_snake_case)]
pub struct BybitExecution {
    pub orderId: String,
    pub symbol: String,
    pub side: String,
    pub execPrice: String,
    pub execQty: String,
    pub execValue: String,
    pub execFee: String,
    pub closedSize: String,
    pub execTime: String,
}

/// Positions.
#[derive(Debug, Clone)]
pub struct BybitPositionResult {
    pub list: Vec<BybitPosition>,
}

/// A position.
#[derive(Debug, Clone)]
#[allow(non_snake_case)]
pub struct BybitPosition {
    pub symbol: String,
    pub side: String,
    pub size: String,
    pub avgPrice: String,
    pub unrealisedPnl: String,
    pub leverage: String,
}

/// What an order was filled with.
#[derive(Debug, Clone)]
pub struct OrderFill {
    pub order_id: String,
    pub symbol: String,
    pub side: String,
    pub avg_price: u64,
    pub filled_qty: u64,
    pub quote_qty: u128,
    pub commission: u64,
    pub timestamp: u64,
}

/// An order as it is sent.
pub struct OrderTicket {
    pub symbol: String,
    pub side: String,
    pub quantity: u64,
    pub order_link_id: String,
    pub reduce_only: bool,
    /// Worst acceptable price; without one the order goes to the market.
    pub price: Option<u64>,
}

/// The amount that a text writes once the white space around it is gone.
pub open spec fn written_balance(text: Seq<char>) -> Option<int> {
    signed_units(trimmed(text))
}

/// The first of three balances that is written, zero where none is.
pub open spec fn coin_balance(c: BybitCoinBalance) -> int {
    match written_balance(c.walletBalance@) {
        Some(v) => v,
        None => match written_balance(c.availableToWithdraw@) {
            Some(v) => v,
            None => match written_balance(c.equity@) {
                Some(v) => v,
                None => 0,
            },
        },
    }
}

/// The place of the first USDT coin from `i` on.
pub open spec fn first_usdt_coin(coins: Seq<BybitCoinBalance>, i: int) -> Option<int>
    decreases coins.len() - i,
{
    if i >= coins.len() {
        None
    } else if coins[i].coin@ == "USDT"@ {
        Some(i)
    } else {
        first_usdt_coin(coins, i + 1)
    }
}

/// The USDT balance of an account: that of its USDT coin, else one of its
/// totals, where one is written.
pub open spec fn account_balance(a: BybitAccount) -> Option<int> {
    match first_usdt_coin(a.coin@, 0) {
        Some(i) => Some(coin_balance(a.coin@[i])),
        None => match written_balance(a.totalAvailableBalance@) {
            Some(v) => Some(v),
            None => written_balance(a.totalWalletBalance@),
        },
    }
}

/// The USDT balance of the first account from `i` on that has one, else zero.
pub open spec fn wallet_balance(list: Seq<BybitAccount>, i: int) -> int
    decreases list.len() - i,
{
    if i >= list.len() {
        0
    } else {
        match account_balance(list[i]) {
            Some(v) => v,
            None => wallet_balance(list, i + 1),
        }
    }
}

/// What is signed: time, key, window and payload one after the other.
pub open spec fn presign_text(c: BybitClient, ts: int, payload: Seq<char>) -> Seq<char> {
    nat_text(ts as nat) + c.api_key@ + c.recv_window@ + payload
}

/// The signature of a payload.
pub open spec fn bybit_signature(c: BybitClient, ts: int, payload: Seq<char>) -> Seq<char> {
    signature_text(c.api_secret@, presign_text(c, ts, payload))
}

/// The fields of an order, in the order of their names.
pub open spec fn order_fields(t: OrderTicket) -> Seq<Seq<char>> {
    let start = seq![
        field("category"@, json_string("linear"@)),
        field("orderLinkId"@, json_string(t.order_link_id@)),
        field(
            "orderType"@,
            json_string(
                if t.price is Some {
                    "Limit"@
                } else {
                    "Market"@
                },
            ),
        ),
    ];
    let priced = match t.price {
        Some(p) => start.push(field("price"@, json_string(fixed_text(p as int, 6)))),
        None => start,
    };
    priced.push(field("qty"@, json_string(fixed_text(t.quantity as int, 8)))).push(
        field("reduceOnly"@, flag_text(t.reduce_only)),
    ).push(field("side"@, json_string(t.side@))).push(
        field("symbol"@, json_string(t.symbol@)),
    ).push(field("timeInForce"@, json_string("IOC"@)))
}

/// The fields that set the leverage of a symbol, in the order of their names.
pub open spec fn leverage_fields(symbol: Seq<char>, leverage: int) -> Seq<Seq<char>> {
    seq![
        field("buyLeverage"@, json_string(nat_text(leverage as nat))),
        field("category"@, json_string("linear"@)),
        field("sellLeverage"@, json_string(nat_text(leverage as nat))),
        field("symbol"@, json_string(symbol)),
    ]
}

/// The query string of a question about an order.
pub open spec fn lookup_text(symbol: Seq<char>, order_id: Seq<char>) -> Seq<char> {
    "category=linear&symbol="@ + symbol + "&orderId="@ + order_id
}

/// Code of a reply which says that the leverage was already set.
pub const LEVERAGE_NOT_MODIFIED: i32 = 110043;

/// What is reported of a reply that carries an error code.
pub open spec fn error_text(prefix: Seq<char>, code: int, msg: Seq<char>) -> Seq<char> {
    prefix + int_text(code) + " - "@ + msg
}

/// What is reported of an order that ended without a fill.
pub open spec fn expired_text(order_id: Seq<char>) -> Seq<char> {
    "Bybit order "@ + order_id + " expired with 0 fill (IOC limit missed — slippage exceeded)"@
}

/// Whether a position is open: its size is not zero.
pub open spec fn position_open(p: BybitPosition) -> bool {
    match signed_units(p.size@) {
        Some(v) => v != 0,
        None => false,
    }
}

/// The open positions among the first `n` entries, in their order.
pub open spec fn open_entries(list: Seq<BybitPosition>, n: int) -> Seq<BybitPosition>
    decreases n,
{
    if n <= 0 {
        seq![]
    } else if position_open(list[n - 1]) {
        open_entries(list, n - 1).push(list[n - 1])
    } else {
        open_entries(list, n - 1)
    }
}

/// The amount that a text writes, `default` where it writes none.
pub open spec fn amount_or(text: Seq<char>, default: int) -> int {
    match crate::text::amount_units(text) {
        Some(v) => v,
        None => default,
    }
}

/// The size of the signed amount that a text writes, zero where it writes none.
pub open spec fn size_or_zero(text: Seq<char>) -> int {
    match signed_units(text) {
        Some(v) => crate::fixed::abs_of(v),
        None => 0,
    }
}

/// Reads an amount, `default` where there is none.
pub fn read_amount_or(text: &str, default: u64) -> (v: u64)
    ensures
        v == amount_or(text@, default as int),
        default <= MAX_AMOUNT ==> v <= MAX_AMOUNT,
{
    match parse_amount(text) {
        Some(v) => v,
        None => default,
    }
}

/// Reads the size of a signed amount, zero where there is none.
pub fn read_size(text: &str) -> (v: u64)
    ensures
        v == size_or_zero(text@),
        v <= MAX_AMOUNT,
{
    match parse_signed(text) {
        Some(v) => if v < 0 {
            (-v) as u64
        } else {
            v as u64
        },
        None => 0,
    }
}

fn parse_balance(text: &str) -> (r: Option<i64>)
    ensures
        match r {
            Some(v) => written_balance(text@) == Some(v as int),
            None => written_balance(text@) is None,
        },
{
    parse_signed(trim(text))
}

fn read_coin_balance(c: &BybitCoinBalance) -> (v: i64)
    ensures
        v == coin_balance(*c),
{
    if let Some(v) = parse_balance(c.walletBalance.as_str()) {
        return v;
    }
    if let Some(v) = parse_balance(c.availableToWithdraw.as_str()) {
        return v;
    }
    if let Some(v) = parse_balance(c.equity.as_str()) {
        return v;
    }
    0
}

fn read_account_balance(a: &BybitAccount) -> (r: Option<i64>)
    ensures
        match r {
            Some(v) => account_balance(*a) == Some(v as int),
            None => account_balance(*a) is None,
        },
{
    let mut i: usize = 0;
    while i < a.coin.len()
        invariant
            i <= a.coin@.len(),
            first_usdt_coin(a.coin@, 0) == first_usdt_coin(a.coin@, i as int),
        decreases a.coin@.len() - i,
    {
        if same_text(a.coin[i].coin.as_str(), "USDT") {
            return Some(read_coin_balance(&a.coin[i]));
        }
        i = i + 1;
    }
    if let Some(v) = parse_balance(a.totalAvailableBalance.as_str()) {
        return Some(v);
    }
    parse_balance(a.totalWalletBalance.as_str())
}

fn coded_error(prefix: &str, code: i32, msg: &str) -> (text: String)
    ensures
        text@ == error_text(prefix@, code as int, msg@),
{
    let mut text = prefix.to_owned();
    push_int(&mut text, code as i64);
    text.append(" - ");
    text.append(msg);
    text
}

impl BybitClient {
    /// A client for the production API with a five-second receive window.
    pub fn new(api_key: String, api_secret: String) -> (c: BybitClient)
        ensures
            c.api_key@ == api_key@,
            c.api_secret@ == api_secret@,
            c.base_url@ == "https://api.bybit.com"@,
            c.recv_window@ == "5000"@,
    {
        BybitClient {
            api_key,
            api_secret,
            base_url: "https://api.bybit.com".to_owned(),
            recv_window: "5000".to_owned(),
        }
    }

    /// The current time in milliseconds.
    pub fn timestamp_ms() -> (ms: u64)
        ensures
            ms <= i64::MAX,
    {
        epoch_millis()
    }

    /// A client order id made from a number of microseconds.
    pub fn order_link_id_at(micros: u128) -> (id: String)
        ensures
            id@ == "arb-"@ + nat_text(micros as nat),
    {
        let mut id = "arb-".to_owned();
        push_nat(&mut id, micros);
        id
    }

    /// A client order id made from the current time.
    pub fn new_order_link_id() -> (id: String)
        ensures
            exists|micros: u128| id@ == "arb-"@ + #[trigger] nat_text(micros as nat),
    {
        let micros: u128 = epoch_micros();
        Self::order_link_id_at(micros)
    }

    /// Signs a payload: the query string of a GET, the body of a POST.
    pub fn sign(&self, timestamp: u64, payload: &str) -> (signature: String)
        ensures
            signature@ == bybit_signature(*self, timestamp as int, payload@),
            signature@.len() == 64,
    {
        let mut pre_sign = String::new();
        push_nat(&mut pre_sign, timestamp as u128);
        assert(pre_sign@ =~= nat_text(timestamp as nat));
        pre_sign.append(self.api_key.as_str());
        pre_sign.append(self.recv_window.as_str());
        pre_sign.append(payload);
        sign(self.api_secret.as_str(), pre_sign.as_str())
    }

    /// The headers that authenticate a request.
    pub fn auth_headers(&self, timestamp: u64, signature: &str) -> (h: Vec<(&'static str, String)>)
        ensures
            h@.len() == 5,
            h@[0].0@ == "X-BAPI-API-KEY"@ && h@[0].1@ == self.api_key@,
            h@[1].0@ == "X-BAPI-SIGN"@ && h@[1].1@ == signature@,
            h@[2].0@ == "X-BAPI-SIGN-TYPE"@ && h@[2].1@ == "2"@,
            h@[3].0@ == "X-BAPI-TIMESTAMP"@ && h@[3].1@ == nat_text(timestamp as nat),
            h@[4].0@ == "X-BAPI-RECV-WINDOW"@ && h@[4].1@ == self.recv_window@,
    {
        let mut time = String::new();
        push_nat(&mut time, timestamp as u128);
        assert(time@ =~= nat_text(timestamp as nat));
        let mut h: Vec<(&'static str, String)> = Vec::new();
        h.push(("X-BAPI-API-KEY", self.api_key.clone()));
        h.push(("X-BAPI-SIGN", signature.to_owned()));
        h.push(("X-BAPI-SIGN-TYPE", "2".to_owned()));
        h.push(("X-BAPI-TIMESTAMP", time));
        h.push(("X-BAPI-RECV-WINDOW", self.recv_window.clone()));
        h
    }

    /// The query string of a question about an order.
    pub fn order_lookup(symbol: &str, order_id: &str) -> (q: String)
        ensures
            q@ == lookup_text(symbol@, order_id@),
    {
        let mut q = "category=linear&symbol=".to_owned();
        q.append(symbol);
        q.append("&orderId=");
        q.append(order_id);
        q
    }

    /// The body of an order.
    pub fn order_body(ticket: &OrderTicket) -> (body: String)
        ensures
            body@ == object_text(order_fields(*ticket)),
    {
        let mut f = Fields::new();
        f.put_string("category", "linear");
        f.put_string("orderLinkId", ticket.order_link_id.as_str());
        match ticket.price {
            Some(p) => {
                f.put_string("orderType", "Limit");
                assert(f@ =~= seq![
                    field("category"@, json_string("linear"@)),
                    field("orderLinkId"@, json_string(ticket.order_link_id@)),
                    field("orderType"@, json_string("Limit"@)),
                ]);
                let price = fixed_to_string(p as i128, 6);
                f.put_string("price", price.as_str());
            },
            None => {
                f.put_string("orderType", "Market");
                assert(f@ =~= seq![
                    field("category"@, json_string("linear"@)),
                    field("orderLinkId"@, json_string(ticket.order_link_id@)),
                    field("orderType"@, json_string("Market"@)),
                ]);
            },
        }
        let qty = fixed_to_string(ticket.quantity as i128, 8);
        f.put_string("qty", qty.as_str());
        f.put_flag("reduceOnly", ticket.reduce_only);
        f.put_string("side", ticket.side.as_str());
        f.put_string("symbol", ticket.symbol.as_str());
        f.put_string("timeInForce", "IOC");
        f.object()
    }

    /// The body that sets the leverage of a symbol.
    pub fn leverage_body(symbol: &str, leverage: u32) -> (body: String)
        ensures
            body@ == object_text(leverage_fields(symbol@, leverage as int)),
    {
        let mut lev = String::new();
        push_nat(&mut lev, leverage as u128);
        assert(lev@ =~= nat_text(leverage as nat));
        let mut f = Fields::new();
        f.put_string("buyLeverage", lev.as_str());
        f.put_string("category", "linear");
        f.put_string("sellLeverage", lev.as_str());
        f.put_string("symbol", symbol);
        assert(f@ =~= leverage_fields(symbol@, leverage as int));
        f.object()
    }

    /// The USDT balance in a wallet reply.
    pub fn get_balance(reply: &BybitResponse<BybitWalletResult>) -> (r: Result<i64, String>)
        ensures
            match r {
                Ok(v) => reply.retCode == 0 && v == wallet_balance(reply.result.list@, 0),
                Err(text) => reply.retCode != 0 && text@ == error_text(
                    "Bybit API error: "@,
                    reply.retCode as int,
                    reply.retMsg@,
                ),
            },
    {
        if reply.retCode != 0 {
            return Err(
                coded_error("Bybit API error: ", reply.retCode, reply.retMsg.as_str()),
            );
        }
        let list = &reply.result.list;
        let mut i: usize = 0;
        while i < list.len()
            invariant
                i <= list@.len(),
                reply.retCode == 0,
                *list == reply.result.list,
                wallet_balance(list@, 0) == wallet_balance(list@, i as int),
            decreases list@.len() - i,
        {
            if let Some(v) = read_account_balance(&list[i]) {
                return Ok(v);
            }
            i = i + 1;
        }
        Ok(0)
    }

    /// Whether an order was accepted.
    pub fn check_accepted(reply: &BybitResponse<BybitOrderResult>) -> (r: Result<(), String>)
        ensures
            match r {
                Ok(()) => reply.retCode == 0,
                Err(text) => reply.retCode != 0 && text@ == error_text(
                    "Bybit order error: "@,
                    reply.retCode as int,
                    reply.retMsg@,
                ),
            },
    {
        if reply.retCode != 0 {
            return Err(
                coded_error("Bybit order error: ", reply.retCode, reply.retMsg.as_str()),
            );
        }
        Ok(())
    }

    /// Whether a reply to a query carries data.
    pub fn check_query(ret_code: i32, ret_msg: &str) -> (r: Result<(), String>)
        ensures
            match r {
                Ok(()) => ret_code == 0,
                Err(text) => ret_code != 0 && text@ == error_text(
                    "Bybit API error: "@,
                    ret_code as int,
                    ret_msg@,
                ),
            },
    {
        if ret_code != 0 {
            return Err(coded_error("Bybit API error: ", ret_code, ret_msg));
        }
        Ok(())
    }

    /// The first order of an order query.
    pub fn get_order_detail(list: Vec<BybitOrderDetail>) -> (r: Result<BybitOrderDetail, String>)
        ensures
            match r {
                Ok(d) => list@.len() > 0 && d == list@[0],
                Err(text) => list@.len() == 0 && text@ == "Order not found"@,
            },
    {
        let mut list = list;
        if list.len() == 0 {
            return Err("Order not found".to_owned());
        }
        Ok(list.remove(0))
    }

    /// Whether the leverage is set: a reply that it was already set is fine.
    pub fn check_leverage(ret_code: i32, ret_msg: &str) -> (r: Result<(), String>)
        ensures
            match r {
                Ok(()) => ret_code == 0 || ret_code == LEVERAGE_NOT_MODIFIED,
                Err(text) => ret_code != 0 && ret_code != LEVERAGE_NOT_MODIFIED && text@
                    == error_text("Bybit set leverage error: "@, ret_code as int, ret_msg@),
            },
    {
        if ret_code != 0 && ret_code != LEVERAGE_NOT_MODIFIED {
            return Err(coded_error("Bybit set leverage error: ", ret_code, ret_msg));
        }
        Ok(())
    }

    /// The entries of a position list that are open.
    pub fn get_positions(list: Vec<BybitPosition>) -> (open: Vec<BybitPosition>)
        ensures
            open@ == open_entries(list@, list@.len() as int),
    {
        let ghost all = list@;
        let n: usize = list.len();
        let mut rest = list;
        let mut open: Vec<BybitPosition> = Vec::new();
        let mut i: usize = 0;
        assert(rest@ =~= all.skip(0));
        while i < n
            invariant
                i <= n == all.len(),
                rest@ == all.skip(i as int),
                open@ == open_entries(all, i as int),
            decreases n - i,
        {
            let p = rest.remove(0);
            let keep: bool = match parse_signed(p.size.as_str()) {
                Some(v) => v != 0,
                None => false,
            };
            if keep {
                open.push(p);
            }
            i = i + 1;
            assert(rest@ =~= all.skip(i as int));
        }
        open
    }

    /// The fill of an order whose event has arrived.
    pub fn fill_from_event(
        order_id: &str,
        symbol: &str,
        side: &str,
        event: &FillEvent,
    ) -> (r: Result<OrderFill, String>)
        ensures
            match r {
                Err(text) => event.is_expired && text@ == expired_text(order_id@),
                Ok(f) => {
                    &&& !event.is_expired
                    &&& f.order_id@ == order_id@
                    &&& f.symbol@ == symbol@
                    &&& f.side@ == side@
                    &&& f.avg_price == event.avg_price
                    &&& f.filled_qty == event.filled_qty
                    &&& f.quote_qty == event.quote_qty
                    &&& f.commission == event.commission
                    &&& f.timestamp == event.timestamp
                },
            },
    {
        if event.is_expired {
            let mut text = "Bybit order ".to_owned();
            text.append(order_id);
            text.append(" expired with 0 fill (IOC limit missed — slippage exceeded)");
            return Err(text);
        }
        Ok(
            OrderFill {
                order_id: order_id.to_owned(),
                symbol: symbol.to_owned(),
                side: side.to_owned(),
                avg_price: event.avg_price,
                filled_qty: event.filled_qty,
                quote_qty: event.quote_qty,
                commission: event.commission,
                timestamp: event.timestamp,
            },
        )
    }

    /// The fill of an order whose event did not arrive in time: from the order
    /// query that was made instead, or, where that failed too, the quantity that
    /// was ordered at a price of zero.
    pub fn fill_from_detail(
        order_id: &str,
        symbol: &str,
        side: &str,
        quantity: u64,
        detail: &Option<BybitOrderDetail>,
    ) -> (f: OrderFill)
        ensures
            f.order_id@ == order_id@,
            f.symbol@ == symbol@,
            f.side@ == side@,
            f.timestamp == 0,
            match detail {
                Some(d) => {
                    &&& f.avg_price == amount_or(d.avgPrice@, 0)
                    &&& f.filled_qty == amount_or(d.cumExecQty@, quantity as int)
                    &&& f.quote_qty == amount_or(d.cumExecValue@, 0)
                    &&& f.commission == size_or_zero(d.cumExecFee@)
                },
                None => f.avg_price == 0 && f.filled_qty == quantity && f.quote_qty == 0
                    && f.commission == 0,
            },
    {
        let (avg_price, filled_qty, quote_qty, commission): (u64, u64, u64, u64) = match detail {
            Some(d) => (
                read_amount_or(d.avgPrice.as_str(), 0),
                read_amount_or(d.cumExecQty.as_str(), quantity),
                read_amount_or(d.cumExecValue.as_str(), 0),
                read_size(d.cumExecFee.as_str()),
            ),
            None => (0, quantity, 0, 0),
        };
        OrderFill {
            order_id: order_id.to_owned(),
            symbol: symbol.to_owned(),
            side: side.to_owned(),
            avg_price,
            filled_qty,
            quote_qty: quote_qty as u128,
            commission,
            timestamp: 0,
        }
    }
}

} // verus!
