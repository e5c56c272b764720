//! Binance futures: signed requests and what their replies mean.
use super::fill_channel::FillEvent;
use super::signing::{sign, signature_text};
use crate::clock::{epoch_micros, epoch_millis};
use crate::fixed::{MAX_AMOUNT, SCALE};
use crate::text::{
    amount_units, fixed_text, nat_text, parse_amount, parse_signed, plain_text, push_fixed,
    push_nat, push_plain, same_text, signed_units,
};
use vstd::prelude::*;

verus! {

/// Credentials and address of the Binance futures API.
#[derive(Clone)]
pub struct BinanceClient {
    pub api_key: String,
    pub api_secret: String,
    pub base_url: String,
}

/// Entry of the account balance list.
#[derive(Debug, Clone)]
#[allow(non_snake_case)]
pub struct BinanceBalance {
    pub asset: String,
    pub balance: String,
    pub availableBalance: String,
    pub crossUnPnl: String,
}

/// Reply to a new order or to an order query. While the order is new, price
/// and quantity may be empty.
#[derive(Debug, Clone)]
#[allow(non_snake_case)]
pub struct BinanceOrderResponse {
    pub orderId: u64,
    pub symbol: String,
    pub status: String,
    pub side: String,
    pub origQty: String,
    pub executedQty: String,
    pub avgPrice: String,
    pub cumQuote: String,
    pub updateTime: u64,
}

/// Reply to an order detail query.
#[derive(Debug, Clone)]
#[allow(non_snake_case)]
pub struct BinanceOrderDetail {
    pub orderId: u64,
    pub symbol: String,
    pub status: String,
    pub side: String,
    pub origQty: String,
    pub executedQty: String,
    pub avgPrice: String,
    pub cumQuote: String,
    pub commission: Option<String>,
    pub commissionAsset: Option<String>,
    pub updateTime: u64,
}

/// Entry of the trade list of an order.
#[derive(Debug, Clone)]
#[allow(non_snake_case)]
pub struct BinanceTrade {
    pub id: u64,
    pub orderId: u64,
    pub symbol: String,
    pub side: String,
    pub price: String,
    pub qty: String,
    pub quoteQty: String,
    pub commission: String,
    pub commissionAsset: String,
    pub realizedPnl: String,
    pub time: u64,
}

/// Entry of the position list.
#[derive(Debug, Clone)]
#[allow(non_snake_case)]
pub struct BinancePosition {
    pub symbol: String,
    pub positionAmt: String,
    pub entryPrice: String,
    pub unRealizedProfit: String,
    pub leverage: String,
    pub positionSide: String,
}

/// What an order was filled with.
#[derive(Debug, Clone)]
pub struct OrderFill {
    pub order_id: u64,
    pub symbol: String,
    pub side: String,
    pub avg_price: u64,
    pub filled_qty: u64,
    pub quote_qty: u128,
    pub commission: u64,
    pub commission_asset: String,
    pub realized_pnl: i64,
    pub timestamp: u64,
}

/// Why the USDT balance is not known.
#[derive(Debug, Clone, Copy, PartialEq, Eq, Structural)]
pub enum BalanceError {
    /// The list has no USDT entry.
    Missing,
    /// The USDT entry does not hold an amount.
    Unreadable,
}

/// An order as it is sent: what to trade, how much, at which limit.
pub struct OrderTicket {
    pub symbol: String,
    pub side: String,
    pub quantity: u64,
    pub client_order_id: String,
    pub reduce_only: bool,
    /// Worst acceptable price; without one the order goes to the market.
    pub price: Option<u64>,
}

/// The text of the reduce-only flag.
pub open spec fn reduce_only_text(b: bool) -> Seq<char> {
    if b {
        "true"@
    } else {
        "false"@
    }
}

/// The query string of an order: a limit order that is filled at once or
/// cancelled where there is a price, else a market order.
pub open spec fn order_query_text(t: OrderTicket, ts: int) -> Seq<char> {
    match t.price {
        Some(p) => "symbol="@ + t.symbol@ + "&side="@ + t.side@
            + "&type=LIMIT&timeInForce=IOC&quantity="@ + fixed_text(t.quantity as int, 8)
            + "&price="@ + fixed_text(p as int, 6) + "&newClientOrderId="@ + t.client_order_id@
            + "&reduceOnly="@ + reduce_only_text(t.reduce_only) + "&timestamp="@ + nat_text(
            ts as nat,
        ),
        None => "symbol="@ + t.symbol@ + "&side="@ + t.side@ + "&type=MARKET&quantity="@
            + fixed_text(t.quantity as int, 8) + "&newClientOrderId="@ + t.client_order_id@
            + "&reduceOnly="@ + reduce_only_text(t.reduce_only) + "&timestamp="@ + nat_text(
            ts as nat,
        ),
    }
}

/// The query string of a question about an order.
pub open spec fn order_lookup_text(symbol: Seq<char>, order_id: int, ts: int) -> Seq<char> {
    "symbol="@ + symbol + "&orderId="@ + nat_text(order_id as nat) + "&timestamp="@ + nat_text(
        ts as nat,
    )
}

/// The query string that sets the leverage of a symbol.
pub open spec fn leverage_query_text(symbol: Seq<char>, leverage: int, ts: int) -> Seq<char> {
    "symbol="@ + symbol + "&leverage="@ + nat_text(leverage as nat) + "&timestamp="@ + nat_text(
        ts as nat,
    )
}

/// The query string that holds a time only.
pub open spec fn time_query_text(ts: int) -> Seq<char> {
    "timestamp="@ + nat_text(ts as nat)
}

/// A query with its signature behind the address.
pub open spec fn signed_url_text(
    client: BinanceClient,
    path: Seq<char>,
    query: Seq<char>,
) -> Seq<char> {
    client.base_url@ + path + "?"@ + query + "&signature="@ + signature_text(
        client.api_secret@,
        query,
    )
}

/// Whether a position entry is open: its amount is not zero.
pub open spec fn position_open(p: BinancePosition) -> bool {
    match signed_units(p.positionAmt@) {
        Some(v) => v != 0,
        None => false,
    }
}

/// The open positions among the first `n` entries, in their order.
pub open spec fn open_entries(list: Seq<BinancePosition>, n: int) -> Seq<BinancePosition>
    decreases n,
{
    if n <= 0 {
        seq![]
    } else if position_open(list[n - 1]) {
        open_entries(list, n - 1).push(list[n - 1])
    } else {
        open_entries(list, n - 1)
    }
}

/// The place of the first USDT entry from `i` on.
pub open spec fn first_usdt(balances: Seq<BinanceBalance>, i: int) -> Option<int>
    decreases balances.len() - i,
{
    if i >= balances.len() {
        None
    } else if balances[i].asset@ == "USDT"@ {
        Some(i)
    } else {
        first_usdt(balances, i + 1)
    }
}

/// The amount that a text writes, zero where it writes none.
pub open spec fn amount_or_zero(text: Seq<char>) -> int {
    match amount_units(text) {
        Some(v) => v,
        None => 0,
    }
}

fn read_amount(text: &str) -> (v: u64)
    ensures
        v == amount_or_zero(text@),
        v <= MAX_AMOUNT,
{
    match parse_amount(text) {
        Some(v) => v,
        None => 0,
    }
}

/// Whether an order has ended at once without a fill.
pub open spec fn died_at_once(order: BinanceOrderResponse) -> bool {
    (order.status@ == "EXPIRED"@ || order.status@ == "CANCELED"@) && amount_or_zero(
        order.executedQty@,
    ) == 0
}

/// What is reported of an order that ended at once without a fill.
pub open spec fn died_text(order_id: int) -> Seq<char> {
    "Binance IOC order "@ + nat_text(order_id as nat)
        + " expired/canceled with 0 fill (slippage limit exceeded)"@
}

/// What is reported of an order whose event says that it ended without a fill.
pub open spec fn expired_text(order_id: int) -> Seq<char> {
    "Binance order "@ + nat_text(order_id as nat)
        + " expired with 0 fill (IOC limit missed — slippage exceeded)"@
}

/// What is reported of an order of which the exchange gives no price or quantity.
pub open spec fn zero_data_text(
    order_id: int,
    status: Seq<char>,
    avg_price: int,
    filled_qty: int,
) -> Seq<char> {
    "Binance order "@ + nat_text(order_id as nat) + " filled with zero data after timeout (status="@
        + status + ", avgPrice="@ + plain_text(avg_price) + ", qty="@ + plain_text(filled_qty)
        + "). Check exchange manually."@
}

impl BinanceClient {
    /// A client for the production futures API.
    pub fn new(api_key: String, api_secret: String) -> (c: BinanceClient)
        ensures
            c.api_key@ == api_key@,
            c.api_secret@ == api_secret@,
            c.base_url@ == "https://fapi.binance.com"@,
    {
        BinanceClient { api_key, api_secret, base_url: "https://fapi.binance.com".to_owned() }
    }

    /// The current time in milliseconds.
    pub fn timestamp_ms() -> (ms: u64)
        ensures
            ms <= i64::MAX,
    {
        epoch_millis()
    }

    /// A client order id made from a number of microseconds.
    pub fn client_order_id_at(micros: u128) -> (id: String)
        ensures
            id@ == "arb"@ + nat_text(micros as nat),
    {
        let mut id = "arb".to_owned();
        push_nat(&mut id, micros);
        id
    }

    /// A client order id made from the current time.
    pub fn new_client_order_id() -> (id: String)
        ensures
            exists|micros: u128| id@ == "arb"@ + #[trigger] nat_text(micros as nat),
    {
        let micros: u128 = epoch_micros();
        Self::client_order_id_at(micros)
    }

    /// Signs a query string.
    pub fn sign(&self, query: &str) -> (signature: String)
        ensures
            signature@ == signature_text(self.api_secret@, query@),
            signature@.len() == 64,
    {
        sign(self.api_secret.as_str(), query)
    }

    /// A query with its signature behind the address.
    fn signed_url(&self, path: &str, query: &str) -> (url: String)
        ensures
            url@ == signed_url_text(*self, path@, query@),
    {
        let signature = self.sign(query);
        let mut url = self.base_url.clone();
        url.append(path);
        url.append("?");
        url.append(query);
        url.append("&signature=");
        url.append(signature.as_str());
        url
    }

    fn time_query(ts: u64) -> (q: String)
        ensures
            q@ == time_query_text(ts as int),
    {
        let mut q = "timestamp=".to_owned();
        push_nat(&mut q, ts as u128);
        q
    }

    /// Where the balances are read (GET).
    pub fn balance_url(&self, ts: u64) -> (url: String)
        ensures
            url@ == signed_url_text(*self, "/fapi/v2/balance"@, time_query_text(ts as int)),
    {
        let q = Self::time_query(ts);
        self.signed_url("/fapi/v2/balance", q.as_str())
    }

    /// Where the positions are read (GET).
    pub fn positions_url(&self, ts: u64) -> (url: String)
        ensures
            url@ == signed_url_text(*self, "/fapi/v2/positionRisk"@, time_query_text(ts as int)),
    {
        let q = Self::time_query(ts);
        self.signed_url("/fapi/v2/positionRisk", q.as_str())
    }

    /// The query string of an order.
    pub fn order_query(ticket: &OrderTicket, ts: u64) -> (q: String)
        ensures
            q@ == order_query_text(*ticket, ts as int),
    {
        let mut q = "symbol=".to_owned();
        q.append(ticket.symbol.as_str());
        q.append("&side=");
        q.append(ticket.side.as_str());
        match ticket.price {
            Some(p) => {
                q.append("&type=LIMIT&timeInForce=IOC&quantity=");
                push_fixed(&mut q, ticket.quantity as i128, 8);
                q.append("&price=");
                push_fixed(&mut q, p as i128, 6);
            },
            None => {
                q.append("&type=MARKET&quantity=");
                push_fixed(&mut q, ticket.quantity as i128, 8);
            },
        }
        q.append("&newClientOrderId=");
        q.append(ticket.client_order_id.as_str());
        q.append("&reduceOnly=");
        if ticket.reduce_only {
            q.append("true");
        } else {
            q.append("false");
        }
        q.append("&timestamp=");
        push_nat(&mut q, ts as u128);
        q
    }

    /// Where an order is placed (POST).
    pub fn order_url(&self, ticket: &OrderTicket, ts: u64) -> (url: String)
        ensures
            url@ == signed_url_text(
                *self,
                "/fapi/v1/order"@,
                order_query_text(*ticket, ts as int),
            ),
    {
        let q = Self::order_query(ticket, ts);
        self.signed_url("/fapi/v1/order", q.as_str())
    }

    fn order_lookup(symbol: &str, order_id: u64, ts: u64) -> (q: String)
        ensures
            q@ == order_lookup_text(symbol@, order_id as int, ts as int),
    {
        let mut q = "symbol=".to_owned();
        q.append(symbol);
        q.append("&orderId=");
        push_nat(&mut q, order_id as u128);
        q.append("&timestamp=");
        push_nat(&mut q, ts as u128);
        q
    }

    /// Where an order is looked up (GET).
    pub fn order_detail_url(&self, symbol: &str, order_id: u64, ts: u64) -> (url: String)
        ensures
            url@ == signed_url_text(
                *self,
                "/fapi/v1/order"@,
                order_lookup_text(symbol@, order_id as int, ts as int),
            ),
    {
        let q = Self::order_lookup(symbol, order_id, ts);
        self.signed_url("/fapi/v1/order", q.as_str())
    }

    /// Where the trades of an order are read (GET).
    pub fn order_trades_url(&self, symbol: &str, order_id: u64, ts: u64) -> (url: String)
        ensures
            url@ == signed_url_text(
                *self,
                "/fapi/v1/userTrades"@,
                order_lookup_text(symbol@, order_id as int, ts as int),
            ),
    {
        let q = Self::order_lookup(symbol, order_id, ts);
        self.signed_url("/fapi/v1/userTrades", q.as_str())
    }

    /// Where the leverage of a symbol is set (POST).
    pub fn leverage_url(&self, symbol: &str, leverage: u32, ts: u64) -> (url: String)
        ensures
            url@ == signed_url_text(
                *self,
                "/fapi/v1/leverage"@,
                leverage_query_text(symbol@, leverage as int, ts as int),
            ),
    {
        let mut q = "symbol=".to_owned();
        q.append(symbol);
        q.append("&leverage=");
        push_nat(&mut q, leverage as u128);
        q.append("&timestamp=");
        push_nat(&mut q, ts as u128);
        self.signed_url("/fapi/v1/leverage", q.as_str())
    }

    /// The available USDT balance in a balance list.
    pub fn get_balance(balances: &Vec<BinanceBalance>) -> (r: Result<i64, BalanceError>)
        ensures
            match first_usdt(balances@, 0) {
                None => r == Err::<i64, BalanceError>(BalanceError::Missing),
                Some(i) => match signed_units(balances@[i].availableBalance@) {
                    None => r == Err::<i64, BalanceError>(BalanceError::Unreadable),
                    Some(v) => r is Ok && r->Ok_0 == v,
                },
            },
    {
        let mut i: usize = 0;
        while i < balances.len()
            invariant
                i <= balances@.len(),
                first_usdt(balances@, 0) == first_usdt(balances@, i as int),
            decreases balances@.len() - i,
        {
            let entry = &balances[i];
            if same_text(entry.asset.as_str(), "USDT") {
                return match parse_signed(entry.availableBalance.as_str()) {
                    Some(v) => Ok(v),
                    None => Err(BalanceError::Unreadable),
                };
            }
            i = i + 1;
        }
        Err(BalanceError::Missing)
    }

    /// The entries of a position list that are open.
    pub fn get_positions(list: Vec<BinancePosition>) -> (open: Vec<BinancePosition>)
        ensures
            open@ == open_entries(list@, list@.len() as int),
    {
        let ghost all = list@;
        let n: usize = list.len();
        let mut rest = list;
        let mut open: Vec<BinancePosition> = Vec::new();
        let mut i: usize = 0;
        assert(rest@ =~= all.skip(0));
        while i < n
            invariant
                i <= n == all.len(),
                rest@ == all.skip(i as int),
                open@ == open_entries(all, i as int),
            decreases n - i,
        {
            let p = rest.remove(0);
            let keep: bool = match parse_signed(p.positionAmt.as_str()) {
                Some(v) => v != 0,
                None => false,
            };
            if keep {
                open.push(p);
            }
            i = i + 1;
            assert(rest@ =~= all.skip(i as int));
        }
        open
    }

    /// Whether an accepted order is still to be waited for. An order that ended
    /// at once without a fill is not.
    pub fn check_accepted(order: &BinanceOrderResponse) -> (r: Result<(), String>)
        ensures
            match r {
                Ok(()) => !died_at_once(*order),
                Err(text) => died_at_once(*order) && text@ == died_text(order.orderId as int),
            },
    {
        let executed: u64 = read_amount(order.executedQty.as_str());
        if (same_text(order.status.as_str(), "EXPIRED") || same_text(
            order.status.as_str(),
            "CANCELED",
        )) && executed == 0 {
            let mut text = "Binance IOC order ".to_owned();
            push_nat(&mut text, order.orderId as u128);
            text.append(" expired/canceled with 0 fill (slippage limit exceeded)");
            return Err(text);
        }
        Ok(())
    }

    /// The fill of an order whose event has arrived.
    pub fn fill_from_event(order: &BinanceOrderResponse, event: &FillEvent) -> (r: Result<
        OrderFill,
        String,
    >)
        ensures
            match r {
                Err(text) => event.is_expired && text@ == expired_text(order.orderId as int),
                Ok(f) => {
                    &&& !event.is_expired
                    &&& f.order_id == order.orderId
                    &&& f.symbol@ == order.symbol@
                    &&& f.side@ == order.side@
                    &&& f.avg_price == event.avg_price
                    &&& f.filled_qty == event.filled_qty
                    &&& f.quote_qty == event.quote_qty
                    &&& f.commission == event.commission
                    &&& f.commission_asset@ == "USDT"@
                    &&& f.realized_pnl == 0
                    &&& f.timestamp == event.timestamp
                },
            },
    {
        if event.is_expired {
            let mut text = "Binance order ".to_owned();
            push_nat(&mut text, order.orderId as u128);
            text.append(" expired with 0 fill (IOC limit missed — slippage exceeded)");
            return Err(text);
        }
        Ok(
            OrderFill {
                order_id: order.orderId,
                symbol: order.symbol.clone(),
                side: order.side.clone(),
                avg_price: event.avg_price,
                filled_qty: event.filled_qty,
                quote_qty: event.quote_qty,
                commission: event.commission,
                commission_asset: "USDT".to_owned(),
                realized_pnl: 0,
                timestamp: event.timestamp,
            },
        )
    }

    /// The fill of an order whose event did not arrive in time, from the order
    /// query that was made instead. The commission is taken at the taker rate.
    pub fn fill_from_detail(order: &BinanceOrderResponse, detail: &BinanceOrderResponse) -> (r:
        Result<OrderFill, String>)
        ensures
            ({
                let avg_price = amount_or_zero(detail.avgPrice@);
                let filled_qty = amount_or_zero(detail.executedQty@);
                let quote_qty = amount_or_zero(detail.cumQuote@);
                match r {
                    Err(text) => (avg_price == 0 || filled_qty == 0) && text@ == zero_data_text(
                        order.orderId as int,
                        detail.status@,
                        avg_price,
                        filled_qty,
                    ),
                    Ok(f) => {
                        &&& avg_price > 0 && filled_qty > 0
                        &&& f.order_id == order.orderId
                        &&& f.symbol@ == order.symbol@
                        &&& f.side@ == order.side@
                        &&& f.avg_price == avg_price
                        &&& f.filled_qty == filled_qty
                        &&& f.quote_qty == quote_qty
                        &&& f.commission == quote_qty * 50_000 / (SCALE as int)
                        &&& f.commission_asset@ == "USDT"@
                        &&& f.realized_pnl == 0
                        &&& f.timestamp == order.updateTime
                    },
                }
            }),
    {
        let avg_price: u64 = read_amount(detail.avgPrice.as_str());
        let filled_qty: u64 = read_amount(detail.executedQty.as_str());
        let quote_qty: u64 = read_amount(detail.cumQuote.as_str());
        let commission: u64 = (quote_qty as u128 * 50_000 / 100_000_000) as u64;
        if avg_price == 0 || filled_qty == 0 {
            let mut text = "Binance order ".to_owned();
            push_nat(&mut text, order.orderId as u128);
            text.append(" filled with zero data after timeout (status=");
            text.append(detail.status.as_str());
            text.append(", avgPrice=");
            push_plain(&mut text, avg_price as i128);
            text.append(", qty=");
            push_plain(&mut text, filled_qty as i128);
            text.append("). Check exchange manually.");
            return Err(text);
        }
        Ok(
            OrderFill {
                order_id: order.orderId,
                symbol: order.symbol.clone(),
                side: order.side.clone(),
                avg_price,
                filled_qty,
                quote_qty: quote_qty as u128,
                commission,
                commission_asset: "USDT".to_owned(),
                realized_pnl: 0,
                timestamp: order.updateTime,
            },
        )
    }
}

} // verus!
