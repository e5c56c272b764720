//! The private Binance feed: order updates end the wait for a fill, account
//! updates set the balance.
use super::bybit_api::{read_amount_or, read_size, size_or_zero};
use super::fill_channel::{matched_id, FillEvent, FillNotice, LiveBalance, PendingFillMap};
use crate::live_trading::open::{compute_usdt_value, usdt_value};
use crate::text::{nat_text, parse_signed, push_nat, same_text, signed_units};
use vstd::prelude::*;

verus! {

/// An order update as the feed writes it.
#[derive(Debug, Clone)]
pub struct OrderUpdate {
    pub status: String,
    pub order_id: u64,
    /// The id under which the order was sent.
    pub client_order_id: String,
    pub cum_filled_qty: String,
    pub avg_price: String,
    pub trade_time: u64,
    pub commission: String,
}

/// Whether an order has come to its end without being filled as a whole.
pub open spec fn is_dead(status: Seq<char>) -> bool {
    status == "EXPIRED"@ || status == "CANCELED"@ || status == "REJECTED"@
}

/// Whether an order has come to its end.
pub open spec fn is_terminal(status: Seq<char>) -> bool {
    status == "FILLED"@ || is_dead(status)
}

/// The amount that a text writes, zero where it writes none.
pub open spec fn amount_in(text: Seq<char>) -> int {
    super::bybit_api::amount_or(text, 0)
}

/// Whether an event is what an order update tells.
pub open spec fn tells_update(e: FillEvent, o: OrderUpdate) -> bool {
    &&& e.order_id@ == nat_text(o.order_id as nat)
    &&& e.avg_price == amount_in(o.avg_price@)
    &&& e.filled_qty == amount_in(o.cum_filled_qty@)
    &&& e.quote_qty == usdt_value(amount_in(o.avg_price@), amount_in(o.cum_filled_qty@))
    &&& e.commission == size_or_zero(o.commission@)
    &&& e.timestamp == o.trade_time
    &&& e.is_expired == (is_dead(o.status@) && amount_in(o.cum_filled_qty@) == 0)
}

impl OrderUpdate {
    /// The event that an update gives, none while the order is still working.
    pub fn fill_event(&self) -> (e: Option<FillEvent>)
        ensures
            e is Some <==> is_terminal(self.status@),
            e is Some ==> tells_update(e->Some_0, *self),
    {
        let dead: bool = same_text(self.status.as_str(), "EXPIRED") || same_text(
            self.status.as_str(),
            "CANCELED",
        ) || same_text(self.status.as_str(), "REJECTED");
        if !dead && !same_text(self.status.as_str(), "FILLED") {
            return None;
        }
        let mut order_id = String::new();
        push_nat(&mut order_id, self.order_id as u128);
        assert(order_id@ =~= nat_text(self.order_id as nat));
        let avg_price: u64 = read_amount_or(self.avg_price.as_str(), 0);
        let filled_qty: u64 = read_amount_or(self.cum_filled_qty.as_str(), 0);
        Some(
            FillEvent {
                order_id,
                avg_price,
                filled_qty,
                quote_qty: compute_usdt_value(avg_price, filled_qty) as u128,
                commission: read_size(self.commission.as_str()),
                timestamp: self.trade_time,
                is_expired: dead && filled_qty == 0,
            },
        )
    }
}

/// Takes an order update: an order that has come to its end no longer waits,
/// under its own id where it waits under it, else under that of the exchange. What
/// is to be delivered to it, where one waited.
pub fn on_order_update(pending: &mut PendingFillMap, o: &OrderUpdate) -> (notice: Option<
    FillNotice,
>)
    ensures
        ({
            let id = matched_id(old(pending)@, o.client_order_id@, nat_text(o.order_id as nat));
            if is_terminal(o.status@) && id is Some {
                &&& notice is Some
                &&& notice->Some_0.id@ == id->Some_0
                &&& notice->Some_0.sender.number() == old(pending)@.channels[id->Some_0]
                &&& tells_update(notice->Some_0.event, *o)
                &&& final(pending)@ == old(pending)@.remove(id->Some_0)
            } else {
                notice is None && final(pending)@ == old(pending)@
            }
        }),
{
    match o.fill_event() {
        Some(event) => {
            let order_id = event.order_id.clone();
            pending.resolve(o.client_order_id.as_str(), order_id.as_str(), event)
        },
        None => None,
    }
}

/// A balance as an account update writes it.
#[derive(Debug, Clone)]
pub struct BalanceEntry {
    pub asset: String,
    pub wallet_balance: String,
    pub cross_wallet_balance: String,
}

/// The text that states a balance: the cross wallet, unless it is empty or
/// zero, else the wallet.
pub open spec fn balance_text(b: BalanceEntry) -> Seq<char> {
    if b.cross_wallet_balance@.len() > 0 && b.cross_wallet_balance@ != "0"@ {
        b.cross_wallet_balance@
    } else {
        b.wallet_balance@
    }
}

/// The balance after the first `n` entries of an account update: the last USDT
/// entry that can be read counts, else the balance stays.
pub open spec fn balance_after(current: int, list: Seq<BalanceEntry>, n: int) -> int
    decreases n,
{
    if n <= 0 {
        current
    } else {
        let b = list[n - 1];
        match signed_units(balance_text(b)) {
            Some(v) if b.asset@ == "USDT"@ => v,
            _ => balance_after(current, list, n - 1),
        }
    }
}

/// Takes an account update.
pub fn on_account_update(balance: &mut LiveBalance, list: &Vec<BalanceEntry>)
    ensures
        final(balance).usdt == balance_after(
            old(balance).usdt as int,
            list@,
            list@.len() as int,
        ),
{
    let mut i: usize = 0;
    while i < list.len()
        invariant
            i <= list@.len(),
            balance.usdt == balance_after(old(balance).usdt as int, list@, i as int),
        decreases list@.len() - i,
    {
        let b = &list[i];
        if same_text(b.asset.as_str(), "USDT") {
            let written = if !b.cross_wallet_balance.as_str().is_empty() && !same_text(
                b.cross_wallet_balance.as_str(),
                "0",
            ) {
                b.cross_wallet_balance.as_str()
            } else {
                b.wallet_balance.as_str()
            };
            if let Some(v) = parse_signed(written) {
                balance.usdt = v;
            }
        }
        i = i + 1;
    }
}

/// Where listen keys are created and kept alive.
pub const LISTEN_KEY_URL: &'static str = "https://fapi.binance.com/fapi/v1/listenKey";

/// The address of the stream of a listen key.
pub fn stream_url(listen_key: &str) -> (url: String)
    ensures
        url@ == "wss://fstream.binance.com/ws/"@ + listen_key@,
{
    let mut url = "wss://fstream.binance.com/ws/".to_owned();
    url.append(listen_key);
    url
}

/// What an event of the user's stream is about.
#[derive(Debug, Clone, Copy, PartialEq, Eq, Structural)]
pub enum UserEvent {
    Order,
    Account,
    Other,
}

/// What an event of the user's stream is about.
pub fn user_event_of(kind: &str) -> (e: UserEvent)
    ensures
        e == if kind@ == "ORDER_TRADE_UPDATE"@ {
            UserEvent::Order
        } else if kind@ == "ACCOUNT_UPDATE"@ {
            UserEvent::Account
        } else {
            UserEvent::Other
        },
{
    if same_text(kind, "ORDER_TRADE_UPDATE") {
        UserEvent::Order
    } else if same_text(kind, "ACCOUNT_UPDATE") {
        UserEvent::Account
    } else {
        UserEvent::Other
    }
}

} // verus!
