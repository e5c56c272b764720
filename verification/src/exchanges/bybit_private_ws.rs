//! The private Bybit feed: executions and ended orders end the wait for a fill,
//! wallet updates set the balance.
use super::binance_private_ws::amount_in;
use super::bybit_api::{read_amount_or, read_size, size_or_zero};
use super::bybit_feed::{subscription, subscription_text};
use super::fill_channel::{matched_id, FillEvent, FillNotice, LiveBalance, PendingFillMap};
use super::signing::{sign, signature_text};
use crate::json::{array_text, field, json_string, object_text, string_text, Fields};
use crate::text::{nat_text, nat_units, parse_nat, parse_signed, push_nat, same_text, signed_units, texts};
use vstd::prelude::*;

verus! {

/// An execution as the feed writes it.
#[derive(Debug, Clone)]
pub struct ExecutionEvent {
    pub order_id: String,
    /// The id under which the order was sent.
    pub order_link_id: String,
    pub price: String,
    pub qty: String,
    pub value: String,
    pub fee: String,
    pub time: String,
    /// `Trade` for a fill.
    pub kind: String,
}

/// Whether an execution is a fill.
pub open spec fn is_trade(e: ExecutionEvent) -> bool {
    e.kind@ == "Trade"@ || e.kind@.len() == 0
}

/// The natural number that a text writes, zero where it writes none.
pub open spec fn nat_in(text: Seq<char>) -> int {
    match nat_units(text) {
        Some(v) => v,
        None => 0,
    }
}

/// Whether an event is what an execution tells.
pub open spec fn tells_execution(f: FillEvent, e: ExecutionEvent) -> bool {
    &&& f.order_id@ == e.order_id@
    &&& f.avg_price == amount_in(e.price@)
    &&& f.filled_qty == amount_in(e.qty@)
    &&& f.quote_qty == amount_in(e.value@)
    &&& f.commission == size_or_zero(e.fee@)
    &&& f.timestamp == nat_in(e.time@)
    &&& !f.is_expired
}

fn read_time(text: &str) -> (t: u64)
    ensures
        t == nat_in(text@),
{
    match parse_nat(text) {
        Some(v) => v,
        None => 0,
    }
}

impl ExecutionEvent {
    /// The event that an execution gives, none where it is not a fill.
    pub fn fill_event(&self) -> (f: Option<FillEvent>)
        ensures
            f is Some <==> is_trade(*self),
            f is Some ==> tells_execution(f->Some_0, *self),
    {
        if !same_text(self.kind.as_str(), "Trade") && !self.kind.as_str().is_empty() {
            return None;
        }
        Some(
            FillEvent {
                order_id: self.order_id.clone(),
                avg_price: read_amount_or(self.price.as_str(), 0),
                filled_qty: read_amount_or(self.qty.as_str(), 0),
                quote_qty: read_amount_or(self.value.as_str(), 0) as u128,
                commission: read_size(self.fee.as_str()),
                timestamp: read_time(self.time.as_str()),
                is_expired: false,
            },
        )
    }
}

/// Takes an execution: the order that it fills no longer waits. What is to be
/// delivered to it, where one waited.
pub fn on_execution(pending: &mut PendingFillMap, e: &ExecutionEvent) -> (notice: Option<
    FillNotice,
>)
    ensures
        ({
            let id = matched_id(old(pending)@, e.order_link_id@, e.order_id@);
            if is_trade(*e) && id is Some {
                &&& notice is Some
                &&& notice->Some_0.id@ == id->Some_0
                &&& notice->Some_0.sender.number() == old(pending)@.channels[id->Some_0]
                &&& tells_execution(notice->Some_0.event, *e)
                &&& final(pending)@ == old(pending)@.remove(id->Some_0)
            } else {
                notice is None && final(pending)@ == old(pending)@
            }
        }),
{
    match e.fill_event() {
        Some(event) => pending.resolve(e.order_link_id.as_str(), e.order_id.as_str(), event),
        None => None,
    }
}

/// An order update as the feed writes it.
#[derive(Debug, Clone)]
pub struct OrderEvent {
    pub order_id: String,
    /// The id under which the order was sent.
    pub order_link_id: String,
    pub status: String,
    pub avg_price: String,
    pub cum_qty: String,
    pub cum_value: String,
    pub cum_fee: String,
    pub updated: String,
}

/// Whether an order has come to its end without being filled as a whole.
pub open spec fn is_dead(status: Seq<char>) -> bool {
    status == "Cancelled"@ || status == "Expired"@ || status == "PartiallyFilledCanceled"@
        || status == "Rejected"@
}

/// Whether an order has come to its end.
pub open spec fn is_terminal(status: Seq<char>) -> bool {
    status == "Filled"@ || is_dead(status)
}

/// Whether an event is what an order update tells.
pub open spec fn tells_order(f: FillEvent, o: OrderEvent) -> bool {
    &&& f.order_id@ == o.order_id@
    &&& f.avg_price == amount_in(o.avg_price@)
    &&& f.filled_qty == amount_in(o.cum_qty@)
    &&& f.quote_qty == amount_in(o.cum_value@)
    &&& f.commission == size_or_zero(o.cum_fee@)
    &&& f.timestamp == nat_in(o.updated@)
    &&& f.is_expired == (is_dead(o.status@) && amount_in(o.cum_qty@) == 0)
}

impl OrderEvent {
    /// The event that an update gives, none while the order is still working.
    pub fn fill_event(&self) -> (f: Option<FillEvent>)
        ensures
            f is Some <==> is_terminal(self.status@),
            f is Some ==> tells_order(f->Some_0, *self),
    {
        let status = self.status.as_str();
        let dead: bool = same_text(status, "Cancelled") || same_text(status, "Expired")
            || same_text(status, "PartiallyFilledCanceled") || same_text(status, "Rejected");
        if !dead && !same_text(status, "Filled") {
            return None;
        }
        let filled_qty: u64 = read_amount_or(self.cum_qty.as_str(), 0);
        Some(
            FillEvent {
                order_id: self.order_id.clone(),
                avg_price: read_amount_or(self.avg_price.as_str(), 0),
                filled_qty,
                quote_qty: read_amount_or(self.cum_value.as_str(), 0) as u128,
                commission: read_size(self.cum_fee.as_str()),
                timestamp: read_time(self.updated.as_str()),
                is_expired: dead && filled_qty == 0,
            },
        )
    }
}

/// Takes an order update: an order that has come to its end and still waits no
/// longer does. What is to be delivered to it, where one waited.
pub fn on_order(pending: &mut PendingFillMap, o: &OrderEvent) -> (notice: Option<FillNotice>)
    ensures
        ({
            let id = matched_id(old(pending)@, o.order_link_id@, o.order_id@);
            if is_terminal(o.status@) && id is Some {
                &&& notice is Some
                &&& notice->Some_0.id@ == id->Some_0
                &&& notice->Some_0.sender.number() == old(pending)@.channels[id->Some_0]
                &&& tells_order(notice->Some_0.event, *o)
                &&& final(pending)@ == old(pending)@.remove(id->Some_0)
            } else {
                notice is None && final(pending)@ == old(pending)@
            }
        }),
{
    match o.fill_event() {
        Some(event) => pending.resolve(o.order_link_id.as_str(), o.order_id.as_str(), event),
        None => None,
    }
}

/// A coin of a wallet as the feed writes it.
#[derive(Debug, Clone)]
pub struct WalletCoin {
    pub coin: String,
    pub available_to_withdraw: String,
    pub wallet_balance: String,
}

/// The text that states a balance: the wallet balance, unless it is empty.
pub open spec fn balance_text(c: WalletCoin) -> Seq<char> {
    if c.wallet_balance@.len() > 0 {
        c.wallet_balance@
    } else {
        c.available_to_withdraw@
    }
}

/// The balance after the first `n` coins of a wallet update: the last USDT entry
/// that can be read counts, else the balance stays.
pub open spec fn balance_after(current: int, coins: Seq<WalletCoin>, n: int) -> int
    decreases n,
{
    if n <= 0 {
        current
    } else {
        let c = coins[n - 1];
        match signed_units(balance_text(c)) {
            Some(v) if c.coin@ == "USDT"@ => v,
            _ => balance_after(current, coins, n - 1),
        }
    }
}

/// Takes the coins of a wallet update, account after account.
pub fn on_wallet(balance: &mut LiveBalance, coins: &Vec<WalletCoin>)
    ensures
        final(balance).usdt == balance_after(
            old(balance).usdt as int,
            coins@,
            coins@.len() as int,
        ),
{
    let mut i: usize = 0;
    while i < coins.len()
        invariant
            i <= coins@.len(),
            balance.usdt == balance_after(old(balance).usdt as int, coins@, i as int),
        decreases coins@.len() - i,
    {
        let c = &coins[i];
        if same_text(c.coin.as_str(), "USDT") {
            let written = if !c.wallet_balance.as_str().is_empty() {
                c.wallet_balance.as_str()
            } else {
                c.available_to_withdraw.as_str()
            };
            if let Some(v) = parse_signed(written) {
                balance.usdt = v;
            }
        }
        i = i + 1;
    }
}

/// Milliseconds for which an authentication is valid.
pub const AUTH_WINDOW_MS: u64 = 10_000;

/// What is signed to authenticate.
pub open spec fn auth_payload(expires: int) -> Seq<char> {
    "GET/realtime"@ + nat_text(expires as nat)
}

/// The message that authenticates a connection.
pub open spec fn auth_text(api_key: Seq<char>, api_secret: Seq<char>, expires: int) -> Seq<char> {
    object_text(
        seq![
            field(
                "args"@,
                array_text(
                    seq![
                        json_string(api_key),
                        nat_text(expires as nat),
                        json_string(signature_text(api_secret, auth_payload(expires))),
                    ],
                ),
            ),
            field("op"@, json_string("auth"@)),
        ],
    )
}

/// The message that authenticates a connection until `expires`.
pub fn auth_message(api_key: &str, api_secret: &str, expires: u64) -> (s: String)
    ensures
        s@ == auth_text(api_key@, api_secret@, expires as int),
{
    let mut payload = "GET/realtime".to_owned();
    push_nat(&mut payload, expires as u128);
    let signature = sign(api_secret, payload.as_str());
    let mut parts: Vec<String> = Vec::new();
    parts.push(string_text(api_key));
    let mut when = String::new();
    push_nat(&mut when, expires as u128);
    parts.push(when);
    parts.push(string_text(signature.as_str()));
    assert(when@ =~= nat_text(expires as nat));
    assert(texts(parts@) =~= seq![
        json_string(api_key@),
        nat_text(expires as nat),
        json_string(signature_text(api_secret@, auth_payload(expires as int))),
    ]);
    let body = crate::text::join(&parts, ",");
    let mut args = "[".to_owned();
    args.append(body.as_str());
    args.append("]");
    let mut f = Fields::new();
    f.put("args", args.as_str());
    f.put_string("op", "auth");
    assert(f@ =~= seq![
        field("args"@, args@),
        field("op"@, json_string("auth"@)),
    ]);
    f.object()
}

/// The topics that the feed is subscribed to.
pub open spec fn private_topics() -> Seq<Seq<char>> {
    seq!["execution"@, "order"@, "wallet"@]
}

/// The message that subscribes to executions, orders and the wallet.
pub fn subscribe_message() -> (s: String)
    ensures
        s@ == subscription_text(private_topics()),
{
    let mut topics: Vec<String> = Vec::new();
    topics.push("execution".to_owned());
    topics.push("order".to_owned());
    topics.push("wallet".to_owned());
    assert(texts(topics@) =~= private_topics());
    subscription(&topics)
}

/// What a private message is about.
#[derive(Debug, Clone, Copy, PartialEq, Eq, Structural)]
pub enum PrivateTopic {
    Execution,
    Order,
    Wallet,
    Other,
}

/// What a private message is about. One that only confirms something is passed
/// over.
pub fn private_topic_of(op: &str, topic: &str) -> (t: PrivateTopic)
    ensures
        t == if op@ == "pong"@ || op@ == "subscribe"@ || op@ == "ping"@ {
            PrivateTopic::Other
        } else if topic@ == "execution"@ {
            PrivateTopic::Execution
        } else if topic@ == "order"@ {
            PrivateTopic::Order
        } else if topic@ == "wallet"@ {
            PrivateTopic::Wallet
        } else {
            PrivateTopic::Other
        },
{
    if is_control(op) {
        PrivateTopic::Other
    } else if same_text(topic, "execution") {
        PrivateTopic::Execution
    } else if same_text(topic, "order") {
        PrivateTopic::Order
    } else if same_text(topic, "wallet") {
        PrivateTopic::Wallet
    } else {
        PrivateTopic::Other
    }
}

/// Whether a message only confirms something and is passed over.
pub fn is_control(op: &str) -> (r: bool)
    ensures
        r == (op@ == "pong"@ || op@ == "subscribe"@ || op@ == "ping"@),
{
    same_text(op, "pong") || same_text(op, "subscribe") || same_text(op, "ping")
}

/// What a message during authentication means: whether it was granted, nothing
/// where the message is about something else.
pub fn auth_reply(op: &str, success: bool) -> (r: Option<bool>)
    ensures
        r == if op@ == "auth"@ {
            Some(success)
        } else {
            None
        },
{
    if same_text(op, "auth") {
        Some(success)
    } else {
        None
    }
}

} // verus!
