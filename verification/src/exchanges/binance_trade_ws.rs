//! Orders over the Binance WebSocket API: request frames, which carry their own
//! signature, and the requests that wait for a reply.
use super::binance_api::OrderTicket;
use super::channel::{
    open_channel, send, ChannelCounter, ChannelNumber, ChannelReceiver, ChannelSender,
};
use super::signing::{sign, signature_text};
use crate::clock::epoch_millis;
use crate::json::{field, json_string, object_text, with_optional, Fields};
use crate::text::{fixed_text, fixed_to_string, int_text, nat_text, push_fixed, push_int, push_nat};
use dashmap::DashMap;
use vstd::prelude::*;

verus! {

/// Address of the WebSocket API.
pub const WS_API_URL: &'static str = "wss://ws-fapi.binance.com/ws-fapi/v1";

/// Milliseconds after which a request is given up.
pub const REPLY_TIMEOUT_MS: u64 = 500;

/// Reply to an order.
#[derive(Debug, Clone)]
#[allow(non_snake_case)]
pub struct WsOrderResult {
    pub orderId: Option<u64>,
    pub symbol: String,
    pub status: String,
    pub clientOrderId: String,
    pub avgPrice: String,
    pub executedQty: String,
    pub cumQuote: String,
    pub origQty: String,
    pub updateTime: u64,
}

/// What comes back of a request: the JSON text of the result, or an error.
pub type Reply = Result<String, String>;

/// The ids of the requests that wait in a map, each with the number of the channel
/// whose sender stands under it.
pub uninterp spec fn request_channels(m: DashMap<String, ChannelSender<Reply>>) -> Map<
    Seq<char>,
    u64,
>;

/// `DashMap::new`: nothing waits.
#[verifier::external_body]
fn new_requests() -> (m: DashMap<String, ChannelSender<Reply>>)
    ensures
        forall|id: Seq<char>| !request_channels(m).contains_key(id),
{
    DashMap::new()
}

/// `DashMap::insert`: the sender stands under the id, the others stay.
#[verifier::external_body]
fn insert_request(
    m: &mut DashMap<String, ChannelSender<Reply>>,
    id: String,
    sender: ChannelSender<Reply>,
)
    ensures
        request_channels(*final(m)) == request_channels(*old(m)).insert(id@, sender.number()),
{
    m.insert(id, sender);
}

/// `DashMap::remove`: the id no longer waits, the others stay; the sender that
/// stood under it is handed out.
#[verifier::external_body]
fn take_request(m: &mut DashMap<String, ChannelSender<Reply>>, id: &str) -> (sender: Option<
    ChannelSender<Reply>,
>)
    ensures
        request_channels(*final(m)) == request_channels(*old(m)).remove(id@),
        sender is Some <==> request_channels(*old(m)).contains_key(id@),
        sender is Some ==> sender->Some_0.number() == request_channels(*old(m))[id@],
{
    m.remove(id).map(|entry| entry.1)
}

/// `DashMap::iter`: the keys of all entries, in no particular order.
#[verifier::external_body]
fn list_requests(m: &DashMap<String, ChannelSender<Reply>>) -> (ids: Vec<String>)
    ensures
        forall|id: Seq<char>|
            request_channels(*m).contains_key(id) <==> crate::text::texts(ids@).contains(id),
{
    m.iter().map(|e| e.key().clone()).collect()
}

/// Credentials, the requests that wait for a reply, and the next request number.
pub struct BinanceTradeWs {
    pub api_key: String,
    pub api_secret: String,
    pub connected: bool,
    requests: ChannelCounter,
    pending: DashMap<String, ChannelSender<Reply>>,
}

/// The id of a request.
pub open spec fn request_id(n: int) -> Seq<char> {
    "arb_ws_"@ + nat_text(n as nat)
}

/// How an order is to be matched: against a limit at once or not at all, or at
/// market.
pub open spec fn order_kind(price: Option<u64>) -> Seq<char> {
    if price is Some {
        "LIMIT"@
    } else {
        "MARKET"@
    }
}

/// What is signed of an order: its parameters in alphabetical order.
pub open spec fn signed_query(api_key: Seq<char>, t: OrderTicket, ts: int) -> Seq<char> {
    let head = "apiKey="@ + api_key + "&newClientOrderId="@ + t.client_order_id@;
    let priced = match t.price {
        Some(p) => head + "&price="@ + fixed_text(p as int, 6),
        None => head,
    };
    let sided = priced + "&quantity="@ + fixed_text(t.quantity as int, 8) + "&reduceOnly="@
        + crate::json::flag_text(t.reduce_only) + "&side="@ + t.side@ + "&symbol="@ + t.symbol@;
    let timed = if t.price is Some {
        sided + "&timeInForce=IOC"@
    } else {
        sided
    };
    timed + "&timestamp="@ + nat_text(ts as nat) + "&type="@ + order_kind(t.price)
}

/// The price as a JSON string.
pub open spec fn price_param(price: Option<u64>) -> Option<Seq<char>> {
    match price {
        Some(p) => Some(json_string(fixed_text(p as int, 6))),
        None => None,
    }
}

/// How long an order with a limit stays.
pub open spec fn lifetime_param(price: Option<u64>) -> Option<Seq<char>> {
    match price {
        Some(_) => Some(json_string("IOC"@)),
        None => None,
    }
}

/// The parameters of an order.
pub open spec fn order_params(
    api_key: Seq<char>,
    api_secret: Seq<char>,
    t: OrderTicket,
    ts: int,
) -> Seq<Seq<char>> {
    let f = seq![
        field("apiKey"@, json_string(api_key)),
        field("newClientOrderId"@, json_string(t.client_order_id@)),
    ];
    let f = with_optional(f, "price"@, price_param(t.price));
    let f = f.push(field("quantity"@, json_string(fixed_text(t.quantity as int, 8))));
    let f = f.push(field("reduceOnly"@, json_string(crate::json::flag_text(t.reduce_only))));
    let f = f.push(field("side"@, json_string(t.side@)));
    let f = f.push(
        field(
            "signature"@,
            json_string(signature_text(api_secret, signed_query(api_key, t, ts))),
        ),
    );
    let f = f.push(field("symbol"@, json_string(t.symbol@)));
    let f = with_optional(f, "timeInForce"@, lifetime_param(t.price));
    let f = f.push(field("timestamp"@, nat_text(ts as nat)));
    f.push(field("type"@, json_string(order_kind(t.price))))
}

/// The frame of an order.
pub open spec fn frame_text(id: Seq<char>, params: Seq<Seq<char>>) -> Seq<char> {
    object_text(
        seq![
            field("id"@, json_string(id)),
            field("method"@, json_string("order.place"@)),
            field("params"@, object_text(params)),
        ],
    )
}

impl BinanceTradeWs {
    /// The ids of the requests that wait for a reply, each with the number of the
    /// channel on which it waits.
    pub closed spec fn waiting(&self) -> Map<Seq<char>, u64> {
        request_channels(self.pending)
    }

    /// A client that is not connected and waits for nothing.
    pub fn new(api_key: String, api_secret: String) -> (c: BinanceTradeWs)
        ensures
            c.api_key() == api_key@,
            c.api_secret() == api_secret@,
            !c.connected_spec(),
            c.next_spec() == 1,
            c.waiting() == Map::<Seq<char>, u64>::empty(),
    {
        let c = BinanceTradeWs {
            api_key,
            api_secret,
            connected: false,
            requests: ChannelCounter::new(),
            pending: new_requests(),
        };
        assert(c.waiting() =~= Map::<Seq<char>, u64>::empty());
        c
    }

    /// The API key.
    pub closed spec fn api_key(&self) -> Seq<char> {
        self.api_key@
    }

    /// The API secret.
    pub closed spec fn api_secret(&self) -> Seq<char> {
        self.api_secret@
    }

    /// Whether the connection is up.
    pub closed spec fn connected_spec(&self) -> bool {
        self.connected
    }

    /// The number of the next request, and of the channel on which it will wait.
    pub closed spec fn next_spec(&self) -> u64 {
        self.requests@
    }

    /// Whether the connection is up.
    pub fn is_connected(&self) -> (r: bool)
        ensures
            r == self.connected_spec(),
    {
        self.connected
    }

    /// Notes that the connection is up.
    pub fn on_connect(&mut self)
        ensures
            final(self).connected_spec(),
            final(self).api_key() == old(self).api_key(),
            final(self).api_secret() == old(self).api_secret(),
            final(self).next_spec() == old(self).next_spec(),
            final(self).waiting() == old(self).waiting(),
    {
        self.connected = true;
    }

    fn next_req_id(&mut self) -> (r: (String, ChannelNumber))
        ensures
            r.0@ == request_id(old(self).next_spec() as int),
            r.1@ == old(self).next_spec(),
            final(self).next_spec() == old(self).next_spec().wrapping_add(1),
            final(self).api_key() == old(self).api_key(),
            final(self).api_secret() == old(self).api_secret(),
            final(self).connected_spec() == old(self).connected_spec(),
            final(self).waiting() == old(self).waiting(),
    {
        let number = self.requests.take();
        let mut id = "arb_ws_".to_owned();
        push_nat(&mut id, number.get() as u128);
        (id, number)
    }

    fn sign_order(&self, t: &OrderTicket, ts: u64) -> (signature: String)
        ensures
            signature@ == signature_text(
                self.api_secret(),
                signed_query(self.api_key(), *t, ts as int),
            ),
    {
        let mut q = "apiKey=".to_owned();
        q.append(self.api_key.as_str());
        q.append("&newClientOrderId=");
        q.append(t.client_order_id.as_str());
        if let Some(p) = t.price {
            q.append("&price=");
            push_fixed(&mut q, p as i128, 6);
        }
        q.append("&quantity=");
        push_fixed(&mut q, t.quantity as i128, 8);
        q.append("&reduceOnly=");
        if t.reduce_only {
            q.append("true");
        } else {
            q.append("false");
        }
        q.append("&side=");
        q.append(t.side.as_str());
        q.append("&symbol=");
        q.append(t.symbol.as_str());
        if t.price.is_some() {
            q.append("&timeInForce=IOC");
        }
        q.append("&timestamp=");
        push_nat(&mut q, ts as u128);
        q.append("&type=");
        if t.price.is_some() {
            q.append("LIMIT");
        } else {
            q.append("MARKET");
        }
        sign(self.api_secret.as_str(), q.as_str())
    }

    /// The frame of an order under a request id, at a time.
    pub fn order_frame(&self, id: &str, t: &OrderTicket, ts: u64) -> (s: String)
        ensures
            s@ == frame_text(
                id@,
                order_params(self.api_key(), self.api_secret(), *t, ts as int),
            ),
    {
        let signature = self.sign_order(t, ts);
        let mut f = Fields::new();
        f.put_string("apiKey", self.api_key.as_str());
        f.put_string("newClientOrderId", t.client_order_id.as_str());
        assert(f@ =~= seq![
            field("apiKey"@, json_string(self.api_key())),
            field("newClientOrderId"@, json_string(t.client_order_id@)),
        ]);
        if let Some(p) = t.price {
            let price = fixed_to_string(p as i128, 6);
            f.put_string("price", price.as_str());
        }
        let quantity = fixed_to_string(t.quantity as i128, 8);
        f.put_string("quantity", quantity.as_str());
        f.put_string(
            "reduceOnly",
            if t.reduce_only {
                "true"
            } else {
                "false"
            },
        );
        f.put_string("side", t.side.as_str());
        f.put_string("signature", signature.as_str());
        f.put_string("symbol", t.symbol.as_str());
        if t.price.is_some() {
            f.put_string("timeInForce", "IOC");
        }
        f.put_nat("timestamp", ts);
        f.put_string(
            "type",
            if t.price.is_some() {
                "LIMIT"
            } else {
                "MARKET"
            },
        );
        let params = f.object();
        let mut frame = Fields::new();
        frame.put_string("id", id);
        frame.put_string("method", "order.place");
        frame.put("params", params.as_str());
        assert(frame@ =~= seq![
            field("id"@, json_string(id@)),
            field("method"@, json_string("order.place"@)),
            field("params"@, params@),
        ]);
        frame.object()
    }

    /// Prepares an order, where the connection is up: the request waits before
    /// its frame is sent, on a channel of its own. The reply will come out of the
    /// receiver.
    pub fn place_order(&mut self, t: &OrderTicket) -> (r: Result<
        (String, String, ChannelReceiver<Reply>),
        String,
    >)
        ensures
            match r {
                Err(text) => {
                    &&& !old(self).connected_spec()
                    &&& text@ == "BinanceTradeWS not connected"@
                    &&& final(self).waiting() == old(self).waiting()
                    &&& final(self).next_spec() == old(self).next_spec()
                },
                Ok(sent) => {
                    &&& old(self).connected_spec()
                    &&& sent.0@ == request_id(old(self).next_spec() as int)
                    &&& exists|ts: u64| #[trigger]
                        frame_text(
                            sent.0@,
                            order_params(
                                old(self).api_key(),
                                old(self).api_secret(),
                                *t,
                                ts as int,
                            ),
                        ) == sent.1@
                    &&& sent.2.number() == old(self).next_spec()
                    &&& final(self).waiting() == old(self).waiting().insert(
                        sent.0@,
                        old(self).next_spec(),
                    )
                    &&& final(self).next_spec() == old(self).next_spec().wrapping_add(1)
                },
            },
            final(self).connected_spec() == old(self).connected_spec(),
            final(self).api_key() == old(self).api_key(),
            final(self).api_secret() == old(self).api_secret(),
    {
        if !self.connected {
            return Err("BinanceTradeWS not connected".to_owned());
        }
        let (id, number) = self.next_req_id();
        let ts: u64 = epoch_millis();
        let frame = self.order_frame(id.as_str(), t, ts);
        let (sender, receiver) = open_channel(number);
        insert_request(&mut self.pending, id.clone(), sender);
        Ok((id, frame, receiver))
    }

    /// Forgets a request that could not be sent or was given up.
    pub fn forget(&mut self, id: &str)
        ensures
            final(self).waiting() == old(self).waiting().remove(id@),
            final(self).connected_spec() == old(self).connected_spec(),
            final(self).next_spec() == old(self).next_spec(),
            final(self).api_key() == old(self).api_key(),
            final(self).api_secret() == old(self).api_secret(),
    {
        let _ = take_request(&mut self.pending, id);
    }

    /// Matches a reply with the request that waits for it, if one does. That
    /// request no longer waits, and the reply is ready to be delivered to it; all
    /// others still wait.
    pub fn on_reply(&mut self, id: &str, reply: Reply) -> (answer: Option<Answer>)
        ensures
            answer is Some <==> old(self).waiting().contains_key(id@),
            answer is Some ==> answer->Some_0.id@ == id@ && answer->Some_0.reply == reply
                && answer->Some_0.sender.number() == old(self).waiting()[id@],
            final(self).waiting() == old(self).waiting().remove(id@),
            final(self).connected_spec() == old(self).connected_spec(),
            final(self).next_spec() == old(self).next_spec(),
            final(self).api_key() == old(self).api_key(),
            final(self).api_secret() == old(self).api_secret(),
    {
        match take_request(&mut self.pending, id) {
            Some(sender) => Some(Answer { id: id.to_owned(), reply, sender }),
            None => None,
        }
    }

    /// Notes that the connection is down. Every request that waits is answered with
    /// an error, so that none waits forever.
    pub fn on_disconnect(&mut self) -> (answers: Vec<Answer>)
        ensures
            !final(self).connected_spec(),
            final(self).waiting() == Map::<Seq<char>, u64>::empty(),
            answers_all(answers@, old(self).waiting()),
            final(self).next_spec() == old(self).next_spec(),
            final(self).api_key() == old(self).api_key(),
            final(self).api_secret() == old(self).api_secret(),
    {
        self.connected = false;
        let ids = list_requests(&self.pending);
        let mut answers: Vec<Answer> = Vec::new();
        let mut i: usize = 0;
        assert forall|id: Seq<char>| #[trigger] self.waiting().contains_key(id) implies exists|k: int|
            0 <= k < ids@.len() && (#[trigger] ids@[k])@ == id by {
            let k = choose|k: int|
                0 <= k < ids@.len() && crate::text::texts(ids@)[k] == id;
            assert(ids@[k]@ == id);
        }
        while i < ids.len()
            invariant
                i <= ids@.len(),
                !self.connected_spec(),
                self.next_spec() == old(self).next_spec(),
                self.api_key() == old(self).api_key(),
                self.api_secret() == old(self).api_secret(),
                forall|id: Seq<char>| #[trigger]
                    self.waiting().contains_key(id) ==> exists|k: int|
                        i <= k < ids@.len() && (#[trigger] ids@[k])@ == id,
                self.waiting().submap_of(old(self).waiting()),
                answers_all(answers@, old(self).waiting().remove_keys(self.waiting().dom())),
            decreases ids@.len() - i,
        {
            let ghost before = *self;
            let ghost told = answers@;
            if let Some(answer) = self.on_reply(
                ids[i].as_str(),
                Err("WS disconnected".to_owned()),
            ) {
                answers.push(answer);
                proof {
                    lemma_one_more_answer(
                        told,
                        answer,
                        old(self).waiting().remove_keys(before.waiting().dom()),
                    );
                    assert(old(self).waiting().remove_keys(self.waiting().dom()) =~= old(
                        self,
                    ).waiting().remove_keys(before.waiting().dom()).insert(
                        answer.id@,
                        answer.sender.number(),
                    ));
                }
            } else {
                assert(self.waiting() =~= before.waiting());
            }
            assert forall|id: Seq<char>| #[trigger] self.waiting().contains_key(id) implies exists|k: int|
                i + 1 <= k < ids@.len() && (#[trigger] ids@[k])@ == id by {
                assert(before.waiting().contains_key(id));
                let k = choose|k: int| i <= k < ids@.len() && (#[trigger] ids@[k])@ == id;
                assert(k != i);
            }
            i = i + 1;
        }
        assert(self.waiting() =~= Map::<Seq<char>, u64>::empty());
        assert(old(self).waiting().remove_keys(self.waiting().dom()) =~= old(self).waiting());
        answers
    }
}

/// A reply that is ready to be delivered to the request that waited for it.
pub struct Answer {
    /// The id of the request.
    pub id: String,
    pub reply: Reply,
    /// The sender of the channel on which the request waits.
    pub sender: ChannelSender<Reply>,
}

impl Answer {
    /// Delivers the reply. Whether the task that waited for it still listens.
    pub fn deliver(self) -> (received: bool) {
        send(self.sender, self.reply)
    }
}

/// Whether answers tell each of the requests that wait, once and on its own channel,
/// that the connection is down.
pub open spec fn answers_all(answers: Seq<Answer>, waiting: Map<Seq<char>, u64>) -> bool {
    &&& forall|k: int|
        0 <= k < answers.len() ==> {
            &&& waiting.contains_key((#[trigger] answers[k]).id@)
            &&& answers[k].sender.number() == waiting[answers[k].id@]
            &&& answers[k].reply is Err
            &&& answers[k].reply->Err_0@ == "WS disconnected"@
        }
    &&& forall|id: Seq<char>| #[trigger]
        waiting.contains_key(id) ==> exists|k: int|
            0 <= k < answers.len() && (#[trigger] answers[k]).id@ == id
    &&& forall|j: int, k: int|
        0 <= j < k < answers.len() ==> (#[trigger] answers[j]).id@ != (#[trigger] answers[k]).id@
}

proof fn lemma_one_more_answer(answers: Seq<Answer>, a: Answer, waiting: Map<Seq<char>, u64>)
    requires
        answers_all(answers, waiting),
        !waiting.contains_key(a.id@),
        a.reply is Err,
        a.reply->Err_0@ == "WS disconnected"@,
    ensures
        answers_all(answers.push(a), waiting.insert(a.id@, a.sender.number())),
{
    let more = answers.push(a);
    let all = waiting.insert(a.id@, a.sender.number());
    assert forall|id: Seq<char>| #[trigger] all.contains_key(id) implies exists|k: int|
        0 <= k < more.len() && (#[trigger] more[k]).id@ == id by {
        if id == a.id@ {
            assert(more[answers.len() as int].id@ == id);
        } else {
            assert(waiting.contains_key(id));
            let k = choose|k: int| 0 <= k < answers.len() && (#[trigger] answers[k]).id@ == id;
            assert(more[k] == answers[k]);
        }
    }
    assert forall|k: int| 0 <= k < more.len() implies {
        &&& all.contains_key((#[trigger] more[k]).id@)
        &&& more[k].sender.number() == all[more[k].id@]
        &&& more[k].reply is Err
        &&& more[k].reply->Err_0@ == "WS disconnected"@
    } by {
        if k < answers.len() {
            assert(more[k] == answers[k]);
        }
    }
    assert forall|j: int, k: int| 0 <= j < k < more.len() implies (#[trigger] more[j]).id@ != (
    #[trigger] more[k]).id@ by {
        assert(more[j] == answers[j]);
        if k < answers.len() {
            assert(more[k] == answers[k]);
        }
    }
}

/// Whether each request that waits bears the number of its channel in its id.
pub open spec fn numbered(waiting: Map<Seq<char>, u64>) -> bool {
    forall|id: Seq<char>| #[trigger] waiting.contains_key(id) ==> id == request_id(waiting[id] as int)
}

/// Every request waits on a channel of its own: nothing waits at first, a new request
/// waits on the channel that has its number, and the others keep theirs when one goes;
/// so no two of them share a channel.
pub proof fn law_requests_keep_apart(waiting: Map<Seq<char>, u64>, n: u64, gone: Seq<char>)
    requires
        numbered(waiting),
    ensures
        numbered(Map::empty()),
        numbered(waiting.insert(request_id(n as int), n)),
        numbered(waiting.remove(gone)),
        forall|a: Seq<char>, b: Seq<char>|
            waiting.contains_key(a) && waiting.contains_key(b) && a != b ==> #[trigger] waiting[a]
                != #[trigger] waiting[b],
{
}

/// A reply reaches the request that it answers: it goes into the channel whose
/// receiver was handed out with the id, whatever other requests come and go.
pub proof fn law_reply_reaches_its_request(
    waiting: Map<Seq<char>, u64>,
    id: Seq<char>,
    n: u64,
    other: Seq<char>,
    m: u64,
)
    requires
        id != other,
    ensures
        waiting.insert(id, n)[id] == n,
        waiting.insert(id, n).insert(other, m).contains_key(id),
        waiting.insert(id, n).insert(other, m)[id] == n,
        waiting.insert(id, n).remove(other).contains_key(id),
        waiting.insert(id, n).remove(other)[id] == n,
        !waiting.insert(id, n).remove(id).contains_key(id),
{
}

/// An error that a reply states.
#[derive(Debug, Clone)]
pub struct WsApiError {
    pub code: i64,
    pub msg: String,
}

/// What a reply means: its result where the status is 200, else an error.
pub open spec fn reply_text(
    status: i32,
    result: Option<String>,
    error: Option<WsApiError>,
) -> Result<Seq<char>, Seq<char>> {
    if status == 200 {
        match result {
            Some(r) => Ok(r@),
            None => Err("Empty result in 200 response"@),
        }
    } else {
        match error {
            Some(e) => Err(
                "Binance WS API error "@ + int_text(e.code as int) + ": "@ + e.msg@,
            ),
            None => Err("WS API status "@ + int_text(status as int)),
        }
    }
}

/// What a reply means: its result where the status is 200, else an error.
pub fn read_reply(status: i32, result: Option<String>, error: Option<WsApiError>) -> (r: Reply)
    ensures
        match r {
            Ok(s) => reply_text(status, result, error) == Ok::<Seq<char>, Seq<char>>(s@),
            Err(s) => reply_text(status, result, error) == Err::<Seq<char>, Seq<char>>(s@),
        },
{
    if status == 200 {
        match result {
            Some(text) => Ok(text),
            None => Err("Empty result in 200 response".to_owned()),
        }
    } else {
        match error {
            Some(e) => {
                let mut s = "Binance WS API error ".to_owned();
                push_int(&mut s, e.code);
                s.append(": ");
                s.append(e.msg.as_str());
                Err(s)
            },
            None => {
                let mut s = "WS API status ".to_owned();
                push_int(&mut s, status as i64);
                Err(s)
            },
        }
    }
}

/// The error of a request that was given up.
pub fn timeout_error(id: &str) -> (s: String)
    ensures
        s@ == "WS order timeout ("@ + nat_text(REPLY_TIMEOUT_MS as nat) + "ms) for reqId="@ + id@,
{
    let mut s = "WS order timeout (".to_owned();
    push_nat(&mut s, REPLY_TIMEOUT_MS as u128);
    s.append("ms) for reqId=");
    s.append(id);
    s
}

} // verus!
