//! Orders that wait for their fill, and the live balance.
use super::channel::{open_channel, send, ChannelCounter, ChannelReceiver, ChannelSender};
use dashmap::DashMap;
use vstd::prelude::*;

verus! {

/// What a private feed reports about an order that has come to its end.
#[derive(Debug, Clone)]
pub struct FillEvent {
    pub order_id: String,
    pub avg_price: u64,
    pub filled_qty: u64,
    pub quote_qty: u128,
    pub commission: u64,
    pub timestamp: u64,
    /// Whether the order ended without any fill.
    pub is_expired: bool,
}

/// The ids under which orders wait in a map, each with the number of the channel
/// whose sender stands under it.
pub uninterp spec fn waiting_channels(m: DashMap<String, ChannelSender<FillEvent>>) -> Map<
    Seq<char>,
    u64,
>;

/// `DashMap::new`: nothing waits.
#[verifier::external_body]
fn new_waiting() -> (m: DashMap<String, ChannelSender<FillEvent>>)
    ensures
        forall|id: Seq<char>| !waiting_channels(m).contains_key(id),
{
    DashMap::new()
}

/// `DashMap::contains_key`.
#[verifier::external_body]
fn is_waiting(m: &DashMap<String, ChannelSender<FillEvent>>, id: &str) -> (r: bool)
    ensures
        r == waiting_channels(*m).contains_key(id@),
{
    m.contains_key(id)
}

/// `DashMap::insert`: the sender stands under the id, the others stay.
#[verifier::external_body]
fn insert_waiting(
    m: &mut DashMap<String, ChannelSender<FillEvent>>,
    id: String,
    sender: ChannelSender<FillEvent>,
)
    ensures
        waiting_channels(*final(m)) == waiting_channels(*old(m)).insert(id@, sender.number()),
{
    m.insert(id, sender);
}

/// `DashMap::remove`: the id no longer waits, the others stay; the sender that
/// stood under it is handed out.
#[verifier::external_body]
fn take_waiting(m: &mut DashMap<String, ChannelSender<FillEvent>>, id: &str) -> (sender: Option<
    ChannelSender<FillEvent>,
>)
    ensures
        waiting_channels(*final(m)) == waiting_channels(*old(m)).remove(id@),
        sender is Some <==> waiting_channels(*old(m)).contains_key(id@),
        sender is Some ==> sender->Some_0.number() == waiting_channels(*old(m))[id@],
{
    m.remove(id).map(|entry| entry.1)
}

/// What a registry holds.
#[verifier::ext_equal]
pub struct Waiting {
    /// The ids under which orders wait, each with the number of its channel.
    pub channels: Map<Seq<char>, u64>,
    /// The number of the channel that is opened next.
    pub next: u64,
}

impl Waiting {
    /// Whether an order waits under an id.
    pub open spec fn contains(self, id: Seq<char>) -> bool {
        self.channels.contains_key(id)
    }

    /// With one more order, which waits on a channel of its own.
    pub open spec fn insert(self, id: Seq<char>) -> Waiting {
        Waiting {
            channels: self.channels.insert(id, self.next),
            next: self.next.wrapping_add(1),
        }
    }

    /// Without the order under an id.
    pub open spec fn remove(self, id: Seq<char>) -> Waiting {
        Waiting { channels: self.channels.remove(id), next: self.next }
    }
}

/// Registry of orders that wait for a fill event. An order is registered before
/// it is sent, and leaves when its event arrives.
pub struct PendingFillMap {
    waiting: DashMap<String, ChannelSender<FillEvent>>,
    channels: ChannelCounter,
}

/// The id under which an event finds its order: the client's own id where an
/// order waits under it, else the exchange's id.
pub open spec fn matched_id(
    waiting: Waiting,
    client_id: Seq<char>,
    order_id: Seq<char>,
) -> Option<Seq<char>> {
    if client_id.len() > 0 && waiting.contains(client_id) {
        Some(client_id)
    } else if waiting.contains(order_id) {
        Some(order_id)
    } else {
        None
    }
}

impl PendingFillMap {
    pub closed spec fn view(&self) -> Waiting {
        Waiting { channels: waiting_channels(self.waiting), next: self.channels@ }
    }

    /// Whether an order waits under an id.
    pub fn contains(&self, id: &str) -> (r: bool)
        ensures
            r == self@.contains(id@),
    {
        is_waiting(&self.waiting, id)
    }

    /// Lets an order wait under an id, on a channel of its own. Its event will come
    /// out of the receiver.
    pub fn register(&mut self, id: &str) -> (receiver: ChannelReceiver<FillEvent>)
        ensures
            receiver.number() == old(self)@.next,
            final(self)@ == old(self)@.insert(id@),
    {
        let (sender, receiver) = open_channel(self.channels.take());
        insert_waiting(&mut self.waiting, id.to_owned(), sender);
        receiver
    }

    /// Forgets an order that failed or timed out.
    pub fn forget(&mut self, id: &str)
        ensures
            final(self)@ == old(self)@.remove(id@),
    {
        let _ = take_waiting(&mut self.waiting, id);
    }

    /// Matches an event with the order that waits for it, if one does. That order
    /// no longer waits, and the event is ready to be delivered to it; all others
    /// still wait.
    pub fn resolve(&mut self, client_id: &str, order_id: &str, event: FillEvent) -> (notice: Option<
        FillNotice,
    >)
        ensures
            match matched_id(old(self)@, client_id@, order_id@) {
                Some(id) => {
                    &&& notice is Some
                    &&& notice->Some_0.id@ == id
                    &&& notice->Some_0.event == event
                    &&& notice->Some_0.sender.number() == old(self)@.channels[id]
                    &&& final(self)@ == old(self)@.remove(id)
                },
                None => notice is None && final(self)@ == old(self)@,
            },
    {
        let by_client: bool = !client_id.is_empty() && self.contains(client_id);
        let id = if by_client {
            client_id
        } else {
            order_id
        };
        if !self.contains(id) {
            return None;
        }
        match take_waiting(&mut self.waiting, id) {
            Some(sender) => Some(FillNotice { id: id.to_owned(), event, sender }),
            None => None,
        }
    }
}

/// An event that is ready to be delivered to the order that waited for it.
pub struct FillNotice {
    /// The id under which the order waited.
    pub id: String,
    pub event: FillEvent,
    /// The sender of the channel on which the order waits.
    pub sender: ChannelSender<FillEvent>,
}

impl FillNotice {
    /// Delivers the event. Whether the task that waited for it still listens.
    pub fn deliver(self) -> (received: bool) {
        send(self.sender, self.event)
    }
}

/// A registry in which nothing waits.
pub fn new_pending_fill_map() -> (m: PendingFillMap)
    ensures
        m@ == (Waiting { channels: Map::empty(), next: 1 }),
{
    let m = PendingFillMap { waiting: new_waiting(), channels: ChannelCounter::new() };
    assert(m@.channels =~= Map::empty());
    m
}

/// USDT balance as the private feed last reported it.
#[derive(Debug, Clone, Copy, PartialEq, Eq, Structural)]
pub struct LiveBalance {
    pub usdt: i64,
}

/// A balance of zero: nothing has been reported yet.
pub fn new_live_balance() -> (b: LiveBalance)
    ensures
        b.usdt == 0,
{
    LiveBalance { usdt: 0 }
}

/// An event reaches at most one order: once resolved, the same event finds no
/// order under the id that it matched, unless that id is registered again.
pub proof fn law_event_resolves_once(
    waiting: Waiting,
    client_id: Seq<char>,
    order_id: Seq<char>,
)
    requires
        matched_id(waiting, client_id, order_id) is Some,
    ensures
        ({
            let id = matched_id(waiting, client_id, order_id)->Some_0;
            &&& waiting.contains(id)
            &&& matched_id(waiting.remove(id), client_id, order_id) != Some(id)
        }),
{
}

/// An event reaches the order that it is about: it goes into the channel whose
/// receiver was handed out when its id was registered, whatever other orders came
/// and went before and since.
pub proof fn law_event_reaches_its_order(
    waiting: Waiting,
    id: Seq<char>,
    other: Seq<char>,
    order_id: Seq<char>,
)
    requires
        id.len() > 0,
        id != other,
    ensures
        matched_id(waiting.insert(id), id, order_id) == Some(id),
        waiting.insert(id).channels[id] == waiting.next,
        matched_id(waiting.insert(id).insert(other), id, order_id) == Some(id),
        waiting.insert(id).insert(other).channels[id] == waiting.next,
        matched_id(waiting.insert(id).remove(other), id, order_id) == Some(id),
        waiting.insert(id).remove(other).channels[id] == waiting.next,
{
}

} // verus!
