//! The session of a market feed: what follows what happens on its connection.
use super::binance_feed::{clear_binance_prices, without_binance};
use super::bybit_feed::{clear_bybit_prices, without_bybit};
use crate::price_store::{
    empty_book, spread_between, CoinPrices, Exchange, ExchangeStatus, PriceStore,
};
use vstd::prelude::*;

verus! {

/// Milliseconds between two pings.
pub const PING_EVERY_MS: u64 = 20_000;

/// Milliseconds between two checks whether the exchange is still enabled.
pub const ENABLE_CHECK_MS: u64 = 500;

/// Milliseconds to wait before an exchange that is not enabled is looked at again.
pub const ENABLE_WAIT_MS: u64 = 300;

/// Milliseconds of silence after which a connection counts as dead.
pub const DEAD_AFTER_MS: u128 = 30_000;

/// What came over a connection.
#[derive(Debug, Clone, Copy, PartialEq, Eq, Structural)]
pub enum Frame {
    Text,
    Ping,
    Pong,
    Other,
    /// The other side closes the connection.
    Close,
    /// The connection failed.
    Failed,
    /// There is nothing more to come.
    Ended,
}

/// What happens in a session.
#[derive(Debug, Clone, Copy, PartialEq, Eq, Structural)]
pub enum FeedEvent {
    /// It is time to check whether the exchange is still enabled.
    EnableCheck,
    /// It is time for a ping; nothing was heard for a while.
    PingDue { silent_ms: u128 },
    /// Something could not be sent.
    SendFailed,
    Arrived(Frame),
}

/// Why a session ends.
#[derive(Debug, Clone, Copy, PartialEq, Eq, Structural)]
pub enum LeaveReason {
    Disabled,
    Silent,
    SendFailed,
    Closed,
    Failed,
    Ended,
}

/// What follows in a session.
#[derive(Debug, Clone, Copy, PartialEq, Eq, Structural)]
pub enum FeedAction {
    Wait,
    SendPing,
    SendPong,
    /// The text that arrived is to be read.
    Read,
    Leave(LeaveReason),
}

/// Whether an exchange is enabled.
pub open spec fn enabled_on(s: ExchangeStatus, e: Exchange) -> bool {
    match e {
        Exchange::Binance => s.binance_enabled,
        Exchange::Bybit => s.bybit_enabled,
    }
}

/// A status in which an exchange is connected or not.
pub open spec fn connected_as(s: ExchangeStatus, e: Exchange, connected: bool) -> ExchangeStatus {
    match e {
        Exchange::Binance => ExchangeStatus { binance_connected: connected, ..s },
        Exchange::Bybit => ExchangeStatus { bybit_connected: connected, ..s },
    }
}

/// Prices without those of an exchange.
pub open spec fn without(p: CoinPrices, e: Exchange) -> CoinPrices {
    match e {
        Exchange::Binance => without_binance(p),
        Exchange::Bybit => without_bybit(p),
    }
}

/// Whether a store is another one without the prices of an exchange.
pub open spec fn cleared(before: PriceStore, after: PriceStore, e: Exchange) -> bool {
    &&& forall|k: Seq<char>| #[trigger] after@.contains_key(k) <==> before@.contains_key(k)
    &&& forall|k: Seq<char>| #[trigger]
        after@.contains_key(k) ==> after@[k] == without(before@[k], e)
}

/// What follows an event.
pub open spec fn feed_action(enabled: bool, event: FeedEvent) -> FeedAction {
    match event {
        FeedEvent::EnableCheck => if enabled {
            FeedAction::Wait
        } else {
            FeedAction::Leave(LeaveReason::Disabled)
        },
        FeedEvent::PingDue { silent_ms } => if silent_ms > DEAD_AFTER_MS {
            FeedAction::Leave(LeaveReason::Silent)
        } else {
            FeedAction::SendPing
        },
        FeedEvent::SendFailed => FeedAction::Leave(LeaveReason::SendFailed),
        FeedEvent::Arrived(frame) => match frame {
            Frame::Text => FeedAction::Read,
            Frame::Ping => FeedAction::SendPong,
            Frame::Pong | Frame::Other => FeedAction::Wait,
            Frame::Close => FeedAction::Leave(LeaveReason::Closed),
            Frame::Failed => FeedAction::Leave(LeaveReason::Failed),
            Frame::Ended => FeedAction::Leave(LeaveReason::Ended),
        },
    }
}

/// Whether something was heard of the other side.
pub fn is_heard(frame: Frame) -> (r: bool)
    ensures
        r == (feed_action(true, FeedEvent::Arrived(frame)) !is Leave),
{
    match frame {
        Frame::Text | Frame::Ping | Frame::Pong | Frame::Other => true,
        Frame::Close | Frame::Failed | Frame::Ended => false,
    }
}

/// Notes whether an exchange is connected.
pub fn set_connected(exchange: Exchange, status: &mut ExchangeStatus, connected: bool)
    ensures
        *final(status) == connected_as(*old(status), exchange, connected),
{
    match exchange {
        Exchange::Binance => {
            status.binance_connected = connected;
        },
        Exchange::Bybit => {
            status.bybit_connected = connected;
        },
    }
}

/// Takes leave of an exchange: it is no longer connected, and its prices are cleared.
fn disconnect(exchange: Exchange, status: &mut ExchangeStatus, store: &mut PriceStore)
    ensures
        *final(status) == connected_as(*old(status), exchange, false),
        cleared(*old(store), *final(store), exchange),
{
    set_connected(exchange, status, false);
    match exchange {
        Exchange::Binance => clear_binance_prices(store),
        Exchange::Bybit => clear_bybit_prices(store),
    }
}

/// Whether a session may begin. While the exchange is not enabled, it is not
/// connected and has no prices.
pub fn may_connect(exchange: Exchange, status: &mut ExchangeStatus, store: &mut PriceStore) -> (r:
    bool)
    ensures
        r == enabled_on(*old(status), exchange),
        r ==> *final(status) == *old(status) && *final(store) == *old(store),
        !r ==> *final(status) == connected_as(*old(status), exchange, false) && cleared(
            *old(store),
            *final(store),
            exchange,
        ),
{
    let enabled: bool = match exchange {
        Exchange::Binance => status.binance_enabled,
        Exchange::Bybit => status.bybit_enabled,
    };
    if !enabled {
        disconnect(exchange, status, store);
    }
    enabled
}

/// What follows an event. Where the session ends, the exchange is no longer
/// connected and its prices are cleared.
pub fn on_feed_event(
    exchange: Exchange,
    status: &mut ExchangeStatus,
    store: &mut PriceStore,
    event: FeedEvent,
) -> (a: FeedAction)
    ensures
        a == feed_action(enabled_on(*old(status), exchange), event),
        a !is Leave ==> *final(status) == *old(status) && *final(store) == *old(store),
        a is Leave ==> *final(status) == connected_as(*old(status), exchange, false) && cleared(
            *old(store),
            *final(store),
            exchange,
        ),
{
    let enabled: bool = match exchange {
        Exchange::Binance => status.binance_enabled,
        Exchange::Bybit => status.bybit_enabled,
    };
    let reason: LeaveReason = match event {
        FeedEvent::EnableCheck => if enabled {
            return FeedAction::Wait;
        } else {
            LeaveReason::Disabled
        },
        FeedEvent::PingDue { silent_ms } => if silent_ms > DEAD_AFTER_MS {
            LeaveReason::Silent
        } else {
            return FeedAction::SendPing;
        },
        FeedEvent::SendFailed => LeaveReason::SendFailed,
        FeedEvent::Arrived(frame) => match frame {
            Frame::Text => {
                return FeedAction::Read;
            },
            Frame::Ping => {
                return FeedAction::SendPong;
            },
            Frame::Pong | Frame::Other => {
                return FeedAction::Wait;
            },
            Frame::Close => LeaveReason::Closed,
            Frame::Failed => LeaveReason::Failed,
            Frame::Ended => LeaveReason::Ended,
        },
    };
    disconnect(exchange, status, store);
    FeedAction::Leave(reason)
}

/// An exchange whose session has ended makes no spreads: of no coin is a price or
/// a book of it left.
pub proof fn law_left_exchange_makes_no_spread(
    before: PriceStore,
    after: PriceStore,
    e: Exchange,
    coin: Seq<char>,
)
    requires
        cleared(before, after, e),
        after@.contains_key(coin),
    ensures
        ({
            let p = after@[coin];
            &&& spread_between(p.binance, p.bybit) is None
            &&& match e {
                Exchange::Binance => p.binance is None && p.binance_book == empty_book()
                    && p.binance_book_updated is None,
                Exchange::Bybit => p.bybit is None && p.bybit_book == empty_book()
                    && p.bybit_book_updated is None,
            }
        }),
{
}

/// Clearing an exchange leaves what is known of the other one.
pub proof fn law_other_exchange_stays(
    before: PriceStore,
    after: PriceStore,
    e: Exchange,
    coin: Seq<char>,
)
    requires
        cleared(before, after, e),
        before@.contains_key(coin),
    ensures
        ({
            let p = before@[coin];
            let q = after@[coin];
            match e {
                Exchange::Binance => q.bybit == p.bybit && q.bybit_updated == p.bybit_updated
                    && q.bybit_book == p.bybit_book && q.bybit_book_updated
                    == p.bybit_book_updated,
                Exchange::Bybit => q.binance == p.binance && q.binance_updated
                    == p.binance_updated && q.binance_book == p.binance_book
                    && q.binance_book_updated == p.binance_book_updated,
            }
        }),
{
    assert(after@.contains_key(coin));
}

} // verus!
