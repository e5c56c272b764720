//! The course of a single order: it waits for its fill event before it is sent,
//! and where the event does not come in time the exchange is asked for the order.
use super::binance_api;
use super::binance_api::{
    amount_or_zero, died_at_once, died_text, zero_data_text, BinanceClient, BinanceOrderResponse,
};
use super::bybit_api;
use super::bybit_api::{
    amount_or, error_text, size_or_zero, BybitClient, BybitOrderDetail, BybitOrderResult,
    BybitResponse,
};
use super::channel::ChannelReceiver;
use super::fill_channel::{FillEvent, PendingFillMap};
use crate::fixed::SCALE;
use crate::text::{nat_text, push_nat};
use vstd::prelude::*;

verus! {

/// How long an order waits for its fill event.
pub const FILL_TIMEOUT_MS: u64 = 500;

/// Why an order could not be asked for.
pub enum DetailError {
    /// The request failed.
    Query(String),
    /// The reply could not be read.
    Parse { error: String, body: String },
}

/// What is told of an order whose event did not come and which could not be
/// asked for.
pub open spec fn lost_text(order_id: int, e: DetailError) -> Seq<char> {
    match e {
        DetailError::Query(error) => "Binance order "@ + nat_text(order_id as nat)
            + " WS timeout + REST query failed: "@ + error@ + ". Check exchange manually."@,
        DetailError::Parse { error, body } => "Binance order "@ + nat_text(order_id as nat)
            + " WS timeout + REST detail parse failed: "@ + error@ + " | body: "@ + body@,
    }
}

/// Whether a fill is the one that an event reports of an order.
pub open spec fn binance_fill_of_event(
    f: binance_api::OrderFill,
    order: BinanceOrderResponse,
    event: FillEvent,
) -> bool {
    &&& f.order_id == order.orderId
    &&& f.symbol@ == order.symbol@
    &&& f.side@ == order.side@
    &&& f.avg_price == event.avg_price
    &&& f.filled_qty == event.filled_qty
    &&& f.quote_qty == event.quote_qty
    &&& f.commission == event.commission
    &&& f.commission_asset@ == "USDT"@
    &&& f.realized_pnl == 0
    &&& f.timestamp == event.timestamp
}

/// Whether a fill is the one that a query reports of an order.
pub open spec fn binance_fill_of_detail(
    f: binance_api::OrderFill,
    order: BinanceOrderResponse,
    detail: BinanceOrderResponse,
) -> bool {
    &&& f.order_id == order.orderId
    &&& f.symbol@ == order.symbol@
    &&& f.side@ == order.side@
    &&& f.avg_price == amount_or_zero(detail.avgPrice@)
    &&& f.filled_qty == amount_or_zero(detail.executedQty@)
    &&& f.quote_qty == amount_or_zero(detail.cumQuote@)
    &&& f.commission == amount_or_zero(detail.cumQuote@) * 50_000 / (SCALE as int)
    &&& f.commission_asset@ == "USDT"@
    &&& f.realized_pnl == 0
    &&& f.timestamp == order.updateTime
}

/// Whether `r` is what follows the reply to an order on Binance: its end where it was
/// refused or ended at once without a fill, else nothing yet.
pub open spec fn binance_placed(
    placed: Result<BinanceOrderResponse, String>,
    r: Option<String>,
) -> bool {
    match placed {
        Err(e) => r is Some && r->Some_0@ == e@,
        Ok(order) => if died_at_once(order) {
            r is Some && r->Some_0@ == died_text(order.orderId as int)
        } else {
            r is None
        },
    }
}

/// Whether `r` is what follows the wait for the event of an order on Binance.
pub open spec fn binance_waited(
    order: BinanceOrderResponse,
    event: Option<FillEvent>,
    r: Option<Result<binance_api::OrderFill, String>>,
) -> bool {
    match event {
        None => r is None,
        Some(event) => match r {
            Some(Ok(f)) => !event.is_expired && binance_fill_of_event(f, order, event),
            Some(Err(e)) => event.is_expired && e@ == binance_api::expired_text(
                order.orderId as int,
            ),
            None => false,
        },
    }
}

/// Whether `r` is the end of an order that Binance was asked for.
pub open spec fn binance_asked(
    order: BinanceOrderResponse,
    detail: Result<BinanceOrderResponse, DetailError>,
    r: Result<binance_api::OrderFill, String>,
) -> bool {
    match detail {
        Ok(detail) => {
            let avg_price = amount_or_zero(detail.avgPrice@);
            let filled_qty = amount_or_zero(detail.executedQty@);
            match r {
                Ok(f) => avg_price > 0 && filled_qty > 0 && binance_fill_of_detail(
                    f,
                    order,
                    detail,
                ),
                Err(e) => (avg_price == 0 || filled_qty == 0) && e@ == zero_data_text(
                    order.orderId as int,
                    detail.status@,
                    avg_price,
                    filled_qty,
                ),
            }
        },
        Err(e) => r is Err && r->Err_0@ == lost_text(order.orderId as int, e),
    }
}

impl BinanceClient {
    /// Begins an order: it waits for its event under a fresh id before it is sent.
    pub fn begin_order(
        pending: &mut PendingFillMap,
        symbol: &str,
        side: &str,
        quantity: u64,
        reduce_only: bool,
        price: Option<u64>,
    ) -> (r: (binance_api::OrderTicket, ChannelReceiver<FillEvent>))
        ensures
            final(pending)@ == old(pending)@.insert(r.0.client_order_id@),
            r.1.number() == old(pending)@.next,
            exists|micros: u128|
                r.0.client_order_id@ == "arb"@ + #[trigger] nat_text(micros as nat),
            r.0.symbol@ == symbol@,
            r.0.side@ == side@,
            r.0.quantity == quantity,
            r.0.reduce_only == reduce_only,
            r.0.price == price,
    {
        let client_order_id = BinanceClient::new_client_order_id();
        let receiver = pending.register(client_order_id.as_str());
        (
            binance_api::OrderTicket {
                symbol: symbol.to_owned(),
                side: side.to_owned(),
                quantity,
                client_order_id,
                reduce_only,
                price,
            },
            receiver,
        )
    }

    /// What follows the reply to an order: its end where it was refused or ended
    /// at once without a fill, or nothing yet where its event is to be waited for.
    pub fn after_placing(
        pending: &mut PendingFillMap,
        client_order_id: &str,
        placed: &Result<BinanceOrderResponse, String>,
    ) -> (r: Option<String>)
        ensures
            binance_placed(*placed, r),
            final(pending)@ == if r is Some {
                old(pending)@.remove(client_order_id@)
            } else {
                old(pending)@
            },
    {
        let end = match placed {
            Err(e) => Some(e.clone()),
            Ok(order) => match BinanceClient::check_accepted(order) {
                Ok(()) => None,
                Err(e) => Some(e),
            },
        };
        if end.is_some() {
            pending.forget(client_order_id);
        }
        end
    }

    /// What follows the wait for the event of an order: its end, or nothing yet
    /// where the event did not come and the exchange is to be asked.
    pub fn after_waiting(
        pending: &mut PendingFillMap,
        client_order_id: &str,
        order: &BinanceOrderResponse,
        event: &Option<FillEvent>,
    ) -> (r: Option<Result<binance_api::OrderFill, String>>)
        ensures
            binance_waited(*order, *event, r),
            final(pending)@ == if event is None {
                old(pending)@.remove(client_order_id@)
            } else {
                old(pending)@
            },
    {
        match event {
            Some(event) => Some(BinanceClient::fill_from_event(order, event)),
            None => {
                pending.forget(client_order_id);
                None
            },
        }
    }

    /// The end of an order that the exchange was asked for.
    pub fn after_query(
        order: &BinanceOrderResponse,
        detail: &Result<BinanceOrderResponse, DetailError>,
    ) -> (r: Result<binance_api::OrderFill, String>)
        ensures
            binance_asked(*order, *detail, r),
    {
        match detail {
            Ok(detail) => BinanceClient::fill_from_detail(order, detail),
            Err(e) => {
                let mut text = "Binance order ".to_owned();
                push_nat(&mut text, order.orderId as u128);
                match e {
                    DetailError::Query(error) => {
                        text.append(" WS timeout + REST query failed: ");
                        text.append(error.as_str());
                        text.append(". Check exchange manually.");
                    },
                    DetailError::Parse { error, body } => {
                        text.append(" WS timeout + REST detail parse failed: ");
                        text.append(error.as_str());
                        text.append(" | body: ");
                        text.append(body.as_str());
                    },
                }
                Err(text)
            },
        }
    }
}

/// Whether a fill is the one that an event reports of an order.
pub open spec fn bybit_fill_of_event(
    f: bybit_api::OrderFill,
    order_id: Seq<char>,
    ticket: bybit_api::OrderTicket,
    event: FillEvent,
) -> bool {
    &&& f.order_id@ == order_id
    &&& f.symbol@ == ticket.symbol@
    &&& f.side@ == ticket.side@
    &&& f.avg_price == event.avg_price
    &&& f.filled_qty == event.filled_qty
    &&& f.quote_qty == event.quote_qty
    &&& f.commission == event.commission
    &&& f.timestamp == event.timestamp
}

/// Whether `r` is what follows the reply to an order on Bybit: the id that the exchange
/// gave it, or its end where it was refused.
pub open spec fn bybit_placed(
    placed: Result<BybitResponse<BybitOrderResult>, String>,
    r: Result<String, String>,
) -> bool {
    match placed {
        Err(e) => r is Err && r->Err_0@ == e@,
        Ok(reply) => if reply.retCode == 0 {
            r is Ok && r->Ok_0@ == reply.result.orderId@
        } else {
            r is Err && r->Err_0@ == error_text(
                "Bybit order error: "@,
                reply.retCode as int,
                reply.retMsg@,
            )
        },
    }
}

/// Whether `r` is what follows the wait for the event of an order on Bybit.
pub open spec fn bybit_waited(
    ticket: bybit_api::OrderTicket,
    order_id: Seq<char>,
    event: Option<FillEvent>,
    r: Option<Result<bybit_api::OrderFill, String>>,
) -> bool {
    match event {
        None => r is None,
        Some(event) => match r {
            Some(Ok(f)) => !event.is_expired && bybit_fill_of_event(f, order_id, ticket, event),
            Some(Err(e)) => event.is_expired && e@ == bybit_api::expired_text(order_id),
            None => false,
        },
    }
}

/// Whether a fill is the end of an order that Bybit was asked for.
pub open spec fn bybit_asked(
    ticket: bybit_api::OrderTicket,
    order_id: Seq<char>,
    detail: Option<BybitOrderDetail>,
    f: bybit_api::OrderFill,
) -> bool {
    &&& f.order_id@ == order_id
    &&& f.symbol@ == ticket.symbol@
    &&& f.side@ == ticket.side@
    &&& f.timestamp == 0
    &&& match detail {
        Some(d) => {
            &&& f.avg_price == amount_or(d.avgPrice@, 0)
            &&& f.filled_qty == amount_or(d.cumExecQty@, ticket.quantity as int)
            &&& f.quote_qty == amount_or(d.cumExecValue@, 0)
            &&& f.commission == size_or_zero(d.cumExecFee@)
        },
        None => f.avg_price == 0 && f.filled_qty == ticket.quantity && f.quote_qty == 0
            && f.commission == 0,
    }
}

impl BybitClient {
    /// Begins an order: it waits for its event under a fresh id before it is sent.
    pub fn begin_order(
        pending: &mut PendingFillMap,
        symbol: &str,
        side: &str,
        quantity: u64,
        reduce_only: bool,
        price: Option<u64>,
    ) -> (r: (bybit_api::OrderTicket, ChannelReceiver<FillEvent>))
        ensures
            final(pending)@ == old(pending)@.insert(r.0.order_link_id@),
            r.1.number() == old(pending)@.next,
            exists|micros: u128|
                r.0.order_link_id@ == "arb-"@ + #[trigger] nat_text(micros as nat),
            r.0.symbol@ == symbol@,
            r.0.side@ == side@,
            r.0.quantity == quantity,
            r.0.reduce_only == reduce_only,
            r.0.price == price,
    {
        let order_link_id = BybitClient::new_order_link_id();
        let receiver = pending.register(order_link_id.as_str());
        (
            bybit_api::OrderTicket {
                symbol: symbol.to_owned(),
                side: side.to_owned(),
                quantity,
                order_link_id,
                reduce_only,
                price,
            },
            receiver,
        )
    }

    /// What follows the reply to an order: the id that the exchange gave it, whose
    /// event is to be waited for, or its end where it was refused.
    pub fn after_placing(
        pending: &mut PendingFillMap,
        order_link_id: &str,
        placed: &Result<BybitResponse<BybitOrderResult>, String>,
    ) -> (r: Result<String, String>)
        ensures
            bybit_placed(*placed, r),
            final(pending)@ == if r is Err {
                old(pending)@.remove(order_link_id@)
            } else {
                old(pending)@
            },
    {
        let end = match placed {
            Err(e) => Err(e.clone()),
            Ok(reply) => match BybitClient::check_accepted(reply) {
                Ok(()) => Ok(reply.result.orderId.clone()),
                Err(e) => Err(e),
            },
        };
        if end.is_err() {
            pending.forget(order_link_id);
        }
        end
    }

    /// What follows the wait for the event of an order: its end, or nothing yet
    /// where the event did not come and the exchange is to be asked.
    pub fn after_waiting(
        pending: &mut PendingFillMap,
        ticket: &bybit_api::OrderTicket,
        order_id: &str,
        event: &Option<FillEvent>,
    ) -> (r: Option<Result<bybit_api::OrderFill, String>>)
        ensures
            bybit_waited(*ticket, order_id@, *event, r),
            final(pending)@ == if event is None {
                old(pending)@.remove(ticket.order_link_id@)
            } else {
                old(pending)@
            },
    {
        match event {
            Some(event) => Some(
                BybitClient::fill_from_event(
                    order_id,
                    ticket.symbol.as_str(),
                    ticket.side.as_str(),
                    event,
                ),
            ),
            None => {
                pending.forget(ticket.order_link_id.as_str());
                None
            },
        }
    }

    /// The end of an order that the exchange was asked for. Where that failed too,
    /// it is the quantity that was ordered at a price of zero.
    pub fn after_query(
        ticket: &bybit_api::OrderTicket,
        order_id: &str,
        detail: &Option<BybitOrderDetail>,
    ) -> (f: bybit_api::OrderFill)
        ensures
            bybit_asked(*ticket, order_id@, *detail, f),
    {
        BybitClient::fill_from_detail(
            order_id,
            ticket.symbol.as_str(),
            ticket.side.as_str(),
            ticket.quantity,
            detail,
        )
    }
}

} // verus!
