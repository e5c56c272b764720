//! The course of an opening and of a closing trade: which order follows which
//! reply of the exchanges, and when the trade is booked, fails or stays open.
use super::close::{
    close_booked, left_for_review, settle_close, CloseFill, CloseFills, ClosePlan, CloseStep,
    MAX_CLOSE_RETRIES,
};
use super::open::{
    book_in_range, needed_alignment, open_booked, settle_legs, legs_outcome, Alignment,
    LegsOutcome, OpenCandidate, OpenFills, OpenPlan, UnifiedFill, MAX_ALIGNMENTS,
};
use super::reasons::OpenFailure;
use super::{holds, LiveTradingEngine, OpenLeg};
use crate::latency::TradeLatency;
use crate::price_store::{Exchange, OrderBookEntry};
use crate::trade_journal::TradeRecord;
use vstd::prelude::*;

verus! {

/// An order for one leg. Without a price it is a market order.
#[derive(Debug, Clone, Copy, PartialEq, Eq, Structural)]
pub struct LegOrder {
    pub exchange: Exchange,
    pub is_buy: bool,
    pub quantity: u64,
    /// Whether the order may only reduce a position.
    pub reduce_only: bool,
    pub price: Option<u64>,
}

/// What follows in an opening trade.
#[derive(Debug, Clone, Copy, PartialEq, Eq, Structural)]
pub enum OpenAction {
    /// Both legs are to be ordered at once.
    SendBoth,
    /// The leg that was filled is to be given back.
    Reverse(LegOrder),
    /// The larger leg is to give back its excess.
    Align(LegOrder),
    /// The position is open.
    Book,
    /// No position was opened.
    Fail,
}

/// An opening trade under way.
pub struct OpenRun {
    pub buy_ex: Exchange,
    pub sell_ex: Exchange,
    pub buy_book: OrderBookEntry,
    pub sell_book: OrderBookEntry,
    pub plan: OpenPlan,
    /// What became of the buy leg and of the sell leg.
    pub legs: Option<(Result<UnifiedFill, String>, Result<UnifiedFill, String>)>,
    pub alignment: Option<Alignment>,
    /// Whether the reversal of the filled leg worked, once it was tried.
    pub reversed: Option<bool>,
}

/// The alignment that the legs need.
pub open spec fn alignment_for(
    buy: Result<UnifiedFill, String>,
    sell: Result<UnifiedFill, String>,
) -> Option<Alignment> {
    match (buy, sell) {
        (Ok(b), Ok(s)) => needed_alignment(b, s),
        _ => None,
    }
}

/// Whether a leg was not filled, or with values in range.
pub open spec fn leg_in_range(leg: Result<UnifiedFill, String>) -> bool {
    leg is Ok ==> leg->Ok_0.wf()
}

impl OpenRun {
    /// Books and fills are in range, and only a single filled leg is ever reversed.
    pub open spec fn wf(&self) -> bool {
        &&& book_in_range(self.buy_book)
        &&& book_in_range(self.sell_book)
        &&& self.alignment is Some ==> self.alignment->Some_0.wf()
        &&& self.legs is Some ==> leg_in_range(self.legs->Some_0.0) && leg_in_range(
            self.legs->Some_0.1,
        )
        &&& self.reversed is Some ==> self.legs is Some && (self.legs->Some_0.0 is Ok)
            != (self.legs->Some_0.1 is Ok)
    }

    /// The two orders that open the position: at market, for the same quantity, and
    /// not reducing.
    pub open spec fn legs_spec(&self) -> (LegOrder, LegOrder) {
        (
            LegOrder {
                exchange: self.buy_ex,
                is_buy: true,
                quantity: self.plan.quantity,
                reduce_only: false,
                price: None,
            },
            LegOrder {
                exchange: self.sell_ex,
                is_buy: false,
                quantity: self.plan.quantity,
                reduce_only: false,
                price: None,
            },
        )
    }

    /// What follows: first both legs; where only one was filled, its reversal at
    /// market; where both were filled, the alignment of their quantities; then the
    /// end.
    pub open spec fn action(&self) -> OpenAction {
        match self.legs {
            None => OpenAction::SendBoth,
            Some((Ok(b), Err(_))) => if self.reversed is None {
                OpenAction::Reverse(
                    LegOrder {
                        exchange: self.buy_ex,
                        is_buy: false,
                        quantity: b.filled_qty,
                        reduce_only: true,
                        price: None,
                    },
                )
            } else {
                OpenAction::Fail
            },
            Some((Err(_), Ok(s))) => if self.reversed is None {
                OpenAction::Reverse(
                    LegOrder {
                        exchange: self.sell_ex,
                        is_buy: true,
                        quantity: s.filled_qty,
                        reduce_only: true,
                        price: None,
                    },
                )
            } else {
                OpenAction::Fail
            },
            Some((Err(_), Err(_))) => OpenAction::Fail,
            Some((Ok(_), Ok(_))) => match self.alignment {
                Some(a) => match a.order(self.buy_book, self.sell_book) {
                    Some(o) => OpenAction::Align(
                        LegOrder {
                            exchange: if a.on_buy {
                                self.buy_ex
                            } else {
                                self.sell_ex
                            },
                            is_buy: o.is_buy,
                            quantity: o.quantity,
                            reduce_only: true,
                            price: Some(o.worst_price),
                        },
                    ),
                    None => OpenAction::Book,
                },
                None => OpenAction::Book,
            },
        }
    }

    /// A trade on a candidate that was decided on.
    pub fn start(c: &OpenCandidate, plan: OpenPlan) -> (r: OpenRun)
        requires
            book_in_range(c.buy_book),
            book_in_range(c.sell_book),
        ensures
            r.wf(),
            r.buy_ex == c.buy_ex,
            r.sell_ex == c.sell_ex,
            r.buy_book == c.buy_book,
            r.sell_book == c.sell_book,
            r.plan == plan,
            r.legs is None,
            r.alignment is None,
            r.reversed is None,
            r.action() == OpenAction::SendBoth,
    {
        OpenRun {
            buy_ex: c.buy_ex,
            sell_ex: c.sell_ex,
            buy_book: c.buy_book,
            sell_book: c.sell_book,
            plan,
            legs: None,
            alignment: None,
            reversed: None,
        }
    }

    /// The two orders that open the position.
    pub fn orders(&self) -> (o: (LegOrder, LegOrder))
        ensures
            o == self.legs_spec(),
    {
        (
            LegOrder {
                exchange: self.buy_ex,
                is_buy: true,
                quantity: self.plan.quantity,
                reduce_only: false,
                price: None,
            },
            LegOrder {
                exchange: self.sell_ex,
                is_buy: false,
                quantity: self.plan.quantity,
                reduce_only: false,
                price: None,
            },
        )
    }

    /// What follows.
    pub fn next(&self) -> (a: OpenAction)
        requires
            self.wf(),
        ensures
            a == self.action(),
    {
        match &self.legs {
            None => OpenAction::SendBoth,
            Some((Ok(b), Err(_))) => {
                if self.reversed.is_some() {
                    return OpenAction::Fail;
                }
                OpenAction::Reverse(
                    LegOrder {
                        exchange: self.buy_ex,
                        is_buy: false,
                        quantity: b.filled_qty,
                        reduce_only: true,
                        price: None,
                    },
                )
            },
            Some((Err(_), Ok(s))) => {
                if self.reversed.is_some() {
                    return OpenAction::Fail;
                }
                OpenAction::Reverse(
                    LegOrder {
                        exchange: self.sell_ex,
                        is_buy: true,
                        quantity: s.filled_qty,
                        reduce_only: true,
                        price: None,
                    },
                )
            },
            Some((Err(_), Err(_))) => OpenAction::Fail,
            Some((Ok(_), Ok(_))) => {
                let a = match &self.alignment {
                    Some(a) => a,
                    None => {
                        return OpenAction::Book;
                    },
                };
                match a.next_order(&self.buy_book, &self.sell_book) {
                    Some(o) => OpenAction::Align(
                        LegOrder {
                            exchange: if a.on_buy {
                                self.buy_ex
                            } else {
                                self.sell_ex
                            },
                            is_buy: o.is_buy,
                            quantity: o.quantity,
                            reduce_only: true,
                            price: Some(o.worst_price),
                        },
                    ),
                    None => OpenAction::Book,
                }
            },
        }
    }

    /// The trade once it is known what became of its two legs.
    pub open spec fn answered_with(
        &self,
        buy: Result<UnifiedFill, String>,
        sell: Result<UnifiedFill, String>,
    ) -> OpenRun {
        OpenRun { legs: Some((buy, sell)), alignment: alignment_for(buy, sell), ..*self }
    }

    /// Notes what became of the two legs.
    pub fn on_legs(&mut self, buy: Result<UnifiedFill, String>, sell: Result<UnifiedFill, String>)
        requires
            old(self).wf(),
            old(self).action() == OpenAction::SendBoth,
            leg_in_range(buy),
            leg_in_range(sell),
        ensures
            final(self).wf(),
            *final(self) == old(self).answered_with(buy, sell),
    {
        self.alignment = match (&buy, &sell) {
            (Ok(b), Ok(s)) => Alignment::start(b, s),
            _ => None,
        };
        self.legs = Some((buy, sell));
    }

    /// Notes whether the reversal of the filled leg worked.
    pub fn on_reversal(&mut self, worked: bool)
        requires
            old(self).wf(),
            old(self).action() is Reverse,
        ensures
            final(self).wf(),
            *final(self) == (OpenRun { reversed: Some(worked), ..*old(self) }),
            final(self).action() == OpenAction::Fail,
    {
        self.reversed = Some(worked);
    }

    /// Notes what an order that gives back excess was filled with, nothing where
    /// it failed.
    pub fn on_alignment(&mut self, filled: Option<u64>)
        requires
            old(self).wf(),
            old(self).action() is Align,
        ensures
            final(self).wf(),
            *final(self) == (OpenRun {
                alignment: Some(old(self).alignment->Some_0.after(filled)),
                ..*old(self)
            }),
    {
        if let Some(a) = self.alignment {
            let mut next = a;
            next.settle(filled);
            self.alignment = Some(next);
        }
    }

    /// Quantities of the legs after their alignment.
    pub open spec fn quantities(&self) -> (u64, u64) {
        match self.alignment {
            Some(a) => (a.buy_qty, a.sell_qty),
            None => (
                self.legs->Some_0.0->Ok_0.filled_qty,
                self.legs->Some_0.1->Ok_0.filled_qty,
            ),
        }
    }

    /// Whether fills are those of a trade whose position is open.
    pub open spec fn is_filled_by(&self, f: OpenFills, funding_hours: u32, now_ns: i64) -> bool {
        let legs = self.legs->Some_0;
        &&& f.quote == self.plan.quote
        &&& f.buy == legs.0->Ok_0
        &&& f.sell == legs.1->Ok_0
        &&& (f.buy_qty, f.sell_qty) == self.quantities()
        &&& f.funding_hours == funding_hours
        &&& f.now_ns == now_ns
    }

    /// The fills of a trade whose position is open.
    pub fn fills(&self, funding_hours: u32, now_ns: i64) -> (f: OpenFills)
        requires
            self.wf(),
            self.action() == OpenAction::Book,
        ensures
            f.wf(),
            self.is_filled_by(f, funding_hours, now_ns),
    {
        match &self.legs {
            Some((Ok(b), Ok(s))) => {
                let (buy_qty, sell_qty): (u64, u64) = match &self.alignment {
                    Some(a) => (a.buy_qty, a.sell_qty),
                    None => (b.filled_qty, s.filled_qty),
                };
                OpenFills {
                    quote: self.plan.quote,
                    buy: copy_fill(b),
                    sell: copy_fill(s),
                    buy_qty,
                    sell_qty,
                    funding_hours,
                    now_ns,
                }
            },
            _ => OpenFills {
                quote: self.plan.quote,
                buy: no_fill(),
                sell: no_fill(),
                buy_qty: 0,
                sell_qty: 0,
                funding_hours,
                now_ns,
            },
        }
    }

    /// Whether a failure tells what became of the trade.
    pub open spec fn is_told_by(&self, f: OpenFailure) -> bool {
        let legs = self.legs->Some_0;
        &&& f.outcome == legs_outcome(self.buy_ex, self.sell_ex, legs.0, legs.1)
        &&& match legs {
            (Ok(_), Err(e)) => f.error == e && f.other_error@.len() == 0,
            (Err(e), Ok(_)) => f.error == e && f.other_error@.len() == 0,
            (Err(e), Err(o)) => f.error == e && f.other_error == o,
            (Ok(_), Ok(_)) => f.error@.len() == 0 && f.other_error@.len() == 0,
        }
        &&& f.reversed == (self.reversed == Some(true))
    }

    /// What became of a trade that failed, with the round trips of its orders.
    pub fn failure(&self, buy_rtt_ms: i64, sell_rtt_ms: i64, reversal_rtt_ms: i64) -> (f:
        OpenFailure)
        requires
            self.action() == OpenAction::Fail,
        ensures
            self.is_told_by(f),
            f.buy_rtt_ms == buy_rtt_ms,
            f.sell_rtt_ms == sell_rtt_ms,
            f.reversal_rtt_ms == reversal_rtt_ms,
    {
        let reversed: bool = match self.reversed {
            Some(worked) => worked,
            None => false,
        };
        let (outcome, error, other_error): (LegsOutcome, String, String) = match &self.legs {
            Some((buy, sell)) => {
                let outcome = settle_legs(self.buy_ex, self.sell_ex, buy, sell);
                match (buy, sell) {
                    (Ok(_), Err(e)) => (outcome, e.clone(), String::new()),
                    (Err(e), Ok(_)) => (outcome, e.clone(), String::new()),
                    (Err(e), Err(o)) => (outcome, e.clone(), o.clone()),
                    (Ok(_), Ok(_)) => (outcome, String::new(), String::new()),
                }
            },
            None => (LegsOutcome::BothFailed, String::new(), String::new()),
        };
        OpenFailure {
            outcome,
            error,
            other_error,
            buy_rtt_ms,
            sell_rtt_ms,
            reversal_rtt_ms,
            reversed,
        }
    }
}

fn copy_fill(f: &UnifiedFill) -> (c: UnifiedFill)
    ensures
        c == *f,
{
    UnifiedFill {
        order_id: f.order_id.clone(),
        avg_price: f.avg_price,
        filled_qty: f.filled_qty,
        quote_qty: f.quote_qty,
        commission: f.commission,
    }
}

fn no_fill() -> (f: UnifiedFill)
    ensures
        f.order_id@ == Seq::<char>::empty(),
        f.avg_price == 0,
        f.filled_qty == 0,
        f.quote_qty == 0,
        f.commission == 0,
{
    UnifiedFill {
        order_id: String::new(),
        avg_price: 0,
        filled_qty: 0,
        quote_qty: 0,
        commission: 0,
    }
}

/// Whether the engine after an opening trade is the one before it, with its position
/// booked, or its failure noted.
pub open spec fn open_concluded(
    before: LiveTradingEngine,
    after: LiveTradingEngine,
    c: OpenCandidate,
    run: OpenRun,
    funding_hours: u32,
    now_ns: i64,
    latency: TradeLatency,
    r: Option<TradeRecord>,
) -> bool {
    &&& r is Some <==> run.action() == OpenAction::Book
    &&& run.action() == OpenAction::Book ==> exists|f: OpenFills|
        {
            &&& #[trigger] run.is_filled_by(f, funding_hours, now_ns)
            &&& open_booked(before, after, c, f, r->Some_0)
            &&& r->Some_0.latency == Some(latency)
        }
    &&& run.action() == OpenAction::Fail ==> {
        &&& after.emergency_halt == (before.emergency_halt || run.reversed != Some(
            true,
        ))
        &&& after == (LiveTradingEngine {
            emergency_halt: after.emergency_halt,
            last_trade_time: after.last_trade_time,
            ..before
        })
    }
    &&& after.last_trade_time@ == before.last_trade_time@.insert(c.coin@, now_ns)
}

impl LiveTradingEngine {
    /// Ends an opening trade: its position is booked, or its failure noted.
    pub fn conclude_open(
        &mut self,
        c: &OpenCandidate,
        run: &OpenRun,
        funding_hours: u32,
        now_ns: i64,
        latency: TradeLatency,
    ) -> (r: Option<TradeRecord>)
        requires
            old(self).wf(),
            old(self).has_room(),
            !holds(old(self).open_positions@, c.coin@),
            run.wf(),
            run.action() == OpenAction::Book || run.action() == OpenAction::Fail,
        ensures
            final(self).wf(),
            open_concluded(
                *old(self),
                *final(self),
                *c,
                *run,
                funding_hours,
                now_ns,
                latency,
                r,
            ),
    {
        match run.next() {
            OpenAction::Book => {
                let fills = run.fills(funding_hours, now_ns);
                assert(run.is_filled_by(fills, funding_hours, now_ns));
                Some(self.book_open(c, &fills, latency))
            },
            _ => {
                let f = run.failure(0, 0, 0);
                self.note_failed_open(c.coin.as_str(), f.outcome, f.reversed, now_ns);
                None
            },
        }
    }
}

/// What follows in a closing trade.
#[derive(Debug, Clone, Copy, PartialEq, Eq, Structural)]
pub enum CloseAction {
    /// Both legs are to be ordered at once.
    SendBoth,
    /// The leg that is left is to be ordered after a while.
    Retry { delay_ms: u64, order: LegOrder },
    /// Both legs are closed.
    Book,
    /// One leg could not be closed: the position is left for manual review.
    Review,
    /// Neither leg is closed: the position stays for the next pass.
    KeepOpen,
}

/// A closing trade under way.
pub struct CloseRun {
    pub plan: ClosePlan,
    /// Whether the orders of both legs were answered.
    pub answered: bool,
    /// The long leg, once it is sold.
    pub sold: Option<CloseFill>,
    /// The short leg, once it is bought back.
    pub bought: Option<CloseFill>,
    /// How often the leg that is left was ordered again.
    pub retries: u32,
}

impl CloseRun {
    /// Fills are in range, a leg is only ordered again once the other is closed,
    /// and not too often.
    pub open spec fn wf(&self) -> bool {
        &&& self.sold is Some ==> self.sold->Some_0.wf()
        &&& self.bought is Some ==> self.bought->Some_0.wf()
        &&& self.retries <= MAX_CLOSE_RETRIES
        &&& self.retries > 0 ==> self.sold is Some || self.bought is Some
        &&& !self.answered ==> self.sold is None && self.bought is None
    }

    /// The order that sells the long leg. Both orders only reduce.
    pub open spec fn sell_order(&self, price: Option<u64>) -> LegOrder {
        LegOrder {
            exchange: self.plan.sell_on,
            is_buy: false,
            quantity: self.plan.sell_qty,
            reduce_only: true,
            price,
        }
    }

    /// The order that buys back the short leg. Both orders only reduce.
    pub open spec fn buy_order(&self, price: Option<u64>) -> LegOrder {
        LegOrder {
            exchange: self.plan.buy_on,
            is_buy: true,
            quantity: self.plan.buy_qty,
            reduce_only: true,
            price,
        }
    }

    /// What follows: first both legs; where only one is closed, the other is
    /// ordered again at market, up to three times with growing delays.
    pub open spec fn action(&self) -> CloseAction {
        if !self.answered {
            CloseAction::SendBoth
        } else {
            match (self.sold, self.bought) {
                (Some(_), Some(_)) => CloseAction::Book,
                (None, None) => CloseAction::KeepOpen,
                (Some(_), None) => if self.retries < MAX_CLOSE_RETRIES {
                    CloseAction::Retry {
                        delay_ms: (300 * (self.retries + 1)) as u64,
                        order: self.buy_order(None),
                    }
                } else {
                    CloseAction::Review
                },
                (None, Some(_)) => if self.retries < MAX_CLOSE_RETRIES {
                    CloseAction::Retry {
                        delay_ms: (300 * (self.retries + 1)) as u64,
                        order: self.sell_order(None),
                    }
                } else {
                    CloseAction::Review
                },
            }
        }
    }

    /// A trade that was decided on.
    pub fn start(plan: ClosePlan) -> (r: CloseRun)
        ensures
            r.wf(),
            r.plan == plan,
            r.retries == 0,
            r.action() == CloseAction::SendBoth,
    {
        CloseRun { plan, answered: false, sold: None, bought: None, retries: 0 }
    }

    fn make_sell(&self, price: Option<u64>) -> (o: LegOrder)
        ensures
            o == self.sell_order(price),
    {
        LegOrder {
            exchange: self.plan.sell_on,
            is_buy: false,
            quantity: self.plan.sell_qty,
            reduce_only: true,
            price,
        }
    }

    fn make_buy(&self, price: Option<u64>) -> (o: LegOrder)
        ensures
            o == self.buy_order(price),
    {
        LegOrder {
            exchange: self.plan.buy_on,
            is_buy: true,
            quantity: self.plan.buy_qty,
            reduce_only: true,
            price,
        }
    }

    /// The two orders that close the position, limited.
    pub fn orders(&self) -> (o: (LegOrder, LegOrder))
        ensures
            o.0 == self.sell_order(Some(self.plan.worst_sell_price)),
            o.1 == self.buy_order(Some(self.plan.worst_buy_price)),
    {
        (
            self.make_sell(Some(self.plan.worst_sell_price)),
            self.make_buy(Some(self.plan.worst_buy_price)),
        )
    }

    /// What follows.
    pub fn next(&self) -> (a: CloseAction)
        requires
            self.wf(),
        ensures
            a == self.action(),
    {
        if !self.answered {
            return CloseAction::SendBoth;
        }
        match settle_close(self.sold.is_some(), self.bought.is_some()) {
            CloseStep::Done => CloseAction::Book,
            CloseStep::KeepOpen => CloseAction::KeepOpen,
            CloseStep::RetryBuy => match super::close::retry_delay_ms(self.retries + 1) {
                Some(delay_ms) => CloseAction::Retry { delay_ms, order: self.make_buy(None) },
                None => CloseAction::Review,
            },
            CloseStep::RetrySell => match super::close::retry_delay_ms(self.retries + 1) {
                Some(delay_ms) => CloseAction::Retry { delay_ms, order: self.make_sell(None) },
                None => CloseAction::Review,
            },
        }
    }

    /// The trade once it is known what became of its two legs.
    pub open spec fn answered_with(
        &self,
        sold: Option<CloseFill>,
        bought: Option<CloseFill>,
    ) -> CloseRun {
        CloseRun { answered: true, sold, bought, ..*self }
    }

    /// The trade once it is known what became of one more attempt on the leg that is
    /// left.
    pub open spec fn retried(&self, fill: Option<CloseFill>) -> CloseRun {
        if self.sold is Some {
            CloseRun { bought: fill, retries: (self.retries + 1) as u32, ..*self }
        } else {
            CloseRun { sold: fill, retries: (self.retries + 1) as u32, ..*self }
        }
    }

    /// Notes what became of the two legs, nothing where one failed.
    pub fn on_legs(&mut self, sold: Option<CloseFill>, bought: Option<CloseFill>)
        requires
            old(self).wf(),
            old(self).action() == CloseAction::SendBoth,
            sold is Some ==> sold->Some_0.wf(),
            bought is Some ==> bought->Some_0.wf(),
        ensures
            final(self).wf(),
            *final(self) == old(self).answered_with(sold, bought),
    {
        self.answered = true;
        self.sold = sold;
        self.bought = bought;
    }

    /// Notes what became of the leg that was left, nothing where it failed again.
    pub fn on_retry(&mut self, fill: Option<CloseFill>)
        requires
            old(self).wf(),
            old(self).action() is Retry,
            fill is Some ==> fill->Some_0.wf(),
        ensures
            final(self).wf(),
            *final(self) == old(self).retried(fill),
    {
        if self.sold.is_some() {
            self.bought = fill;
        } else {
            self.sold = fill;
        }
        self.retries = self.retries + 1;
    }
}

/// Whether the engine after a closing trade is the one before it: with the trade booked
/// where both legs are closed, the position left for review where one could not be, and
/// unchanged where neither is.
pub open spec fn close_concluded(
    before: LiveTradingEngine,
    after: LiveTradingEngine,
    coin: Seq<char>,
    run: CloseRun,
    current_spread: i128,
    now_ns: i64,
    r: Option<TradeRecord>,
) -> bool {
    &&& run.action() == CloseAction::KeepOpen ==> r is None && after == before
    &&& run.action() == CloseAction::Review ==> {
        &&& r is None
        &&& after.open_positions@ == left_for_review(
            before.open_positions@,
            coin,
            if run.sold is Some {
                OpenLeg::Short
            } else {
                OpenLeg::Long
            },
        )
        &&& after.last_trade_time@ == before.last_trade_time@.insert(
            coin,
            now_ns,
        )
        &&& after == (LiveTradingEngine {
            open_positions: after.open_positions,
            last_trade_time: after.last_trade_time,
            ..before
        })
    }
    &&& run.action() == CloseAction::Book ==> !holds(after.open_positions@, coin)
    &&& run.action() == CloseAction::Book ==> close_booked(
        before,
        after,
        coin,
        CloseFills {
            sell: run.sold->Some_0,
            buy: run.bought->Some_0,
            current_spread,
            hold_secs: run.plan.hold_secs,
            now_ns,
        },
        r,
    )
}

impl LiveTradingEngine {
    /// Ends a closing trade: it is booked, or its position stays, for the next pass or
    /// for manual review.
    pub fn conclude_close(
        &mut self,
        coin: &str,
        run: &CloseRun,
        current_spread: i128,
        now_ns: i64,
    ) -> (r: Option<TradeRecord>)
        requires
            old(self).wf(),
            old(self).has_room(),
            run.wf(),
            run.action() != CloseAction::SendBoth,
            run.action() !is Retry,
        ensures
            final(self).wf(),
            close_concluded(*old(self), *final(self), coin@, *run, current_spread, now_ns, r),
    {
        match (&run.sold, &run.bought) {
            (Some(sold), Some(bought)) => {
                let fills = CloseFills {
                    sell: copy_close(sold),
                    buy: copy_close(bought),
                    current_spread,
                    hold_secs: run.plan.hold_secs,
                    now_ns,
                };
                self.book_close(coin, &fills)
            },
            (None, None) => None,
            (Some(_), None) => {
                self.leave_for_review(coin, OpenLeg::Short, now_ns);
                None
            },
            (None, Some(_)) => {
                self.leave_for_review(coin, OpenLeg::Long, now_ns);
                None
            },
        }
    }
}

fn copy_close(f: &CloseFill) -> (c: CloseFill)
    ensures
        c == *f,
{
    CloseFill { order_id: f.order_id.clone(), avg_price: f.avg_price, commission: f.commission }
}

/// A position is opened by two orders at market for the same quantity: a buy on one
/// exchange and a sell on the other, neither of which only reduces.
pub proof fn law_opening_orders_at_market(run: OpenRun)
    ensures
        ({
            let (buy, sell) = run.legs_spec();
            &&& buy.price is None && sell.price is None
            &&& buy.quantity == sell.quantity == run.plan.quantity
            &&& buy.is_buy && !sell.is_buy
            &&& buy.exchange == run.buy_ex && sell.exchange == run.sell_ex
            &&& !buy.reduce_only && !sell.reduce_only
        }),
{
}

/// Once the two legs of an opening trade are answered, every further order only
/// reduces what they opened: a reversal gives back the whole of the one filled
/// leg, an alignment sells on the exchange of the buy leg or buys on that of the
/// sell leg.
pub proof fn law_follow_ups_only_reduce(run: OpenRun)
    ensures
        match run.action() {
            OpenAction::Reverse(o) => {
                &&& o.reduce_only
                &&& o.price is None
                &&& o.is_buy ==> run.legs->Some_0.1 is Ok && o.exchange == run.sell_ex && o.quantity
                    == run.legs->Some_0.1->Ok_0.filled_qty
                &&& !o.is_buy ==> run.legs->Some_0.0 is Ok && o.exchange == run.buy_ex && o.quantity
                    == run.legs->Some_0.0->Ok_0.filled_qty
            },
            OpenAction::Align(o) => {
                &&& o.reduce_only
                &&& o.exchange == if o.is_buy {
                    run.sell_ex
                } else {
                    run.buy_ex
                }
            },
            _ => true,
        },
{
}

/// An opening trade ends: an answer to an alignment leads to the next of two, or to
/// the booking of the position.
pub proof fn law_alignments_end(run: OpenRun, filled: Option<u64>)
    requires
        run.wf(),
        run.action() is Align,
    ensures
        ({
            let a = run.alignment->Some_0;
            let next = OpenRun { alignment: Some(a.after(filled)), ..run };
            &&& next.action() is Align || next.action() == OpenAction::Book
            &&& a.attempts < next.alignment->Some_0.attempts <= MAX_ALIGNMENTS
            &&& next.alignment->Some_0.attempts == MAX_ALIGNMENTS ==> next.action()
                == OpenAction::Book
        }),
{
}

/// A position is only booked as open where both legs were filled, and an opening
/// trade only fails where one was not.
pub proof fn law_booked_open_is_hedged(run: OpenRun)
    ensures
        run.action() == OpenAction::Book ==> run.legs is Some && run.legs->Some_0.0 is Ok
            && run.legs->Some_0.1 is Ok,
        run.action() == OpenAction::Fail ==> run.legs is Some && (run.legs->Some_0.0 is Err
            || run.legs->Some_0.1 is Err),
{
}

/// A leg that is closed is never ordered again, and every order of a closing
/// trade only reduces.
pub proof fn law_closed_leg_is_left_alone(run: CloseRun)
    ensures
        match run.action() {
            CloseAction::Retry { delay_ms, order } => {
                &&& order.reduce_only
                &&& order.is_buy ==> run.bought is None && run.sold is Some
                &&& !order.is_buy ==> run.sold is None && run.bought is Some
            },
            _ => true,
        },
{
}

/// A closing trade ends: an answer to a retry ends it, or uses up one of three.
pub proof fn law_retries_end(run: CloseRun, fill: Option<CloseFill>)
    requires
        run.wf(),
        run.action() is Retry,
    ensures
        ({
            let next = if run.sold is Some {
                CloseRun { bought: fill, retries: (run.retries + 1) as u32, ..run }
            } else {
                CloseRun { sold: fill, retries: (run.retries + 1) as u32, ..run }
            };
            &&& fill is Some ==> next.action() == CloseAction::Book
            &&& fill is None ==> next.action() is Retry || next.action() == CloseAction::Review
            &&& run.retries < next.retries <= MAX_CLOSE_RETRIES
        }),
{
}

} // verus!
