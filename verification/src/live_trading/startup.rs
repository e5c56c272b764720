//! What the engine takes over at startup: the trades of earlier sessions and the
//! positions that are still open.
use super::{
    holds, lemma_place_of, newest_trades, one_per_coin, place_of, LiveTradingEngine, OpenPosition,
};
use crate::trade_journal::{
    compute_summary, law_summary_is_consistent, summarises, TradeRecord, TradeSummary, MAX_RECORDS,
};
use std::collections::VecDeque;
use vstd::prelude::*;

verus! {

/// Positions with one on its coin, in place of the one that was there.
pub open spec fn with_position(ps: Seq<OpenPosition>, p: OpenPosition) -> Seq<OpenPosition> {
    match place_of(ps, p.coin@, 0) {
        Some(k) => ps.update(k, p),
        None => ps.push(p),
    }
}

proof fn lemma_with_position(ps: Seq<OpenPosition>, p: OpenPosition)
    requires
        one_per_coin(ps),
    ensures
        one_per_coin(with_position(ps, p)),
        holds(with_position(ps, p), p.coin@),
{
    lemma_place_of(ps, p.coin@, 0);
    let all = with_position(ps, p);
    match place_of(ps, p.coin@, 0) {
        Some(k) => {
            assert forall|i: int, j: int| 0 <= i < j < all.len() implies (#[trigger] all[i]).coin@
                != (#[trigger] all[j]).coin@ by {
                assert(ps[i].coin@ != ps[j].coin@);
            }
            assert(all[k].coin@ == p.coin@);
        },
        None => {
            assert(all[ps.len() as int].coin@ == p.coin@);
        },
    }
    lemma_place_of(all, p.coin@, 0);
}

/// Whether the trades of earlier sessions were taken over, `s` being their summary.
pub open spec fn history_restored(
    before: LiveTradingEngine,
    after: LiveTradingEngine,
    trades: Seq<TradeRecord>,
    s: TradeSummary,
) -> bool {
    &&& trades.len() == 0 ==> after == before
    &&& trades.len() > 0 ==> {
        &&& after.trade_count == trades.len()
        &&& after.total_pnl == s.total_pnl_net
        &&& after.total_fees_paid == s.total_fees
        &&& after.winning_trades == s.winning_trades
        &&& after.losing_trades == s.losing_trades
        &&& after.closed_count == s.closed_trades
        &&& after.recent_trades@ == newest_trades(trades, before.max_recent as int)
        &&& after == (LiveTradingEngine {
            trade_count: after.trade_count,
            total_pnl: after.total_pnl,
            total_fees_paid: after.total_fees_paid,
            winning_trades: after.winning_trades,
            losing_trades: after.losing_trades,
            closed_count: after.closed_count,
            recent_trades: after.recent_trades,
            ..before
        })
    }
}

impl LiveTradingEngine {
    /// Takes over a position that is open on the exchanges.
    pub fn restore_position(&mut self, p: OpenPosition)
        requires
            old(self).wf(),
            p.wf(),
        ensures
            final(self).wf(),
            final(self).open_positions@ == with_position(old(self).open_positions@, p),
            holds(final(self).open_positions@, p.coin@),
            *final(self) == (LiveTradingEngine {
                open_positions: final(self).open_positions,
                ..*old(self)
            }),
    {
        proof {
            lemma_with_position(self.open_positions@, p);
        }
        match self.position_index(p.coin.as_str()) {
            Some(k) => {
                self.open_positions.set(k, p);
            },
            None => {
                self.open_positions.push(p);
            },
        }
    }

    /// Takes over the trades of earlier sessions: counters and totals are those
    /// of their summary, and the newest ones are the recent trades.
    pub fn restore_history(&mut self, trades: Vec<TradeRecord>) -> (r: TradeSummary)
        requires
            old(self).wf(),
            trades@.len() <= MAX_RECORDS,
            forall|i: int| 0 <= i < trades@.len() ==> (#[trigger] trades@[i]).in_range(),
        ensures
            final(self).wf(),
            summarises(r, trades@),
            history_restored(*old(self), *final(self), trades@, r),
    {
        let ghost all = trades@;
        let summary = compute_summary(trades.as_slice());
        let n: usize = trades.len();
        if n == 0 {
            return summary;
        }
        let start: usize = if n > self.max_recent {
            n - self.max_recent
        } else {
            0
        };
        let mut older = trades;
        let mut newest = older.split_off(start);
        let ghost tail = newest@;
        assert(tail =~= newest_trades(all, self.max_recent as int));
        let mut recent: VecDeque<TradeRecord> = VecDeque::new();
        let count: usize = newest.len();
        let mut i: usize = 0;
        while i < count
            invariant
                i <= count == tail.len(),
                newest@ == tail.skip(i as int),
                recent@ == tail.take(i as int),
            decreases count - i,
        {
            let r = newest.remove(0);
            recent.push_back(r);
            i = i + 1;
            assert(newest@ =~= tail.skip(i as int));
            assert(recent@ =~= tail.take(i as int));
        }
        assert(recent@ =~= tail);
        proof {
            law_summary_is_consistent(summary, all);
        }
        self.trade_count = n as u64;
        self.total_pnl = summary.total_pnl_net;
        self.total_fees_paid = summary.total_fees;
        self.winning_trades = summary.winning_trades;
        self.losing_trades = summary.losing_trades;
        self.closed_count = summary.closed_trades;
        self.recent_trades = recent;
        summary
    }
}

} // verus!
