//! What a pass over the market hands on, and in which order it is traded.
use crate::live_trading::open::OpenCandidate;
use crate::live_trading::scan::{
    all_candidates, all_records, is_ranking, law_ranking_has_no_repeats, CoinScan, ScanRefusal,
};
use crate::live_trading::LiveTradingEngine;
use crate::price_store::ExchangeStatus;
use vstd::prelude::*;

verus! {

/// Every candidate has its place in a ranking.
proof fn lemma_all_are_ranked(order: Seq<usize>, c: Seq<OpenCandidate>, k: int)
    requires
        is_ranking(order, c),
        0 <= k < c.len(),
    ensures
        exists|i: int| 0 <= i < order.len() && #[trigger] order[i] == k,
{
    law_ranking_has_no_repeats(order, c);
    let n = c.len() as int;
    let places = Seq::new(order.len(), |i: int| order[i] as int);
    assert(places.no_duplicates()) by {
        assert forall|i: int, j: int|
            0 <= i < places.len() && 0 <= j < places.len() && i != j implies places[i]
            != places[j] by {
            assert(order[i] != order[j]);
        }
    }
    places.unique_seq_to_set();
    vstd::set_lib::lemma_int_range(0, n);
    let all = vstd::set_lib::set_int_range(0, n);
    assert(places.to_set().subset_of(all)) by {
        assert forall|x: int| places.to_set().contains(x) implies all.contains(x) by {
            let i = choose|i: int| 0 <= i < places.len() && places[i] == x;
            assert(order[i] < c.len());
        }
    }
    vstd::set_lib::lemma_subset_equality(places.to_set(), all);
    assert(all.contains(k));
    assert(places.contains(k));
    let i = choose|i: int| 0 <= i < places.len() && places[i] == k;
    assert(order[i] == k);
}

/// The best candidate is tried first: no candidate has a larger spread than the one at
/// the head of the ranking, each is ranked, and none stands before one with a larger
/// spread, or before one with the same spread that was found earlier.
pub proof fn law_best_first(order: Seq<usize>, c: Seq<OpenCandidate>, k: int)
    requires
        is_ranking(order, c),
        0 <= k < c.len(),
    ensures
        c[k].spread <= c[order[0] as int].spread,
        c[k].spread == c[order[0] as int].spread ==> order[0] <= k,
        exists|i: int| 0 <= i < order.len() && #[trigger] order[i] == k,
        forall|i: int, j: int|
            #![trigger order[i], order[j]]
            0 <= i < j < order.len() ==> c[order[i] as int].spread >= c[order[j] as int].spread,
{
    lemma_all_are_ranked(order, c, k);
    let i = choose|i: int| 0 <= i < order.len() && #[trigger] order[i] == k;
    if i > 0 {
        assert(order[0] < c.len());
        assert(order[i] < c.len());
    }
}

/// What the scan of one more coin found stands behind what was found before: all that
/// it tells, and its candidate where it has one.
pub proof fn law_scans_add_up(scans: Seq<CoinScan>, x: CoinScan)
    ensures
        all_records(scans, 0).len() == 0,
        all_candidates(scans, 0).len() == 0,
        ({
            let n = scans.len() as int;
            let more = scans.push(x);
            &&& all_records(more, n + 1) == all_records(scans, n) + x.records@
            &&& x.candidate is None ==> all_candidates(more, n + 1) == all_candidates(scans, n)
            &&& x.candidate is Some ==> all_candidates(more, n + 1) == all_candidates(
                scans,
                n,
            ).push(x.candidate->Some_0)
        }),
{
    lemma_first_scans(scans, x, scans.len() as int);
    assert(scans.push(x)[scans.len() as int] == x);
}

proof fn lemma_first_scans(scans: Seq<CoinScan>, x: CoinScan, n: int)
    requires
        0 <= n <= scans.len(),
    ensures
        all_records(scans.push(x), n) == all_records(scans, n),
        all_candidates(scans.push(x), n) == all_candidates(scans, n),
    decreases n,
{
    if n > 0 {
        lemma_first_scans(scans, x, n - 1);
        assert(scans.push(x)[n - 1] == scans[n - 1]);
    }
}

/// A candidate is admitted exactly where trading is on, the engine has room for one
/// more position, and the session has a trade left or no limit; the limit is told
/// before the switch, and the switch before the room.
pub proof fn law_admission(e: LiveTradingEngine, status: ExchangeStatus)
    requires
        e.open_positions@.len() <= usize::MAX,
    ensures
        ({
            let r = e.admission(status);
            let spent = status.trade_limit != 0 && status.session_trades_taken
                >= status.trade_limit;
            let full = e.open_positions@.len() >= e.params.max_open_positions;
            &&& r is None <==> status.trading_enabled && !full && !spent
            &&& spent ==> r == Some(
                ScanRefusal::SessionLimit {
                    limit: status.trade_limit,
                    taken: status.session_trades_taken,
                },
            )
            &&& !spent && !status.trading_enabled ==> r == Some(ScanRefusal::TradingPaused)
            &&& !spent && status.trading_enabled && full ==> r is Some && r->Some_0 is Full
                && r->Some_0->open == e.open_positions@.len()
        }),
{
}

} // verus!
