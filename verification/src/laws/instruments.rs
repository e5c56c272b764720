//! What the trading rules that the exchanges list become.
use crate::exchanges::exchange_info::{
    binance_count, binance_loaded, bybit_count, bybit_loaded, listed_symbol, page_taken, rules_of,
    BinanceFilter, BinanceSymbolRules, InstrumentContent, PageContent, PageOutcome, SymbolInfo,
};
use crate::text::{amount_units, step_units};
use vstd::prelude::*;

verus! {

/// A step that a text writes, nothing where it writes none.
pub open spec fn step_in(text: Seq<char>) -> u64 {
    if step_units(text) is Some {
        step_units(text)->Some_0 as u64
    } else {
        0
    }
}

proof fn lemma_first_filters(filters: Seq<BinanceFilter>, f: BinanceFilter, n: int)
    requires
        0 <= n <= filters.len(),
    ensures
        rules_of(filters.push(f), n) == rules_of(filters, n),
    decreases n,
{
    if n > 0 {
        lemma_first_filters(filters, f, n - 1);
        assert(filters.push(f)[n - 1] == filters[n - 1]);
    }
}

/// What one more filter of Binance changes: the price filter the tick size, the filter
/// of the notional the smallest notional, each by what it states; a filter of lot sizes
/// never lowers the step size. Every other rule stays, and a filter that states nothing
/// changes nothing. Without filters the notional is five dollars.
pub proof fn law_one_more_filter(filters: Seq<BinanceFilter>, f: BinanceFilter)
    ensures
        rules_of(filters, 0).tick_size == 0,
        rules_of(filters, 0).step_size == 0,
        rules_of(filters, 0).min_notional == 500_000_000,
        ({
            let before = rules_of(filters, filters.len() as int);
            let after = rules_of(filters.push(f), (filters.len() + 1) as int);
            let kind = f.filter_type@;
            &&& kind != "PRICE_FILTER"@ || f.tick_size is None ==> after.tick_size
                == before.tick_size
            &&& kind == "PRICE_FILTER"@ && f.tick_size is Some ==> after.tick_size == step_in(
                f.tick_size->Some_0@,
            )
            &&& kind != "LOT_SIZE"@ && kind != "MARKET_LOT_SIZE"@ || f.step_size is None
                ==> after.step_size == before.step_size
            &&& kind != "MIN_NOTIONAL"@ ==> after.min_notional == before.min_notional
            &&& kind == "MIN_NOTIONAL"@ && f.notional is Some ==> after.min_notional == (if let Some(
                v,
            ) = amount_units(f.notional->Some_0@) {
                v as u64
            } else {
                500_000_000
            })
            &&& kind == "MIN_NOTIONAL"@ && f.notional is None && f.min_notional is Some
                ==> after.min_notional == (if let Some(v) = amount_units(f.min_notional->Some_0@) {
                v as u64
            } else {
                500_000_000
            })
            &&& kind == "MIN_NOTIONAL"@ && f.notional is None && f.min_notional is None
                ==> after.min_notional == before.min_notional
        }),
{
    reveal_strlit("PRICE_FILTER");
    reveal_strlit("LOT_SIZE");
    reveal_strlit("MARKET_LOT_SIZE");
    reveal_strlit("MIN_NOTIONAL");
    assert("PRICE_FILTER"@[0] == 'P');
    assert("MIN_NOTIONAL"@[0] == 'M');
    assert("LOT_SIZE"@.len() == 8);
    assert("MARKET_LOT_SIZE"@.len() == 15);
    lemma_first_filters(filters, f, filters.len() as int);
    assert(filters.push(f)[filters.len() as int] == f);
}

/// The step size is the larger of those that the lot sizes state: a coarser one replaces
/// what was known, a finer one does not.
pub proof fn law_coarser_step_counts(filters: Seq<BinanceFilter>, f: BinanceFilter)
    requires
        f.filter_type@ == "LOT_SIZE"@ || f.filter_type@ == "MARKET_LOT_SIZE"@,
        f.step_size is Some,
        step_units(f.step_size->Some_0@) is Some,
        0 <= step_units(f.step_size->Some_0@)->Some_0 <= u64::MAX,
    ensures
        ({
            let before = rules_of(filters, filters.len() as int);
            let after = rules_of(filters.push(f), (filters.len() + 1) as int);
            let step = step_units(f.step_size->Some_0@)->Some_0;
            &&& step >= before.step_size ==> after.step_size == step
            &&& step <= before.step_size ==> after.step_size == before.step_size
        }),
{
    reveal_strlit("PRICE_FILTER");
    reveal_strlit("LOT_SIZE");
    reveal_strlit("MARKET_LOT_SIZE");
    assert("PRICE_FILTER"@[0] == 'P');
    assert("LOT_SIZE"@[0] == 'L');
    assert("MARKET_LOT_SIZE"@[0] == 'M');
    lemma_first_filters(filters, f, filters.len() as int);
    assert(filters.push(f)[filters.len() as int] == f);
}

/// Whether a symbol ends in the quote currency.
pub open spec fn in_usdt(symbol: Seq<char>) -> bool {
    symbol.len() >= 4 && symbol.skip(symbol.len() - 4) == "USDT"@
}

proof fn lemma_in_usdt(symbol: Seq<char>)
    ensures
        "USDT"@.is_suffix_of(symbol) <==> in_usdt(symbol),
{
    reveal_strlit("USDT");
    if symbol.len() >= 4 {
        assert(symbol.skip(symbol.len() - 4) =~= symbol.subrange(
            symbol.len() - 4,
            symbol.len() as int,
        ));
    }
}

proof fn lemma_first_symbols(
    start: Map<Seq<char>, SymbolInfo>,
    list: Seq<BinanceSymbolRules>,
    s: BinanceSymbolRules,
    n: int,
)
    requires
        0 <= n <= list.len(),
    ensures
        binance_loaded(start, list.push(s), n) == binance_loaded(start, list, n),
        binance_count(list.push(s), n) == binance_count(list, n),
    decreases n,
{
    if n > 0 {
        lemma_first_symbols(start, list, s, n - 1);
        assert(list.push(s)[n - 1] == list[n - 1]);
    }
}

/// One more symbol of Binance is kept, with the rules of its filters and in place of
/// what was known of it, where it is quoted in USDT and has a tick size and a step size;
/// else nothing changes. What is known of other symbols stays. Each kept one counts.
pub proof fn law_one_more_symbol(
    start: Map<Seq<char>, SymbolInfo>,
    list: Seq<BinanceSymbolRules>,
    s: BinanceSymbolRules,
)
    ensures
        binance_loaded(start, list, 0) == start,
        binance_count(list, 0) == 0,
        ({
            let n = list.len() as int;
            let before = binance_loaded(start, list, n);
            let after = binance_loaded(start, list.push(s), n + 1);
            let added = binance_count(list.push(s), n + 1) - binance_count(list, n);
            let rules = rules_of(s.filters@, s.filters@.len() as int);
            let kept = in_usdt(s.symbol@) && rules.tick_size > 0 && rules.step_size > 0;
            &&& !kept ==> after == before && added == 0
            &&& kept ==> {
                &&& added == 1
                &&& after.contains_key(s.symbol@) && after[s.symbol@] == rules
                &&& forall|k: Seq<char>|
                    k != s.symbol@ ==> (#[trigger] after.contains_key(k) <==> before.contains_key(
                        k,
                    )) && (before.contains_key(k) ==> after[k] == before[k])
            }
        }),
{
    lemma_in_usdt(s.symbol@);
    lemma_first_symbols(start, list, s, list.len() as int);
    assert(list.push(s)[list.len() as int] == s);
}

proof fn lemma_first_instruments(
    start: Map<Seq<char>, SymbolInfo>,
    list: Seq<InstrumentContent>,
    x: InstrumentContent,
    n: int,
)
    requires
        0 <= n <= list.len(),
    ensures
        bybit_loaded(start, list.push(x), n) == bybit_loaded(start, list, n),
        bybit_count(list.push(x), n) == bybit_count(list, n),
    decreases n,
{
    if n > 0 {
        lemma_first_instruments(start, list, x, n - 1);
        assert(list.push(x)[n - 1] == list[n - 1]);
    }
}

/// The same of one more instrument of Bybit, whose tick size and step size are those
/// that it states and whose smallest notional is five dollars.
pub proof fn law_one_more_instrument(
    start: Map<Seq<char>, SymbolInfo>,
    list: Seq<InstrumentContent>,
    x: InstrumentContent,
)
    ensures
        bybit_loaded(start, list, 0) == start,
        bybit_count(list, 0) == 0,
        ({
            let n = list.len() as int;
            let before = bybit_loaded(start, list, n);
            let after = bybit_loaded(start, list.push(x), n + 1);
            let added = bybit_count(list.push(x), n + 1) - bybit_count(list, n);
            let symbol = if x.symbol is Some {
                x.symbol->Some_0
            } else {
                ""@
            };
            let tick = if x.tick_size is Some {
                step_in(x.tick_size->Some_0)
            } else {
                0
            };
            let step = if x.qty_step is Some {
                step_in(x.qty_step->Some_0)
            } else {
                0
            };
            let kept = in_usdt(symbol) && tick > 0 && step > 0;
            &&& !kept ==> after == before && added == 0
            &&& kept ==> {
                &&& added == 1
                &&& after.contains_key(symbol)
                &&& after[symbol].tick_size == tick
                &&& after[symbol].step_size == step
                &&& after[symbol].min_notional == 500_000_000
                &&& forall|k: Seq<char>|
                    k != symbol ==> (#[trigger] after.contains_key(k) <==> before.contains_key(k))
                        && (before.contains_key(k) ==> after[k] == before[k])
            }
        }),
{
    let symbol = listed_symbol(x);
    lemma_in_usdt(symbol);
    lemma_first_instruments(start, list, x, list.len() as int);
    assert(list.push(x)[list.len() as int] == x);
}

/// A page with an error is not taken. After one without, another page is asked for
/// exactly where this one held instruments and names a cursor that did not lead to it;
/// the cursor that it names is the one to go on with.
pub proof fn law_pages(
    page: PageContent,
    cursor: Seq<char>,
    before: Map<Seq<char>, SymbolInfo>,
    after: Map<Seq<char>, SymbolInfo>,
    outcome: PageOutcome,
)
    requires
        page_taken(page, cursor, before, after, outcome),
    ensures
        outcome is Failed <==> page.ret_code != Some(0i64),
        outcome is Failed ==> after == before,
        page.ret_code == Some(0i64) ==> {
            let more = page.list is Some && page.list->Some_0.len() > 0 && page.next_cursor is Some
                && page.next_cursor->Some_0.len() > 0 && page.next_cursor->Some_0 != cursor;
            &&& outcome is More <==> more
            &&& outcome is Done <==> !more
            &&& more ==> outcome->More_1@ == page.next_cursor->Some_0
            &&& page.list is None ==> after == before && outcome->Done_0 == 0
            &&& page.list is Some ==> after == bybit_loaded(
                before,
                page.list->Some_0,
                page.list->Some_0.len() as int,
            )
        },
{
    reveal_strlit("");
}

} // verus!
