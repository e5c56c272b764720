//! The positions that the exchanges report at startup, paired into hedges.
use crate::exchanges::binance_api::BinancePosition;
use crate::exchanges::bybit_api::BybitPosition;
use crate::fixed::{abs_of, min_of, min_u64, pct_change, pct_change_spec, MAX_AMOUNT};
use crate::live_trading::open::{compute_usdt_value, usdt_value};
use crate::live_trading::OpenPosition;
use crate::price_store::Exchange;
use crate::text::{amount_units, ends_with, parse_amount, parse_signed, same_text, signed_units};
use vstd::prelude::*;

verus! {

/// A leg that an exchange reports: long where the amount is positive, short
/// where it is negative.
#[derive(Debug, Clone, Copy, PartialEq, Eq, Structural)]
pub struct Leg {
    pub amount: i64,
    pub entry: u64,
}

/// A leg with its symbol.
#[derive(Debug, Clone)]
pub struct SymbolLeg {
    pub symbol: String,
    pub leg: Leg,
}

/// The leg of a position on Binance, none where its amount or its entry price is
/// zero or cannot be read.
pub open spec fn binance_leg(p: BinancePosition) -> Option<Leg> {
    match (signed_units(p.positionAmt@), amount_units(p.entryPrice@)) {
        (Some(amount), Some(entry)) if amount != 0 && entry > 0 => Some(
            Leg { amount: amount as i64, entry: entry as u64 },
        ),
        _ => None,
    }
}

/// The leg of a position on Bybit, whose size has no sign. None where its size or
/// its entry price is zero or cannot be read.
pub open spec fn bybit_leg(p: BybitPosition) -> Option<Leg> {
    match (amount_units(p.size@), amount_units(p.avgPrice@)) {
        (Some(size), Some(entry)) if size > 0 && entry > 0 => Some(
            Leg {
                amount: if p.side@ == "Sell"@ {
                    (-size) as i64
                } else {
                    size as i64
                },
                entry: entry as u64,
            },
        ),
        _ => None,
    }
}

/// The leg of a symbol among the first `n`: a later one replaces an earlier one.
pub open spec fn leg_in(legs: Seq<(Seq<char>, Leg)>, symbol: Seq<char>, n: int) -> Option<Leg>
    decreases n,
{
    if n <= 0 {
        None
    } else if legs[n - 1].0 == symbol {
        Some(legs[n - 1].1)
    } else {
        leg_in(legs, symbol, n - 1)
    }
}

/// The leg of a symbol.
pub open spec fn leg_of(legs: Seq<(Seq<char>, Leg)>, symbol: Seq<char>) -> Option<Leg> {
    leg_in(legs, symbol, legs.len() as int)
}

/// The legs of the first `n` positions on Binance.
pub open spec fn binance_legs(ps: Seq<BinancePosition>, n: int) -> Seq<(Seq<char>, Leg)>
    decreases n,
{
    if n <= 0 {
        seq![]
    } else {
        match binance_leg(ps[n - 1]) {
            Some(leg) => binance_legs(ps, n - 1).push((ps[n - 1].symbol@, leg)),
            None => binance_legs(ps, n - 1),
        }
    }
}

/// The legs of the first `n` positions on Bybit.
pub open spec fn bybit_legs(ps: Seq<BybitPosition>, n: int) -> Seq<(Seq<char>, Leg)>
    decreases n,
{
    if n <= 0 {
        seq![]
    } else {
        match bybit_leg(ps[n - 1]) {
            Some(leg) => bybit_legs(ps, n - 1).push((ps[n - 1].symbol@, leg)),
            None => bybit_legs(ps, n - 1),
        }
    }
}

/// Legs with the texts of their symbols.
pub open spec fn leg_views(legs: Seq<SymbolLeg>) -> Seq<(Seq<char>, Leg)> {
    Seq::new(legs.len(), |i: int| (legs[i].symbol@, legs[i].leg))
}

/// Whether the amounts and entry prices of legs are in range and not zero.
pub open spec fn legs_ok(legs: Seq<(Seq<char>, Leg)>) -> bool {
    forall|i: int| 0 <= i < legs.len() ==> leg_ok((#[trigger] legs[i]).1)
}

/// Whether amount and entry price are in range and not zero.
pub open spec fn leg_ok(leg: Leg) -> bool {
    leg.amount != 0 && -MAX_AMOUNT <= leg.amount <= MAX_AMOUNT && 0 < leg.entry <= MAX_AMOUNT
}

/// Reads the legs of positions on Binance.
pub fn read_binance_legs(ps: &Vec<BinancePosition>) -> (legs: Vec<SymbolLeg>)
    ensures
        leg_views(legs@) == binance_legs(ps@, ps@.len() as int),
        legs_ok(leg_views(legs@)),
{
    let mut legs: Vec<SymbolLeg> = Vec::new();
    let mut i: usize = 0;
    assert(leg_views(legs@) =~= seq![]);
    while i < ps.len()
        invariant
            i <= ps@.len(),
            leg_views(legs@) == binance_legs(ps@, i as int),
            legs_ok(leg_views(legs@)),
        decreases ps@.len() - i,
    {
        let p = &ps[i];
        if let (Some(amount), Some(entry)) = (
            parse_signed(p.positionAmt.as_str()),
            parse_amount(p.entryPrice.as_str()),
        ) {
            if amount != 0 && entry > 0 {
                let ghost before = legs@;
                legs.push(SymbolLeg { symbol: p.symbol.clone(), leg: Leg { amount, entry } });
                assert(leg_views(legs@) =~= leg_views(before).push(
                    (p.symbol@, Leg { amount, entry }),
                ));
            }
        }
        i = i + 1;
    }
    legs
}

/// Reads the legs of positions on Bybit.
pub fn read_bybit_legs(ps: &Vec<BybitPosition>) -> (legs: Vec<SymbolLeg>)
    ensures
        leg_views(legs@) == bybit_legs(ps@, ps@.len() as int),
        legs_ok(leg_views(legs@)),
{
    let mut legs: Vec<SymbolLeg> = Vec::new();
    let mut i: usize = 0;
    assert(leg_views(legs@) =~= seq![]);
    while i < ps.len()
        invariant
            i <= ps@.len(),
            leg_views(legs@) == bybit_legs(ps@, i as int),
            legs_ok(leg_views(legs@)),
        decreases ps@.len() - i,
    {
        let p = &ps[i];
        if let (Some(size), Some(entry)) = (
            parse_amount(p.size.as_str()),
            parse_amount(p.avgPrice.as_str()),
        ) {
            if size > 0 && entry > 0 {
                let amount: i64 = if same_text(p.side.as_str(), "Sell") {
                    -(size as i64)
                } else {
                    size as i64
                };
                let ghost before = legs@;
                legs.push(SymbolLeg { symbol: p.symbol.clone(), leg: Leg { amount, entry } });
                assert(leg_views(legs@) =~= leg_views(before).push(
                    (p.symbol@, Leg { amount, entry }),
                ));
            }
        }
        i = i + 1;
    }
    legs
}

/// What is held on a symbol on both exchanges.
#[derive(Debug, Clone)]
pub struct SyncFinding {
    pub symbol: String,
    pub binance: Option<Leg>,
    pub bybit: Option<Leg>,
}

impl SyncFinding {
    /// Whether a long leg on one exchange stands against a short one on the other.
    pub open spec fn hedged(&self) -> bool {
        match (self.binance, self.bybit) {
            (Some(a), Some(b)) => (a.amount > 0 && b.amount < 0) || (a.amount < 0 && b.amount > 0),
            _ => false,
        }
    }

    /// Whether a long leg on one exchange stands against a short one on the other.
    pub fn is_hedged(&self) -> (r: bool)
        ensures
            r == self.hedged(),
    {
        match (self.binance, self.bybit) {
            (Some(a), Some(b)) => (a.amount > 0 && b.amount < 0) || (a.amount < 0 && b.amount > 0),
            _ => false,
        }
    }
}

/// Whether findings tell of every symbol that is held, once, and of no other.
pub open spec fn tells_all(
    f: Seq<SyncFinding>,
    binance: Seq<(Seq<char>, Leg)>,
    bybit: Seq<(Seq<char>, Leg)>,
) -> bool {
    &&& forall|i: int|
        0 <= i < f.len() ==> {
            &&& (#[trigger] f[i]).binance == leg_of(binance, f[i].symbol@)
            &&& f[i].bybit == leg_of(bybit, f[i].symbol@)
            &&& f[i].binance is Some || f[i].bybit is Some
        }
    &&& forall|i: int, j: int|
        0 <= i < j < f.len() ==> (#[trigger] f[i]).symbol@ != (#[trigger] f[j]).symbol@
    &&& forall|s: Seq<char>| (#[trigger] leg_of(binance, s)) is Some ==> told(f, s)
    &&& forall|s: Seq<char>| (#[trigger] leg_of(bybit, s)) is Some ==> told(f, s)
}

/// Whether findings tell of a symbol.
pub open spec fn told(f: Seq<SyncFinding>, symbol: Seq<char>) -> bool {
    exists|i: int| 0 <= i < f.len() && (#[trigger] f[i]).symbol@ == symbol
}

fn find_leg(legs: &Vec<SymbolLeg>, symbol: &str) -> (r: Option<Leg>)
    ensures
        r == leg_of(leg_views(legs@), symbol@),
{
    let mut n: usize = legs.len();
    while n > 0
        invariant
            n <= legs@.len(),
            leg_of(leg_views(legs@), symbol@) == leg_in(leg_views(legs@), symbol@, n as int),
        decreases n,
    {
        if same_text(legs[n - 1].symbol.as_str(), symbol) {
            return Some(legs[n - 1].leg);
        }
        n = n - 1;
    }
    None
}

/// A symbol has a leg where it is among the legs, and only there.
proof fn lemma_leg_in(legs: Seq<(Seq<char>, Leg)>, symbol: Seq<char>, n: int)
    requires
        0 <= n <= legs.len(),
    ensures
        leg_in(legs, symbol, n) is Some <==> exists|i: int|
            0 <= i < n && (#[trigger] legs[i]).0 == symbol,
        legs_ok(legs) && leg_in(legs, symbol, n) is Some ==> leg_ok(
            leg_in(legs, symbol, n)->Some_0,
        ),
    decreases n,
{
    if n > 0 {
        lemma_leg_in(legs, symbol, n - 1);
        if legs[n - 1].0 != symbol && exists|i: int|
            0 <= i < n && (#[trigger] legs[i]).0 == symbol {
            let i = choose|i: int| 0 <= i < n && (#[trigger] legs[i]).0 == symbol;
            assert(i < n - 1);
        }
    }
}

fn is_told(f: &Vec<SyncFinding>, symbol: &str) -> (r: bool)
    ensures
        r == told(f@, symbol@),
{
    let mut i: usize = 0;
    while i < f.len()
        invariant
            i <= f@.len(),
            forall|j: int| 0 <= j < i ==> (#[trigger] f@[j]).symbol@ != symbol@,
        decreases f@.len() - i,
    {
        if same_text(f[i].symbol.as_str(), symbol) {
            return true;
        }
        i = i + 1;
    }
    false
}

/// Matches the legs of both exchanges by their symbols.
pub fn reconcile(binance: &Vec<SymbolLeg>, bybit: &Vec<SymbolLeg>) -> (f: Vec<SyncFinding>)
    ensures
        tells_all(f@, leg_views(binance@), leg_views(bybit@)),
{
    let mut f: Vec<SyncFinding> = Vec::new();
    let mut i: usize = 0;
    while i < binance.len()
        invariant
            i <= binance@.len(),
            matched(f@, leg_views(binance@), leg_views(bybit@)),
            forall|j: int| 0 <= j < i ==> told(f@, (#[trigger] binance@[j]).symbol@),
        decreases binance@.len() - i,
    {
        let symbol = binance[i].symbol.clone();
        if !is_told(&f, symbol.as_str()) {
            let leg = find_leg(binance, symbol.as_str());
            let other = find_leg(bybit, symbol.as_str());
            proof {
                lemma_leg_in(leg_views(binance@), symbol@, binance@.len() as int);
                assert(leg_views(binance@)[i as int].0 == symbol@);
                lemma_told_push(
                    f@,
                    SyncFinding { symbol, binance: leg, bybit: other },
                    leg_views(binance@),
                    leg_views(bybit@),
                );
            }
            f.push(SyncFinding { symbol, binance: leg, bybit: other });
        }
        i = i + 1;
    }
    let mut k: usize = 0;
    while k < bybit.len()
        invariant
            k <= bybit@.len(),
            matched(f@, leg_views(binance@), leg_views(bybit@)),
            forall|j: int| 0 <= j < binance@.len() ==> told(f@, (#[trigger] binance@[j]).symbol@),
            forall|j: int| 0 <= j < k ==> told(f@, (#[trigger] bybit@[j]).symbol@),
        decreases bybit@.len() - k,
    {
        let symbol = bybit[k].symbol.clone();
        if !is_told(&f, symbol.as_str()) {
            let leg = find_leg(binance, symbol.as_str());
            let other = find_leg(bybit, symbol.as_str());
            proof {
                lemma_leg_in(leg_views(bybit@), symbol@, bybit@.len() as int);
                assert(leg_views(bybit@)[k as int].0 == symbol@);
                lemma_told_push(
                    f@,
                    SyncFinding { symbol, binance: leg, bybit: other },
                    leg_views(binance@),
                    leg_views(bybit@),
                );
            }
            f.push(SyncFinding { symbol, binance: leg, bybit: other });
        }
        k = k + 1;
    }
    proof {
        assert forall|s: Seq<char>| (#[trigger] leg_of(leg_views(binance@), s)) is Some implies told(f@, s) by {
            lemma_leg_in(leg_views(binance@), s, binance@.len() as int);
            let j = choose|j: int|
                0 <= j < binance@.len() && (#[trigger] leg_views(binance@)[j]).0 == s;
            assert(told(f@, binance@[j].symbol@));
        }
        assert forall|s: Seq<char>| (#[trigger] leg_of(leg_views(bybit@), s)) is Some implies told(f@, s) by {
            lemma_leg_in(leg_views(bybit@), s, bybit@.len() as int);
            let j = choose|j: int|
                0 <= j < bybit@.len() && (#[trigger] leg_views(bybit@)[j]).0 == s;
            assert(told(f@, bybit@[j].symbol@));
        }
    }
    f
}

/// Whether findings tell of held symbols, each once.
pub open spec fn matched(
    f: Seq<SyncFinding>,
    binance: Seq<(Seq<char>, Leg)>,
    bybit: Seq<(Seq<char>, Leg)>,
) -> bool {
    &&& forall|i: int|
        0 <= i < f.len() ==> {
            &&& (#[trigger] f[i]).binance == leg_of(binance, f[i].symbol@)
            &&& f[i].bybit == leg_of(bybit, f[i].symbol@)
            &&& f[i].binance is Some || f[i].bybit is Some
        }
    &&& forall|i: int, j: int|
        0 <= i < j < f.len() ==> (#[trigger] f[i]).symbol@ != (#[trigger] f[j]).symbol@
}

proof fn lemma_told_push(
    f: Seq<SyncFinding>,
    x: SyncFinding,
    binance: Seq<(Seq<char>, Leg)>,
    bybit: Seq<(Seq<char>, Leg)>,
)
    requires
        matched(f, binance, bybit),
        !told(f, x.symbol@),
        x.binance == leg_of(binance, x.symbol@),
        x.bybit == leg_of(bybit, x.symbol@),
        x.binance is Some || x.bybit is Some,
    ensures
        matched(f.push(x), binance, bybit),
        told(f.push(x), x.symbol@),
        forall|s: Seq<char>| told(f, s) ==> #[trigger] told(f.push(x), s),
{
    let all = f.push(x);
    assert forall|i: int, j: int| 0 <= i < j < all.len() implies (#[trigger] all[i]).symbol@ != (
    #[trigger] all[j]).symbol@ by {
        assert(all[i] == f[i]);
        if j < f.len() {
            assert(all[j] == f[j]);
        }
    }
    assert(all[f.len() as int] == x);
    assert forall|s: Seq<char>| told(f, s) implies #[trigger] told(all, s) by {
        let i = choose|i: int| 0 <= i < f.len() && (#[trigger] f[i]).symbol@ == s;
        assert(all[i] == f[i]);
    }
}

/// A symbol without the trailing quote currency, however often it stands there.
pub open spec fn base_of(symbol: Seq<char>) -> Seq<char>
    decreases symbol.len(),
{
    if symbol.len() >= 4 && symbol.skip(symbol.len() - 4) == "USDT"@ {
        base_of(symbol.take(symbol.len() - 4))
    } else {
        symbol
    }
}

/// A symbol without the trailing quote currency.
pub fn strip_usdt(symbol: &str) -> (coin: String)
    ensures
        coin@ == base_of(symbol@),
{
    proof {
        reveal_strlit("USDT");
    }
    let mut n: usize = symbol.unicode_len();
    assert(symbol@.take(n as int) =~= symbol@);
    while ends_with(symbol.substring_char(0, n), "USDT")
        invariant
            n <= symbol@.len(),
            "USDT"@.len() == 4,
            base_of(symbol@) == base_of(symbol@.take(n as int)),
        decreases n,
    {
        let ghost part = symbol@.take(n as int);
        assert(symbol@.subrange(0, n as int) =~= part);
        assert(part.take(n - 4) =~= symbol@.take(n - 4));
        n = n - 4;
    }
    assert(symbol@.subrange(0, n as int) =~= symbol@.take(n as int));
    symbol.substring_char(0, n).to_owned()
}

/// Whether a position is what a hedge on a symbol restores: the leg on
/// `bought_on` is long, the other short. Its commissions and the time it was
/// opened are not known.
pub open spec fn restores(
    p: OpenPosition,
    symbol: Seq<char>,
    bought_on: Exchange,
    long: Leg,
    short: Leg,
    now_ns: i64,
) -> bool {
    let qty = min_of(abs_of(long.amount as int), abs_of(short.amount as int));
    let (long_id, short_id) = match bought_on {
        Exchange::Binance => ("sync_bin_"@ + symbol, "sync_byb_"@ + symbol),
        Exchange::Bybit => ("sync_byb_"@ + symbol, "sync_bin_"@ + symbol),
    };
    &&& p.coin@ == base_of(symbol)
    &&& p.buy_exchange == bought_on
    &&& p.sell_exchange != bought_on
    &&& p.entry_buy_price == long.entry
    &&& p.entry_sell_price == short.entry
    &&& p.buy_filled_qty == qty
    &&& p.sell_filled_qty == qty
    &&& p.buy_quote_value == usdt_value(long.entry as int, qty)
    &&& p.sell_quote_value == usdt_value(short.entry as int, qty)
    &&& p.entry_buy_commission == 0
    &&& p.entry_sell_commission == 0
    &&& p.buy_order_id@ == long_id
    &&& p.sell_order_id@ == short_id
    &&& p.entry_spread == pct_change_spec(long.entry as int, short.entry as int)
    &&& p.open_time_ns == now_ns
    &&& p.entry_buy_book_bid == 0
    &&& p.entry_buy_book_ask == 0
    &&& p.entry_buy_book_bid_qty is None
    &&& p.entry_buy_book_ask_qty is None
    &&& p.entry_sell_book_bid == 0
    &&& p.entry_sell_book_ask == 0
    &&& p.entry_sell_book_bid_qty is None
    &&& p.entry_sell_book_ask_qty is None
    &&& p.funding_hours == 8
    &&& p.leg_left is None
}

/// Whether a position is what a hedged finding restores.
pub open spec fn restored(f: SyncFinding, p: OpenPosition, now_ns: i64) -> bool {
    if f.binance->Some_0.amount > 0 {
        restores(
            p,
            f.symbol@,
            Exchange::Binance,
            f.binance->Some_0,
            f.bybit->Some_0,
            now_ns,
        )
    } else {
        restores(p, f.symbol@, Exchange::Bybit, f.bybit->Some_0, f.binance->Some_0, now_ns)
    }
}

fn size_of_leg(leg: Leg) -> (q: u64)
    requires
        leg_ok(leg),
    ensures
        q == abs_of(leg.amount as int),
        q <= MAX_AMOUNT,
{
    if leg.amount < 0 {
        (-leg.amount) as u64
    } else {
        leg.amount as u64
    }
}

fn restore(symbol: &str, bought_on: Exchange, long: Leg, short: Leg, now_ns: i64) -> (p:
    OpenPosition)
    requires
        leg_ok(long),
        leg_ok(short),
    ensures
        restores(p, symbol@, bought_on, long, short, now_ns),
        p.wf(),
{
    let qty: u64 = min_u64(size_of_leg(long), size_of_leg(short));
    let mut on_binance = "sync_bin_".to_owned();
    on_binance.append(symbol);
    let mut on_bybit = "sync_byb_".to_owned();
    on_bybit.append(symbol);
    let (sell_exchange, buy_order_id, sell_order_id) = match bought_on {
        Exchange::Binance => (Exchange::Bybit, on_binance, on_bybit),
        Exchange::Bybit => (Exchange::Binance, on_bybit, on_binance),
    };
    OpenPosition {
        coin: strip_usdt(symbol),
        buy_exchange: bought_on,
        sell_exchange,
        entry_buy_price: long.entry,
        entry_sell_price: short.entry,
        buy_filled_qty: qty,
        sell_filled_qty: qty,
        buy_quote_value: compute_usdt_value(long.entry, qty) as u128,
        sell_quote_value: compute_usdt_value(short.entry, qty) as u128,
        entry_buy_commission: 0,
        entry_sell_commission: 0,
        buy_order_id,
        sell_order_id,
        entry_spread: pct_change(long.entry, short.entry),
        open_time_ns: now_ns,
        entry_buy_book_bid: 0,
        entry_buy_book_ask: 0,
        entry_buy_book_bid_qty: None,
        entry_buy_book_ask_qty: None,
        entry_sell_book_bid: 0,
        entry_sell_book_ask: 0,
        entry_sell_book_bid_qty: None,
        entry_sell_book_ask_qty: None,
        funding_hours: 8,
        leg_left: None,
    }
}

/// The hedged findings among the first `n`.
pub open spec fn hedges(f: Seq<SyncFinding>, n: int) -> Seq<SyncFinding>
    decreases n,
{
    if n <= 0 {
        seq![]
    } else if f[n - 1].hedged() {
        hedges(f, n - 1).push(f[n - 1])
    } else {
        hedges(f, n - 1)
    }
}

/// What the startup synchronisation found.
pub struct SyncResult {
    /// One position for each hedge.
    pub positions: Vec<OpenPosition>,
    /// Everything that is held; what is not hedged is to be closed by hand.
    pub findings: Vec<SyncFinding>,
}

/// Pairs the positions of both exchanges: a long leg on one with a short leg on
/// the same symbol on the other is an open position again.
pub fn sync_open_positions(
    binance: &Vec<BinancePosition>,
    bybit: &Vec<BybitPosition>,
    now_ns: i64,
) -> (r: SyncResult)
    ensures
        tells_all(
            r.findings@,
            binance_legs(binance@, binance@.len() as int),
            bybit_legs(bybit@, bybit@.len() as int),
        ),
        ({
            let h = hedges(r.findings@, r.findings@.len() as int);
            &&& r.positions@.len() == h.len()
            &&& forall|i: int|
                0 <= i < h.len() ==> restored(h[i], #[trigger] r.positions@[i], now_ns)
        }),
        forall|i: int| 0 <= i < r.positions@.len() ==> (#[trigger] r.positions@[i]).wf(),
{
    let a = read_binance_legs(binance);
    let b = read_bybit_legs(bybit);
    let findings = reconcile(&a, &b);
    let mut positions: Vec<OpenPosition> = Vec::new();
    let mut i: usize = 0;
    while i < findings.len()
        invariant
            i <= findings@.len(),
            legs_ok(leg_views(a@)),
            legs_ok(leg_views(b@)),
            tells_all(findings@, leg_views(a@), leg_views(b@)),
            positions@.len() == hedges(findings@, i as int).len(),
            forall|k: int|
                0 <= k < positions@.len() ==> restored(
                    hedges(findings@, i as int)[k],
                    #[trigger] positions@[k],
                    now_ns,
                ),
            forall|k: int| 0 <= k < positions@.len() ==> (#[trigger] positions@[k]).wf(),
        decreases findings@.len() - i,
    {
        let f = &findings[i];
        if f.is_hedged() {
            proof {
                lemma_leg_in(leg_views(a@), f.symbol@, a@.len() as int);
                lemma_leg_in(leg_views(b@), f.symbol@, b@.len() as int);
            }
            if let (Some(on_binance), Some(on_bybit)) = (f.binance, f.bybit) {
                let p = if on_binance.amount > 0 {
                    restore(
                        f.symbol.as_str(),
                        Exchange::Binance,
                        on_binance,
                        on_bybit,
                        now_ns,
                    )
                } else {
                    restore(f.symbol.as_str(), Exchange::Bybit, on_bybit, on_binance, now_ns)
                };
                positions.push(p);
            }
        }
        i = i + 1;
    }
    SyncResult { positions, findings }
}

/// A restored position is hedged: both legs have the same quantity, no larger
/// than what either exchange reports, on different exchanges.
pub proof fn law_restored_is_hedged(f: SyncFinding, p: OpenPosition, now_ns: i64)
    requires
        f.hedged(),
        restored(f, p, now_ns),
    ensures
        p.buy_filled_qty == p.sell_filled_qty,
        p.buy_filled_qty <= abs_of(f.binance->Some_0.amount as int),
        p.buy_filled_qty <= abs_of(f.bybit->Some_0.amount as int),
        p.buy_exchange != p.sell_exchange,
{
}

} // verus!
