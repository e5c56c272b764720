//! What is made of the positions that the exchanges report at startup.
use super::amounts::{is_percentage, is_quotient, law_percentage, lemma_quotient};
use crate::exchanges::binance_api::BinancePosition;
use crate::exchanges::bybit_api::BybitPosition;
use crate::live_trading::OpenPosition;
use crate::position_sync::{
    base_of, binance_leg, binance_legs, bybit_leg, bybit_legs, hedges, leg_in, leg_of, restored,
    tells_all, told, Leg, SyncFinding,
};
use crate::price_store::Exchange;
use crate::text::{amount_units, signed_units};
use vstd::prelude::*;

verus! {

/// What Binance reports of a position has a sign; what Bybit reports has a side, and
/// only a sale is short. A position without a size or without an entry price is none.
pub proof fn law_reported_leg(a: BinancePosition, b: BybitPosition)
    requires
        signed_units(a.positionAmt@) is Some,
        amount_units(a.entryPrice@) is Some,
        amount_units(b.size@) is Some,
        amount_units(b.avgPrice@) is Some,
        i64::MIN <= signed_units(a.positionAmt@)->Some_0 <= i64::MAX,
        0 <= amount_units(a.entryPrice@)->Some_0 <= u64::MAX,
        0 <= amount_units(b.size@)->Some_0 <= i64::MAX,
        0 <= amount_units(b.avgPrice@)->Some_0 <= u64::MAX,
    ensures
        binance_leg(a) is Some <==> signed_units(a.positionAmt@)->Some_0 != 0 && amount_units(
            a.entryPrice@,
        )->Some_0 != 0,
        binance_leg(a) is Some ==> {
            &&& binance_leg(a)->Some_0.amount == signed_units(a.positionAmt@)->Some_0
            &&& binance_leg(a)->Some_0.entry == amount_units(a.entryPrice@)->Some_0
        },
        bybit_leg(b) is Some <==> amount_units(b.size@)->Some_0 != 0 && amount_units(
            b.avgPrice@,
        )->Some_0 != 0,
        bybit_leg(b) is Some ==> {
            &&& b.side@ == "Sell"@ ==> bybit_leg(b)->Some_0.amount + amount_units(b.size@)->Some_0
                == 0
            &&& b.side@ != "Sell"@ ==> bybit_leg(b)->Some_0.amount == amount_units(b.size@)->Some_0
            &&& bybit_leg(b)->Some_0.entry == amount_units(b.avgPrice@)->Some_0
        },
{
}

/// What is held on a symbol is what was reported of it last.
pub proof fn law_last_report_counts(legs: Seq<(Seq<char>, Leg)>, k: int)
    requires
        0 <= k < legs.len(),
        forall|i: int| k < i < legs.len() ==> (#[trigger] legs[i]).0 != legs[k].0,
    ensures
        leg_of(legs, legs[k].0) == Some(legs[k].1),
{
    lemma_last_report(legs, k, legs.len() as int);
}

proof fn lemma_last_report(legs: Seq<(Seq<char>, Leg)>, k: int, n: int)
    requires
        0 <= k < n <= legs.len(),
        forall|i: int| k < i < legs.len() ==> (#[trigger] legs[i]).0 != legs[k].0,
    ensures
        leg_in(legs, legs[k].0, n) == Some(legs[k].1),
    decreases n,
{
    if n - 1 > k {
        lemma_last_report(legs, k, n - 1);
    }
}

/// One more reported position adds its leg behind the others, where it has one.
pub proof fn law_one_more_report(
    a: Seq<BinancePosition>,
    x: BinancePosition,
    b: Seq<BybitPosition>,
    y: BybitPosition,
)
    ensures
        binance_leg(x) is None ==> binance_legs(a.push(x), (a.len() + 1) as int) == binance_legs(
            a,
            a.len() as int,
        ),
        binance_leg(x) is Some ==> binance_legs(a.push(x), (a.len() + 1) as int) == binance_legs(
            a,
            a.len() as int,
        ).push((x.symbol@, binance_leg(x)->Some_0)),
        bybit_leg(y) is None ==> bybit_legs(b.push(y), (b.len() + 1) as int) == bybit_legs(
            b,
            b.len() as int,
        ),
        bybit_leg(y) is Some ==> bybit_legs(b.push(y), (b.len() + 1) as int) == bybit_legs(
            b,
            b.len() as int,
        ).push((y.symbol@, bybit_leg(y)->Some_0)),
{
    lemma_first_reports(a, x, b, y, a.len() as int, b.len() as int);
}

proof fn lemma_first_reports(
    a: Seq<BinancePosition>,
    x: BinancePosition,
    b: Seq<BybitPosition>,
    y: BybitPosition,
    n: int,
    m: int,
)
    requires
        0 <= n <= a.len(),
        0 <= m <= b.len(),
    ensures
        binance_legs(a.push(x), n) == binance_legs(a, n),
        bybit_legs(b.push(y), m) == bybit_legs(b, m),
    decreases n + m,
{
    if n > 0 {
        lemma_first_reports(a, x, b, y, n - 1, 0);
    }
    if m > 0 {
        lemma_first_reports(a, x, b, y, 0, m - 1);
    }
}

/// Whether a long leg on one exchange stands against a short one on the other.
pub open spec fn opposite(f: SyncFinding) -> bool {
    &&& f.binance is Some
    &&& f.bybit is Some
    &&& {
        ||| f.binance->Some_0.amount > 0 && f.bybit->Some_0.amount < 0
        ||| f.binance->Some_0.amount < 0 && f.bybit->Some_0.amount > 0
    }
}

/// Whether a position trades what two legs hold: bought where the leg is long and
/// sold where it is short, each at the price of that leg, in the quantity that both
/// legs cover.
pub open spec fn stands_for(p: OpenPosition, f: SyncFinding, now_ns: i64) -> bool {
    let a = f.binance->Some_0;
    let b = f.bybit->Some_0;
    &&& p.coin@ == base_of(f.symbol@)
    &&& a.amount > 0 ==> {
        &&& p.buy_exchange == Exchange::Binance
        &&& p.sell_exchange == Exchange::Bybit
        &&& p.entry_buy_price == a.entry
        &&& p.entry_sell_price == b.entry
        &&& p.buy_filled_qty <= a.amount
        &&& p.sell_filled_qty <= -b.amount
        &&& p.buy_filled_qty == a.amount || p.sell_filled_qty == -b.amount
        &&& p.buy_order_id@ == "sync_bin_"@ + f.symbol@
        &&& p.sell_order_id@ == "sync_byb_"@ + f.symbol@
    }
    &&& a.amount < 0 ==> {
        &&& p.buy_exchange == Exchange::Bybit
        &&& p.sell_exchange == Exchange::Binance
        &&& p.entry_buy_price == b.entry
        &&& p.entry_sell_price == a.entry
        &&& p.buy_filled_qty <= b.amount
        &&& p.sell_filled_qty <= -a.amount
        &&& p.buy_filled_qty == b.amount || p.sell_filled_qty == -a.amount
        &&& p.buy_order_id@ == "sync_byb_"@ + f.symbol@
        &&& p.sell_order_id@ == "sync_bin_"@ + f.symbol@
    }
    &&& p.buy_filled_qty == p.sell_filled_qty
    &&& is_quotient(
        p.buy_quote_value as int,
        p.entry_buy_price * p.buy_filled_qty,
        100_000_000,
    )
    &&& is_quotient(
        p.sell_quote_value as int,
        p.entry_sell_price * p.sell_filled_qty,
        100_000_000,
    )
    &&& is_percentage(
        p.entry_spread as int,
        p.entry_buy_price as int,
        p.entry_sell_price as int,
    )
    &&& p.entry_buy_commission == 0
    &&& p.entry_sell_commission == 0
    &&& p.open_time_ns == now_ns
    &&& p.funding_hours == 8
    &&& p.leg_left is None
}

/// What is restored of a hedge is a position that its two legs make up.
pub proof fn law_restored_position(f: SyncFinding, p: OpenPosition, now_ns: i64)
    requires
        opposite(f),
        f.binance->Some_0.entry > 0,
        f.bybit->Some_0.entry > 0,
        restored(f, p, now_ns),
    ensures
        stands_for(p, f, now_ns),
{
    let a = f.binance->Some_0;
    let b = f.bybit->Some_0;
    let buy = p.entry_buy_price as int;
    let sell = p.entry_sell_price as int;
    let qty = p.buy_filled_qty as int;
    lemma_quotient(buy * qty, 100_000_000);
    lemma_quotient(sell * qty, 100_000_000);
    law_percentage(buy, sell, sell);
}

/// Every hedge among the findings is restored as one position, in their order, and
/// nothing else is: a finding that is not hedged adds none.
pub proof fn law_every_hedge_is_restored(f: Seq<SyncFinding>, x: SyncFinding)
    ensures
        hedges(Seq::empty(), 0).len() == 0,
        opposite(x) ==> hedges(f.push(x), (f.len() + 1) as int) == hedges(f, f.len() as int).push(x),
        !opposite(x) ==> hedges(f.push(x), (f.len() + 1) as int) == hedges(f, f.len() as int),
{
    lemma_hedges_of_first(f, x, f.len() as int);
    assert(f.push(x)[f.len() as int] == x);
}

proof fn lemma_hedges_of_first(f: Seq<SyncFinding>, x: SyncFinding, n: int)
    requires
        0 <= n <= f.len(),
    ensures
        hedges(f.push(x), n) == hedges(f, n),
    decreases n,
{
    if n > 0 {
        lemma_hedges_of_first(f, x, n - 1);
    }
}

/// A symbol that one exchange reports last as held is told of in one finding, with
/// what both exchanges hold on it.
pub proof fn law_held_symbol_is_told(
    f: Seq<SyncFinding>,
    binance: Seq<(Seq<char>, Leg)>,
    bybit: Seq<(Seq<char>, Leg)>,
    k: int,
) -> (i: int)
    requires
        tells_all(f, binance, bybit),
        0 <= k < binance.len(),
        forall|j: int| k < j < binance.len() ==> (#[trigger] binance[j]).0 != binance[k].0,
    ensures
        0 <= i < f.len(),
        f[i].symbol@ == binance[k].0,
        f[i].binance == Some(binance[k].1),
        f[i].bybit == leg_of(bybit, binance[k].0),
        forall|j: int| 0 <= j < f.len() && (#[trigger] f[j]).symbol@ == binance[k].0 ==> j == i,
{
    law_last_report_counts(binance, k);
    assert(told(f, binance[k].0));
    choose|i: int| 0 <= i < f.len() && (#[trigger] f[i]).symbol@ == binance[k].0
}

/// The same of a symbol that is held on the other exchange.
pub proof fn law_held_symbol_is_told_of_both(
    f: Seq<SyncFinding>,
    binance: Seq<(Seq<char>, Leg)>,
    bybit: Seq<(Seq<char>, Leg)>,
    k: int,
) -> (i: int)
    requires
        tells_all(f, binance, bybit),
        0 <= k < bybit.len(),
        forall|j: int| k < j < bybit.len() ==> (#[trigger] bybit[j]).0 != bybit[k].0,
    ensures
        0 <= i < f.len(),
        f[i].symbol@ == bybit[k].0,
        f[i].bybit == Some(bybit[k].1),
        f[i].binance == leg_of(binance, bybit[k].0),
        forall|j: int| 0 <= j < f.len() && (#[trigger] f[j]).symbol@ == bybit[k].0 ==> j == i,
{
    law_last_report_counts(bybit, k);
    assert(told(f, bybit[k].0));
    choose|i: int| 0 <= i < f.len() && (#[trigger] f[i]).symbol@ == bybit[k].0
}

/// The coin of a symbol does not end in the quote currency; a coin with the quote
/// currency behind it is the symbol of that coin.
pub proof fn law_coin_of_symbol(coin: Seq<char>, symbol: Seq<char>)
    requires
        !(coin.len() >= 4 && coin.skip(coin.len() - 4) == "USDT"@),
    ensures
        base_of(coin) == coin,
        base_of(coin + "USDT"@) == coin,
        base_of(base_of(symbol) + "USDT"@) == base_of(symbol),
        !(base_of(symbol).len() >= 4 && base_of(symbol).skip(base_of(symbol).len() - 4)
            == "USDT"@),
{
    reveal_strlit("USDT");
    lemma_base(symbol);
    let b = base_of(symbol);
    lemma_with_quote(coin);
    lemma_with_quote(b);
}

proof fn lemma_with_quote(coin: Seq<char>)
    ensures
        base_of(coin + "USDT"@) == base_of(coin),
{
    reveal_strlit("USDT");
    let c = coin + "USDT"@;
    assert(c.len() == coin.len() + 4);
    assert(c.skip(c.len() - 4) =~= "USDT"@);
    assert(c.take(c.len() - 4) =~= coin);
}

proof fn lemma_base(symbol: Seq<char>)
    ensures
        base_of(base_of(symbol)) == base_of(symbol),
        !(base_of(symbol).len() >= 4 && base_of(symbol).skip(base_of(symbol).len() - 4)
            == "USDT"@),
    decreases symbol.len(),
{
    if symbol.len() >= 4 && symbol.skip(symbol.len() - 4) == "USDT"@ {
        lemma_base(symbol.take(symbol.len() - 4));
    }
}

} // verus!
