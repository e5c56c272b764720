//! What is made of the ends of orders, and of balances, as the exchanges report them.
use super::amounts::{is_quotient, lemma_quotient};
use crate::exchanges::binance_api;
use crate::exchanges::binance_api::{
    died_at_once, BinanceBalance, BinanceOrderResponse, BinancePosition,
};
use crate::exchanges::binance_private_ws;
use crate::exchanges::binance_private_ws::{BalanceEntry, OrderUpdate};
use crate::exchanges::bybit_api;
use crate::exchanges::bybit_api::{
    account_balance, first_usdt_coin, wallet_balance, BybitAccount, BybitCoinBalance,
    BybitOrderDetail, BybitOrderResult, BybitPosition, BybitResponse,
};
use crate::exchanges::bybit_private_ws;
use crate::exchanges::bybit_private_ws::{ExecutionEvent, OrderEvent, WalletCoin};
use crate::exchanges::execution::{
    binance_asked, binance_fill_of_detail, binance_fill_of_event, binance_placed, binance_waited,
    bybit_asked, bybit_fill_of_event, bybit_placed, bybit_waited, DetailError,
};
use crate::exchanges::fill_channel::FillEvent;
use crate::live_trading::open::UnifiedFill;
use crate::text::{amount_units, nat_text, nat_units, signed_units, trimmed};
use vstd::prelude::*;

verus! {

/// The amount that a text writes, or nothing.
pub open spec fn written(text: Seq<char>) -> int {
    if amount_units(text) is Some {
        amount_units(text)->Some_0
    } else {
        0
    }
}

/// The size of a fee as a text writes it. What is paid and what is given back count
/// alike.
pub open spec fn fee(text: Seq<char>) -> int {
    if signed_units(text) is None {
        0
    } else if signed_units(text)->Some_0 < 0 {
        0 - signed_units(text)->Some_0
    } else {
        signed_units(text)->Some_0
    }
}

/// A fill on Binance says what the feed told of the order: the price, the quantity,
/// the commission and the time that were written, worth price times quantity.
pub proof fn law_binance_fill(
    o: OrderUpdate,
    e: FillEvent,
    order: BinanceOrderResponse,
    f: binance_api::OrderFill,
)
    requires
        binance_private_ws::tells_update(e, o),
        binance_fill_of_event(f, order, e),
    ensures
        f.order_id == order.orderId,
        f.symbol@ == order.symbol@,
        f.side@ == order.side@,
        e.order_id@ == nat_text(o.order_id as nat),
        f.avg_price == written(o.avg_price@),
        f.filled_qty == written(o.cum_filled_qty@),
        is_quotient(f.quote_qty as int, f.avg_price * f.filled_qty, 100_000_000),
        f.commission == fee(o.commission@),
        f.commission_asset@ == "USDT"@,
        f.realized_pnl == 0,
        f.timestamp == o.trade_time,
        e.is_expired ==> f.filled_qty == 0,
{
    lemma_quotient(f.avg_price * f.filled_qty, 100_000_000);
}

/// A fill that the exchange was asked for has the price and the quantity that it wrote;
/// its commission is five hundredths of a percent of what was paid, rounded down.
pub proof fn law_binance_fill_of_query(
    order: BinanceOrderResponse,
    detail: BinanceOrderResponse,
    f: binance_api::OrderFill,
)
    requires
        binance_fill_of_detail(f, order, detail),
    ensures
        f.order_id == order.orderId,
        f.symbol@ == order.symbol@,
        f.side@ == order.side@,
        f.avg_price == written(detail.avgPrice@),
        f.filled_qty == written(detail.executedQty@),
        f.quote_qty == written(detail.cumQuote@),
        is_quotient(f.commission as int, f.quote_qty * 5, 10_000),
        f.commission_asset@ == "USDT"@,
        f.realized_pnl == 0,
        f.timestamp == order.updateTime,
{
    let q = f.quote_qty as int;
    assert(q * 50_000 / 100_000_000 == q * 5 / 10_000) by (nonlinear_arith);
    lemma_quotient(q * 5, 10_000);
}

/// A fill on Bybit says what the feed told of the execution or of the order.
pub proof fn law_bybit_fill(
    x: ExecutionEvent,
    o: OrderEvent,
    e: FillEvent,
    order_id: Seq<char>,
    ticket: bybit_api::OrderTicket,
    f: bybit_api::OrderFill,
)
    requires
        bybit_fill_of_event(f, order_id, ticket, e),
    ensures
        f.order_id@ == order_id,
        f.symbol@ == ticket.symbol@,
        f.side@ == ticket.side@,
        bybit_private_ws::tells_execution(e, x) ==> {
            &&& e.order_id@ == x.order_id@
            &&& f.avg_price == written(x.price@)
            &&& f.filled_qty == written(x.qty@)
            &&& f.quote_qty == written(x.value@)
            &&& f.commission == fee(x.fee@)
            &&& nat_units(x.time@) is Some ==> f.timestamp == nat_units(x.time@)->Some_0
            &&& !e.is_expired
        },
        bybit_private_ws::tells_order(e, o) ==> {
            &&& e.order_id@ == o.order_id@
            &&& f.avg_price == written(o.avg_price@)
            &&& f.filled_qty == written(o.cum_qty@)
            &&& f.quote_qty == written(o.cum_value@)
            &&& f.commission == fee(o.cum_fee@)
            &&& nat_units(o.updated@) is Some ==> f.timestamp == nat_units(o.updated@)->Some_0
            &&& e.is_expired ==> f.filled_qty == 0
        },
{
}

/// An order that has come to its end was filled, or it expired, was cancelled or was
/// rejected; one that is new or partly filled has not. An order that ended without
/// being filled as a whole counts as expired where nothing of it was filled, and only
/// there.
pub proof fn law_binance_order_ends(e: FillEvent, o: OrderUpdate)
    requires
        binance_private_ws::tells_update(e, o),
    ensures
        binance_private_ws::is_terminal("FILLED"@),
        binance_private_ws::is_terminal("EXPIRED"@),
        binance_private_ws::is_terminal("CANCELED"@),
        binance_private_ws::is_terminal("REJECTED"@),
        !binance_private_ws::is_terminal("NEW"@),
        !binance_private_ws::is_terminal("PARTIALLY_FILLED"@),
        binance_private_ws::is_terminal(o.status@) ==> {
            &&& e.is_expired ==> e.filled_qty == 0
            &&& o.status@ == "FILLED"@ ==> !e.is_expired
            &&& o.status@ != "FILLED"@ && e.filled_qty == 0 ==> e.is_expired
        },
{
    reveal_strlit("FILLED");
    reveal_strlit("EXPIRED");
    reveal_strlit("CANCELED");
    reveal_strlit("REJECTED");
    reveal_strlit("NEW");
    reveal_strlit("PARTIALLY_FILLED");
    assert("FILLED"@[0] == 'F' && "EXPIRED"@[0] == 'E' && "CANCELED"@[0] == 'C' && "REJECTED"@[0]
        == 'R');
    assert("PARTIALLY_FILLED"@.len() == 16);
    assert("NEW"@.len() == 3);
}

/// The same of an order on Bybit, which can also be cancelled when it is partly filled.
/// An execution is a fill where it is a trade or says nothing of its kind.
pub proof fn law_bybit_order_ends(e: FillEvent, o: OrderEvent, x: ExecutionEvent)
    requires
        bybit_private_ws::tells_order(e, o),
    ensures
        bybit_private_ws::is_terminal("Filled"@),
        bybit_private_ws::is_terminal("Cancelled"@),
        bybit_private_ws::is_terminal("Expired"@),
        bybit_private_ws::is_terminal("PartiallyFilledCanceled"@),
        bybit_private_ws::is_terminal("Rejected"@),
        !bybit_private_ws::is_terminal("New"@),
        !bybit_private_ws::is_terminal("PartiallyFilled"@),
        bybit_private_ws::is_terminal(o.status@) ==> {
            &&& e.is_expired ==> e.filled_qty == 0
            &&& o.status@ == "Filled"@ ==> !e.is_expired
            &&& o.status@ != "Filled"@ && e.filled_qty == 0 ==> e.is_expired
        },
        x.kind@ == "Trade"@ ==> bybit_private_ws::is_trade(x),
        x.kind@.len() == 0 ==> bybit_private_ws::is_trade(x),
        x.kind@.len() > 0 && x.kind@ != "Trade"@ ==> !bybit_private_ws::is_trade(x),
{
    reveal_strlit("Filled");
    reveal_strlit("Cancelled");
    reveal_strlit("Expired");
    reveal_strlit("PartiallyFilledCanceled");
    reveal_strlit("Rejected");
    reveal_strlit("New");
    reveal_strlit("PartiallyFilled");
    assert("Filled"@[0] == 'F' && "Expired"@[0] == 'E' && "Cancelled"@[0] == 'C' && "Rejected"@[0]
        == 'R' && "PartiallyFilledCanceled"@[0] == 'P');
    assert("PartiallyFilled"@.len() == 15);
    assert("PartiallyFilledCanceled"@.len() == 23);
    assert("New"@.len() == 3);
}

/// An order dies at once where its reply says that it is gone and that nothing of it was
/// filled; one that was filled in part lives on.
pub proof fn law_dies_at_once(order: BinanceOrderResponse)
    ensures
        died_at_once(order) ==> written(order.executedQty@) == 0 && (order.status@ == "EXPIRED"@
            || order.status@ == "CANCELED"@),
        order.status@ == "EXPIRED"@ && written(order.executedQty@) == 0 ==> died_at_once(order),
        order.status@ == "CANCELED"@ && written(order.executedQty@) == 0 ==> died_at_once(order),
{
}

/// The balance that Binance pushes last counts: an entry in USDT replaces what was
/// known before, by its cross wallet where that is written and is not zero, else by its
/// wallet. Entries of other assets, and those that cannot be read, change nothing.
pub proof fn law_pushed_balance_on_binance(current: int, list: Seq<BalanceEntry>, b: BalanceEntry)
    ensures
        binance_private_ws::balance_after(current, list, 0) == current,
        ({
            let before = binance_private_ws::balance_after(current, list, list.len() as int);
            let after = binance_private_ws::balance_after(
                current,
                list.push(b),
                (list.len() + 1) as int,
            );
            let cross = b.cross_wallet_balance@;
            let wallet = b.wallet_balance@;
            let has_cross = cross.len() > 0 && cross != "0"@;
            &&& b.asset@ != "USDT"@ ==> after == before
            &&& b.asset@ == "USDT"@ && has_cross && signed_units(cross) is Some ==> after
                == signed_units(cross)->Some_0
            &&& b.asset@ == "USDT"@ && has_cross && signed_units(cross) is None ==> after == before
            &&& b.asset@ == "USDT"@ && !has_cross && signed_units(wallet) is Some ==> after
                == signed_units(wallet)->Some_0
            &&& b.asset@ == "USDT"@ && !has_cross && signed_units(wallet) is None ==> after
                == before
        }),
{
    lemma_first_balances(current, list, b, list.len() as int);
}

proof fn lemma_first_balances(current: int, list: Seq<BalanceEntry>, b: BalanceEntry, n: int)
    requires
        0 <= n <= list.len(),
    ensures
        binance_private_ws::balance_after(current, list.push(b), n)
            == binance_private_ws::balance_after(current, list, n),
    decreases n,
{
    if n > 0 {
        lemma_first_balances(current, list, b, n - 1);
    }
}

/// The balance that Bybit pushes last counts, by its wallet where that is written, else
/// by what can be withdrawn.
pub proof fn law_pushed_balance_on_bybit(current: int, coins: Seq<WalletCoin>, c: WalletCoin)
    ensures
        bybit_private_ws::balance_after(current, coins, 0) == current,
        ({
            let before = bybit_private_ws::balance_after(current, coins, coins.len() as int);
            let after = bybit_private_ws::balance_after(
                current,
                coins.push(c),
                (coins.len() + 1) as int,
            );
            let wallet = c.wallet_balance@;
            let free = c.available_to_withdraw@;
            &&& c.coin@ != "USDT"@ ==> after == before
            &&& c.coin@ == "USDT"@ && wallet.len() > 0 && signed_units(wallet) is Some ==> after
                == signed_units(wallet)->Some_0
            &&& c.coin@ == "USDT"@ && wallet.len() > 0 && signed_units(wallet) is None ==> after
                == before
            &&& c.coin@ == "USDT"@ && wallet.len() == 0 && signed_units(free) is Some ==> after
                == signed_units(free)->Some_0
            &&& c.coin@ == "USDT"@ && wallet.len() == 0 && signed_units(free) is None ==> after
                == before
        }),
{
    lemma_first_coins(current, coins, c, coins.len() as int);
}

proof fn lemma_first_coins(current: int, coins: Seq<WalletCoin>, c: WalletCoin, n: int)
    requires
        0 <= n <= coins.len(),
    ensures
        bybit_private_ws::balance_after(current, coins.push(c), n)
            == bybit_private_ws::balance_after(current, coins, n),
    decreases n,
{
    if n > 0 {
        lemma_first_coins(current, coins, c, n - 1);
    }
}

/// The USDT entry of a balance list is the first there is.
pub proof fn law_first_usdt_on_binance(list: Seq<BinanceBalance>, k: int)
    requires
        0 <= k < list.len(),
        list[k].asset@ == "USDT"@,
        forall|i: int| 0 <= i < k ==> (#[trigger] list[i]).asset@ != "USDT"@,
    ensures
        binance_api::first_usdt(list, 0) == Some(k),
{
    lemma_first_usdt(list, k, 0);
}

proof fn lemma_first_usdt(list: Seq<BinanceBalance>, k: int, i: int)
    requires
        0 <= i <= k < list.len(),
        list[k].asset@ == "USDT"@,
        forall|i: int| 0 <= i < k ==> (#[trigger] list[i]).asset@ != "USDT"@,
    ensures
        binance_api::first_usdt(list, i) == Some(k),
    decreases k - i,
{
    if i < k {
        lemma_first_usdt(list, k, i + 1);
    }
}

proof fn lemma_first_coin(coins: Seq<BybitCoinBalance>, k: int, i: int)
    requires
        0 <= i <= k < coins.len(),
        coins[k].coin@ == "USDT"@,
        forall|i: int| 0 <= i < k ==> (#[trigger] coins[i]).coin@ != "USDT"@,
    ensures
        first_usdt_coin(coins, i) == Some(k),
    decreases k - i,
{
    if i < k {
        lemma_first_coin(coins, k, i + 1);
    }
}

proof fn lemma_no_coin(coins: Seq<BybitCoinBalance>, i: int)
    requires
        0 <= i <= coins.len(),
        forall|i: int| 0 <= i < coins.len() ==> (#[trigger] coins[i]).coin@ != "USDT"@,
    ensures
        first_usdt_coin(coins, i) is None,
    decreases coins.len() - i,
{
    if i < coins.len() {
        lemma_no_coin(coins, i + 1);
    }
}

/// The balance of an account that has a USDT coin: what is in its wallet where that is
/// written, else what can be withdrawn, else its equity.
pub proof fn law_usdt_coin_counts(a: BybitAccount, k: int)
    requires
        0 <= k < a.coin@.len(),
        a.coin@[k].coin@ == "USDT"@,
        forall|i: int| 0 <= i < k ==> (#[trigger] a.coin@[i]).coin@ != "USDT"@,
    ensures
        ({
            let c = a.coin@[k];
            let wallet = signed_units(trimmed(c.walletBalance@));
            let free = signed_units(trimmed(c.availableToWithdraw@));
            let equity = signed_units(trimmed(c.equity@));
            &&& account_balance(a) is Some
            &&& wallet is Some ==> account_balance(a) == wallet
            &&& wallet is None && free is Some ==> account_balance(a) == free
            &&& wallet is None && free is None && equity is Some ==> account_balance(a) == equity
            &&& wallet is None && free is None && equity is None ==> account_balance(a) == Some(
                0int,
            )
        }),
{
    lemma_first_coin(a.coin@, k, 0);
}

/// An account without a USDT coin counts what is available of it, else its wallet,
/// where one of them is written.
pub proof fn law_account_without_usdt(a: BybitAccount)
    requires
        forall|i: int| 0 <= i < a.coin@.len() ==> (#[trigger] a.coin@[i]).coin@ != "USDT"@,
    ensures
        ({
            let free = signed_units(trimmed(a.totalAvailableBalance@));
            let wallet = signed_units(trimmed(a.totalWalletBalance@));
            &&& free is Some ==> account_balance(a) == free
            &&& free is None ==> account_balance(a) == wallet
        }),
{
    lemma_no_coin(a.coin@, 0);
}

/// The first account that has a balance counts.
pub proof fn law_first_account_counts(list: Seq<BybitAccount>, k: int)
    requires
        0 <= k < list.len(),
        account_balance(list[k]) is Some,
        forall|i: int| 0 <= i < k ==> account_balance(#[trigger] list[i]) is None,
    ensures
        wallet_balance(list, 0) == account_balance(list[k])->Some_0,
        wallet_balance(Seq::empty(), 0) == 0,
{
    lemma_first_account(list, k, 0);
}

proof fn lemma_first_account(list: Seq<BybitAccount>, k: int, i: int)
    requires
        0 <= i <= k < list.len(),
        account_balance(list[k]) is Some,
        forall|i: int| 0 <= i < k ==> account_balance(#[trigger] list[i]) is None,
    ensures
        wallet_balance(list, i) == account_balance(list[k])->Some_0,
    decreases k - i,
{
    if i < k {
        lemma_first_account(list, k, i + 1);
    }
}

/// Of the reported positions those are open, long or short, whose amount is written and
/// is not zero; they keep their order.
pub proof fn law_open_positions(
    a: Seq<BinancePosition>,
    x: BinancePosition,
    b: Seq<BybitPosition>,
    y: BybitPosition,
)
    ensures
        ({
            let before = binance_api::open_entries(a, a.len() as int);
            let after = binance_api::open_entries(a.push(x), (a.len() + 1) as int);
            let amount = signed_units(x.positionAmt@);
            &&& amount is Some && amount->Some_0 != 0 ==> after == before.push(x)
            &&& amount is None || amount->Some_0 == 0 ==> after == before
        }),
        ({
            let before = bybit_api::open_entries(b, b.len() as int);
            let after = bybit_api::open_entries(b.push(y), (b.len() + 1) as int);
            let size = signed_units(y.size@);
            &&& size is Some && size->Some_0 != 0 ==> after == before.push(y)
            &&& size is None || size->Some_0 == 0 ==> after == before
        }),
        binance_api::open_entries(a, 0).len() == 0,
        bybit_api::open_entries(b, 0).len() == 0,
{
    lemma_first_entries(a, x, b, y, a.len() as int, b.len() as int);
}

proof fn lemma_first_entries(
    a: Seq<BinancePosition>,
    x: BinancePosition,
    b: Seq<BybitPosition>,
    y: BybitPosition,
    n: int,
    m: int,
)
    requires
        0 <= n <= a.len(),
        0 <= m <= b.len(),
    ensures
        binance_api::open_entries(a.push(x), n) == binance_api::open_entries(a, n),
        bybit_api::open_entries(b.push(y), m) == bybit_api::open_entries(b, m),
    decreases n + m,
{
    if n > 0 {
        lemma_first_entries(a, x, b, y, n - 1, 0);
    }
    if m > 0 {
        lemma_first_entries(a, x, b, y, 0, m - 1);
    }
}

/// An order on Binance goes on after its reply exactly where it was taken and did not die
/// at once; it ends well exactly where an event tells of a fill, or where the exchange
/// is asked and tells of a price and a quantity.
pub proof fn law_binance_order_goes_on(
    placed: Result<BinanceOrderResponse, String>,
    end: Option<String>,
    order: BinanceOrderResponse,
    event: Option<FillEvent>,
    waited: Option<Result<binance_api::OrderFill, String>>,
    detail: Result<BinanceOrderResponse, DetailError>,
    asked: Result<binance_api::OrderFill, String>,
)
    requires
        binance_placed(placed, end),
        binance_waited(order, event, waited),
        binance_asked(order, detail, asked),
    ensures
        placed is Err ==> end is Some,
        placed is Ok && written(placed->Ok_0.executedQty@) > 0 ==> end is None,
        placed is Ok && placed->Ok_0.status@ == "NEW"@ ==> end is None,
        placed is Ok && placed->Ok_0.status@ == "EXPIRED"@ && written(placed->Ok_0.executedQty@)
            == 0 ==> end is Some,
        event is None <==> waited is None,
        event is Some ==> (waited->Some_0 is Ok <==> !event->Some_0.is_expired),
        asked is Ok <==> detail is Ok && written(detail->Ok_0.avgPrice@) != 0 && written(
            detail->Ok_0.executedQty@,
        ) != 0,
        asked is Ok ==> asked->Ok_0.avg_price == written(detail->Ok_0.avgPrice@)
            && asked->Ok_0.filled_qty == written(detail->Ok_0.executedQty@),
{
    reveal_strlit("NEW");
    reveal_strlit("EXPIRED");
    reveal_strlit("CANCELED");
    assert("NEW"@.len() == 3 && "EXPIRED"@.len() == 7 && "CANCELED"@.len() == 8);
    if detail is Ok {
        let d = detail->Ok_0;
        assert(written(d.avgPrice@) >= 0 && written(d.executedQty@) >= 0);
    }
}

/// An order on Bybit goes on after its reply exactly where it was taken, under the id
/// that the reply gives; it ends well exactly where an event tells of a fill. One that
/// the exchange is asked for has the quantity that it tells, or all that was ordered
/// where it tells none.
pub proof fn law_bybit_order_goes_on(
    placed: Result<BybitResponse<BybitOrderResult>, String>,
    id: Result<String, String>,
    ticket: bybit_api::OrderTicket,
    order_id: Seq<char>,
    event: Option<FillEvent>,
    waited: Option<Result<bybit_api::OrderFill, String>>,
    detail: Option<BybitOrderDetail>,
    f: bybit_api::OrderFill,
)
    requires
        bybit_placed(placed, id),
        bybit_waited(ticket, order_id, event, waited),
        bybit_asked(ticket, order_id, detail, f),
    ensures
        id is Ok <==> placed is Ok && placed->Ok_0.retCode == 0,
        id is Ok ==> id->Ok_0@ == placed->Ok_0.result.orderId@,
        event is None <==> waited is None,
        event is Some ==> (waited->Some_0 is Ok <==> !event->Some_0.is_expired),
        f.order_id@ == order_id,
        f.symbol@ == ticket.symbol@,
        f.side@ == ticket.side@,
        detail is None ==> f.filled_qty == ticket.quantity && f.avg_price == 0 && f.quote_qty == 0
            && f.commission == 0,
        detail is Some ==> {
            let d = detail->Some_0;
            &&& f.avg_price == written(d.avgPrice@)
            &&& f.quote_qty == written(d.cumExecValue@)
            &&& f.commission == fee(d.cumExecFee@)
            &&& amount_units(d.cumExecQty@) is Some ==> f.filled_qty == amount_units(
                d.cumExecQty@,
            )->Some_0
            &&& amount_units(d.cumExecQty@) is None ==> f.filled_qty == ticket.quantity
        },
{
}

/// A fill tells the same whichever exchange it came from.
pub proof fn law_fills_are_alike(
    u: UnifiedFill,
    a: binance_api::OrderFill,
    v: UnifiedFill,
    b: bybit_api::OrderFill,
)
    requires
        u.tells_binance(a),
        v.tells_bybit(b),
    ensures
        u.order_id@ == nat_text(a.order_id as nat),
        v.order_id@ == b.order_id@,
        a.avg_price == b.avg_price <==> u.avg_price == v.avg_price,
        a.filled_qty == b.filled_qty <==> u.filled_qty == v.filled_qty,
        a.quote_qty == b.quote_qty <==> u.quote_qty == v.quote_qty,
        a.commission == b.commission <==> u.commission == v.commission,
        u.avg_price == a.avg_price,
        u.filled_qty == a.filled_qty,
        u.quote_qty == a.quote_qty,
        u.commission == a.commission,
{
}

} // verus!
