//! What keys do, and what the screen shows.
use crate::clock::TimeOfDay;
use crate::live_trading::{LiveTradingEngine, OpenPosition};
use crate::price_store::{
    spread_between, CoinPrices, Exchange, ExchangeStatus, FundingStore,
};
use crate::renderer::{
    bucket_of, coin_cell, coin_color, detail_line, hold_text, is_lower, is_shown, is_table_order,
    key_taken, last_of, limit_reached, lower_and_higher, position_line, price_text, quits,
    row_before, row_line, row_lines, row_tells, scroll_after, scroll_within, shown_balance,
    shown_price, shows_store, sign_color, status_after, status_background, text_before,
    trade_indicator, upper_ascii, Key, KeyEffect, TableRow, UiState,
};
use crate::text::{fixed_text, int_text};
use crate::trade_journal::TradeRecord;
use vstd::prelude::*;

verus! {

/// A switch turns what it stands for, and nothing else.
pub proof fn law_switches(s: ExchangeStatus)
    ensures
        ({
            let t = status_after(s, Key::Char('1'));
            &&& t.binance_enabled == !s.binance_enabled
            &&& t.bybit_enabled == s.bybit_enabled
            &&& t.trading_enabled == s.trading_enabled
            &&& t.trade_limit == s.trade_limit
            &&& t.session_trades_taken == s.session_trades_taken
        }),
        ({
            let t = status_after(s, Key::Char('2'));
            &&& t.bybit_enabled == !s.bybit_enabled
            &&& t.binance_enabled == s.binance_enabled
            &&& t.trading_enabled == s.trading_enabled
            &&& t.trade_limit == s.trade_limit
            &&& t.session_trades_taken == s.session_trades_taken
        }),
        ({
            let t = status_after(s, Key::Char('t'));
            &&& t.trading_enabled == !s.trading_enabled
            &&& t.binance_enabled == s.binance_enabled
            &&& t.bybit_enabled == s.bybit_enabled
            &&& t.trade_limit == s.trade_limit
            &&& t.session_trades_taken == s.session_trades_taken
        }),
        status_after(s, Key::Char('T')) == status_after(s, Key::Char('t')),
        status_after(s, Key::Char('L')) == status_after(s, Key::Char('l')),
{
}

/// The trade limit goes up from none through one, two, three, five and ten and back to
/// none; only the step to one starts a new session. No other key touches it.
pub proof fn law_limit_steps(s: ExchangeStatus, key: Key)
    ensures
        ({
            let t = status_after(s, Key::Char('l'));
            &&& s.trade_limit == 0 ==> t.trade_limit == 1 && t.session_trades_taken == 0
            &&& s.trade_limit == 1 ==> t.trade_limit == 2
            &&& s.trade_limit == 2 ==> t.trade_limit == 3
            &&& s.trade_limit == 3 ==> t.trade_limit == 5
            &&& s.trade_limit == 5 ==> t.trade_limit == 10
            &&& s.trade_limit == 10 ==> t.trade_limit == 0
            &&& t.trade_limit != 1 ==> t.session_trades_taken == s.session_trades_taken
            &&& t.trade_limit == 1 ==> t.session_trades_taken == 0
            &&& t.trading_enabled == s.trading_enabled
            &&& t.binance_enabled == s.binance_enabled
            &&& t.bybit_enabled == s.bybit_enabled
        }),
        key != Key::Char('l') && key != Key::Char('L') ==> {
            &&& status_after(s, key).trade_limit == s.trade_limit
            &&& status_after(s, key).session_trades_taken == s.session_trades_taken
        },
        key !is Char ==> status_after(s, key) == s,
{
}

/// Scrolling down and up again leads back, by one line or by twenty, unless the end of
/// what can be counted was reached; scrolling up stops at the top.
pub proof fn law_scrolling(scroll: usize)
    ensures
        scroll < usize::MAX ==> scroll_after(scroll, Key::Down) == scroll + 1 && scroll_after(
            (scroll + 1) as usize,
            Key::Up,
        ) == scroll,
        scroll <= usize::MAX - 20 ==> scroll_after(scroll, Key::PageDown) == scroll + 20
            && scroll_after((scroll + 20) as usize, Key::PageUp) == scroll,
        scroll_after(0, Key::Up) == 0,
        scroll < 20 ==> scroll_after(scroll, Key::PageUp) == 0,
        scroll_after(scroll, Key::Home) == 0,
        scroll_after(scroll, Key::Esc) == 0,
        scroll_after(scroll, Key::End) == usize::MAX,
        scroll_after(usize::MAX, Key::Down) == usize::MAX,
        scroll_after(scroll, Key::Char('k')) == scroll_after(scroll, Key::Up),
        scroll_after(scroll, Key::Char('j')) == scroll_after(scroll, Key::Down),
        scroll_after(scroll, Key::Char('t')) == scroll,
{
}

/// The program ends by the interrupt key at any time, and by its own key only while no
/// query is typed.
pub proof fn law_quitting(searching: bool, key: Key)
    ensures
        quits(searching, Key::CtrlC),
        quits(false, Key::Char('q')),
        !quits(true, Key::Char('q')),
        key != Key::CtrlC && key != Key::Char('q') ==> !quits(searching, key),
{
}

/// A letter of a query becomes upper case; what is upper case already, and what is no
/// letter, stays.
pub proof fn law_upper_case(c: char)
    ensures
        97 <= c as int <= 122 ==> upper_ascii(c) as int == c as int - 32,
        c as int <= 96 || c as int >= 123 ==> upper_ascii(c) == c,
        upper_ascii(upper_ascii(c)) == upper_ascii(c),
{
}

/// A coin is shown where the query occurs in it and an exchange that is enabled has a
/// price for it. An exchange that is not enabled shows no price.
pub proof fn law_shown_coins(
    before: Seq<char>,
    query: Seq<char>,
    after: Seq<char>,
    p: CoinPrices,
    s: ExchangeStatus,
)
    requires
        (s.binance_enabled && p.binance is Some) || (s.bybit_enabled && p.bybit is Some),
    ensures
        is_shown(before + query + after, p, query, s),
        is_shown(before, p, Seq::empty(), s),
        before.len() < query.len() ==> !is_shown(before, p, query, s),
        !is_shown(
            before,
            p,
            Seq::empty(),
            ExchangeStatus { binance_enabled: false, bybit_enabled: false, ..s },
        ),
        !is_shown(before, CoinPrices { binance: None, bybit: None, ..p }, Seq::empty(), s),
        shown_price(p.binance, true) == p.binance,
        shown_price(p.binance, false) is None,
{
    let coin = before + query + after;
    let i = before.len() as int;
    assert(coin.subrange(i, i + query.len()) =~= query);
}

/// Spreads fall into the same bucket where they round to the same quarter of a percent,
/// and a larger spread never falls into a lower one. A coin without a spread stands as
/// one of minus one percent.
pub proof fn law_buckets(a: i64, b: i64)
    ensures
        bucket_of(Some(a)) * 200_000_000 <= 8 * a + 100_000_000 < (bucket_of(Some(a)) + 1)
            * 200_000_000,
        a <= b ==> bucket_of(Some(a)) <= bucket_of(Some(b)),
        bucket_of(None) == bucket_of(Some(-100_000_000i64)),
{
}

/// A row with an open position comes before one without; then the larger spread counts,
/// to a quarter of a percent; then the coins come in the order of their names.
pub proof fn law_row_order(a: TableRow, b: TableRow)
    ensures
        a.has_open_position && !b.has_open_position ==> row_before(a, b) && !row_before(b, a),
        a.has_open_position == b.has_open_position && bucket_of(a.spread) > bucket_of(b.spread)
            ==> row_before(a, b) && !row_before(b, a),
        a.has_open_position == b.has_open_position && bucket_of(a.spread) == bucket_of(b.spread)
            ==> (row_before(a, b) <==> text_before(a.coin@, b.coin@)),
{
}

/// Texts come in the order of their first characters that differ; a text comes before
/// the longer ones that begin with it.
pub proof fn law_text_order(common: Seq<char>, x: char, y: char, a: Seq<char>, b: Seq<char>)
    requires
        (x as int) < (y as int),
    ensures
        text_before(common + seq![x] + a, common + seq![y] + b),
        !text_before(common + seq![y] + b, common + seq![x] + a),
        text_before(common, common + seq![x] + a),
        !text_before(common, common),
    decreases common.len(),
{
    let p = common + seq![x] + a;
    let q = common + seq![y] + b;
    if common.len() > 0 {
        let rest = common.skip(1);
        law_text_order(rest, x, y, a, b);
        assert(p.skip(1) =~= rest + seq![x] + a);
        assert(q.skip(1) =~= rest + seq![y] + b);
    } else {
        assert(p[0] == x);
        assert(q[0] == y);
    }
}

/// The table shows every row once, and none below a row that it comes before: rows with
/// an open position stand above all others.
pub proof fn law_table_order(order: Seq<usize>, rows: Seq<TableRow>, i: int, j: int)
    requires
        is_table_order(order, rows),
        0 <= i < j < order.len(),
    ensures
        order.len() == rows.len(),
        order[i] != order[j],
        rows[order[j] as int].has_open_position ==> rows[order[i] as int].has_open_position,
        rows[order[i] as int].has_open_position == rows[order[j] as int].has_open_position
            ==> bucket_of(rows[order[i] as int].spread) >= bucket_of(rows[order[j] as int].spread),
{
    assert(!row_before(rows[order[j] as int], rows[order[i] as int]));
}

/// A price is shown with the digits that it needs: two behind the point from a thousand
/// dollars on, four from one dollar on, six from a cent on, eight from a hundredth of a
/// cent on and ten below.
pub proof fn law_price_digits(v: u64)
    ensures
        v >= 1000 * 100_000_000 ==> price_text(v) == fixed_text(v as int, 2),
        100_000_000 <= v < 1000 * 100_000_000 ==> price_text(v) == fixed_text(v as int, 4),
        1_000_000 <= v < 100_000_000 ==> price_text(v) == fixed_text(v as int, 6),
        10_000 <= v < 1_000_000 ==> price_text(v) == fixed_text(v as int, 8),
        v < 10_000 ==> price_text(v) == fixed_text(v as int, 8) + "00"@,
{
}

/// Of two prices that are known at most one is the lower, and none where they are equal.
pub proof fn law_lower_price(a: u64, b: u64)
    ensures
        is_lower(Some(a), Some(b)) <==> a < b,
        is_lower(Some(a), Some(b)) ==> !is_lower(Some(b), Some(a)),
        !is_lower(None, Some(b)),
        !is_lower(Some(a), None),
{
}

/// The session has had its trades where it has a limit and has taken as many. Trading
/// that is off looks the same whether or not; trading that goes on looks different from
/// trading that has reached its limit.
pub proof fn law_trading_status(s: ExchangeStatus, t: ExchangeStatus)
    ensures
        s.trade_limit == 0 ==> !limit_reached(s),
        s.trade_limit > 0 ==> (limit_reached(s) <==> s.session_trades_taken >= s.trade_limit),
        !s.trading_enabled && !t.trading_enabled ==> status_background(s) == status_background(t)
            && trade_indicator(s) == trade_indicator(t),
        s.trading_enabled && t.trading_enabled && limit_reached(s) == limit_reached(t)
            ==> status_background(s) == status_background(t) && trade_indicator(s)
            == trade_indicator(t),
        s.trading_enabled && limit_reached(s) ==> status_background(s) == "\x1b[30;43;1m"@,
        s.trading_enabled && !limit_reached(s) ==> status_background(s) == "\x1b[30;41;1m"@,
        !s.trading_enabled ==> status_background(s) == "\x1b[30;46;1m"@,
{
}

/// A gain is green, a loss red, and nothing is neither.
pub proof fn law_sign_colors(v: int)
    ensures
        v > 0 ==> sign_color(v) == "32"@,
        v < 0 ==> sign_color(v) == "31"@,
        sign_color(0) == "37"@,
{
}

/// A balance that was pushed is shown where it is positive, else the one that is known.
/// The last trade is the one that was noted last.
pub proof fn law_shown_state(live: i64, known: i64, trades: Seq<TradeRecord>, r: TradeRecord)
    ensures
        live > 0 ==> shown_balance(live, known) == live,
        live <= 0 ==> shown_balance(live, known) == known,
        last_of(Seq::empty()) is None,
        last_of(trades.push(r)) == Some(r),
{
}

/// How long a position was held is shown in hours and minutes, minutes and seconds, or
/// seconds, each part what is left beside the larger one.
pub proof fn law_hold_text(hours: int, minutes: int, seconds: int)
    requires
        0 <= hours,
        0 <= minutes < 60,
        0 <= seconds < 60,
    ensures
        hours > 0 ==> hold_text(hours * 3600 + minutes * 60 + seconds) == int_text(hours) + "h"@
            + int_text(minutes) + "m"@,
        minutes > 0 ==> hold_text(minutes * 60 + seconds) == int_text(minutes) + "m"@ + int_text(
            seconds,
        ) + "s"@,
        hold_text(seconds) == int_text(seconds) + "s"@,
{
    let secs = hours * 3600 + minutes * 60 + seconds;
    assert(secs / 3600 == hours && (secs % 3600) / 60 == minutes);
    let short = minutes * 60 + seconds;
    assert(short / 60 == minutes && short % 60 == seconds);
}

/// An open position marks its row before anything else does, a funding pause next; other
/// rows alternate in colour.
pub proof fn law_row_marks(row: TableRow, place: int)
    requires
        place >= 0,
    ensures
        row.has_open_position ==> coin_color(row, place) == "33;1"@ && "●"@.is_prefix_of(
            coin_cell(row),
        ),
        !row.has_open_position && row.near_funding ==> coin_color(row, place) == "31"@
            && "⏸"@.is_prefix_of(coin_cell(row)),
        !row.has_open_position && !row.near_funding ==> coin_color(row, 2 * place) == "36;1"@
            && coin_color(row, 2 * place + 1) == "36"@ && " "@.is_prefix_of(coin_cell(row)),
{
    let cell = coin_cell(row);
    let mark = if row.has_open_position {
        "●"@
    } else if row.near_funding {
        "⏸"@
    } else {
        " "@
    };
    assert(cell.subrange(0, mark.len() as int) =~= mark);
}

/// The first shown row lies within the table, and where it must move it moves up just as
/// far as fills the screen.
pub proof fn law_scroll_within(scroll: usize, total: usize, available: usize)
    ensures
        total <= available ==> scroll_within(scroll, total, available) == 0,
        scroll + available <= total ==> scroll_within(scroll, total, available) == scroll,
        scroll + available > total >= available ==> scroll_within(scroll, total, available)
            + available == total,
{
}

/// The lower price is marked as such on its exchange and the higher one on the other;
/// equal prices and a single one are not marked.
pub proof fn law_marked_prices(binance: u64, bybit: u64)
    ensures
        binance < bybit ==> lower_and_higher(Some(binance), Some(bybit)) == (
            Some(0usize),
            Some(1usize),
        ),
        bybit < binance ==> lower_and_higher(Some(binance), Some(bybit)) == (
            Some(1usize),
            Some(0usize),
        ),
        lower_and_higher(Some(binance), Some(binance)).0 is None,
        lower_and_higher(Some(binance), Some(binance)).1 is None,
        lower_and_higher(None, Some(bybit)).0 is None,
        lower_and_higher(Some(binance), None).1 is None,
{
}

/// A row shows the price of each exchange in its own place, and none of one that is
/// switched off. Its spread is that of the two prices that it shows.
pub proof fn law_row(
    row: TableRow,
    p: CoinPrices,
    s: ExchangeStatus,
    open: bool,
    hours: u32,
    near: bool,
)
    requires
        row_tells(row, p, s, open, hours, near),
    ensures
        s.binance_enabled ==> row.binance == p.binance,
        !s.binance_enabled ==> row.binance is None,
        s.bybit_enabled ==> row.bybit == p.bybit,
        !s.bybit_enabled ==> row.bybit is None,
        !s.binance_enabled || !s.bybit_enabled || p.binance is None || p.bybit is None
            ==> row.spread is None,
        row.spread is Some ==> spread_between(p.binance, p.bybit) == Some(row.spread->Some_0 as int),
        row.has_open_position == open,
        row.funding_hours == hours,
        row.near_funding == near,
{
}

/// Without a query every coin that has a price on an enabled exchange has its row, marked
/// where a position on it is open.
pub proof fn law_coin_has_its_row(
    rows: Seq<TableRow>,
    prices: Map<Seq<char>, CoinPrices>,
    s: ExchangeStatus,
    e: LiveTradingEngine,
    funding: FundingStore,
    now: TimeOfDay,
    coin: Seq<char>,
) -> (j: int)
    requires
        shows_store(rows, prices, Seq::empty(), s, e, funding, now),
        prices.contains_key(coin),
        (s.binance_enabled && prices[coin].binance is Some) || (s.bybit_enabled
            && prices[coin].bybit is Some),
    ensures
        0 <= j < rows.len(),
        rows[j].coin@ == coin,
        s.binance_enabled ==> rows[j].binance == prices[coin].binance,
        s.bybit_enabled ==> rows[j].bybit == prices[coin].bybit,
        (exists|i: int|
            0 <= i < e.open_positions@.len() && (#[trigger] e.open_positions@[i]).coin@ == coin)
            ==> rows[j].has_open_position,
        rows[j].funding_hours == funding.hours_spec(coin),
{
    assert(is_shown(coin, prices[coin], Seq::empty(), s));
    let j = choose|j: int| 0 <= j < rows.len() && (#[trigger] rows[j]).coin@ == coin;
    crate::live_trading::lemma_place_of(e.open_positions@, coin, 0);
    j
}

/// An open position is shown at what it would make at the price of the exchange that was
/// bought on and of the one that was sold on; its entry price stands for one that is not
/// known.
pub proof fn law_position_shown(p: OpenPosition, binance: u64, bybit: u64, now_ns: i64)
    requires
        p.buy_exchange != p.sell_exchange,
        now_ns >= p.open_time_ns,
    ensures
        ({
            let held = (now_ns - p.open_time_ns) / 1_000_000_000;
            let on_binance = p.buy_exchange == Exchange::Binance;
            let (bought, sold) = if on_binance {
                (binance as int, bybit as int)
            } else {
                (bybit as int, binance as int)
            };
            &&& detail_line(p, Some(binance), Some(bybit), now_ns) == position_line(
                p,
                held,
                p.unrealized(bought, sold),
            )
            &&& detail_line(p, None, None, now_ns) == position_line(
                p,
                held,
                p.unrealized(p.entry_buy_price as int, p.entry_sell_price as int),
            )
            &&& on_binance ==> detail_line(p, Some(binance), None, now_ns) == position_line(
                p,
                held,
                p.unrealized(bought, p.entry_sell_price as int),
            )
            &&& !on_binance ==> detail_line(p, Some(binance), None, now_ns) == position_line(
                p,
                held,
                p.unrealized(p.entry_buy_price as int, sold),
            )
        }),
{
}

/// The shown rows are those from the first to the last in the order of the table.
pub proof fn law_shown_rows(
    rows: Seq<TableRow>,
    order: Seq<usize>,
    start: int,
    end: int,
    k: int,
)
    requires
        0 <= start <= k < end,
    ensures
        row_lines(rows, order, start, end).len() == end - start,
        row_lines(rows, order, start, end)[k - start] == row_line(rows[order[k] as int], k),
{
}

/// While a query is typed, keys go into it and switch nothing: a character adds itself in
/// upper case, the key that deletes takes the last one away again, the key that cancels
/// empties it and the one that confirms keeps it.
pub proof fn law_typing(
    ui: UiState,
    after: UiState,
    status: ExchangeStatus,
    status_now: ExchangeStatus,
    key: Key,
    e: KeyEffect,
)
    requires
        ui.searching,
        key_taken(ui, after, status, status_now, key, e),
    ensures
        status_now == status,
        !e.clear_halt,
        e.quit <==> key == Key::CtrlC,
        key is Char ==> {
            &&& after.searching
            &&& after.query@.len() == ui.query@.len() + 1
            &&& after.query@.drop_last() == ui.query@
            &&& after.query@.last() == upper_ascii(key->Char_0)
            &&& after.scroll == 0
        },
        key == Key::Backspace && ui.query@.len() > 0 ==> after.searching && after.query@
            == ui.query@.drop_last(),
        key == Key::Backspace && ui.query@.len() == 0 ==> after.query@.len() == 0,
        key == Key::Esc ==> !after.searching && after.query@.len() == 0,
        key == Key::Enter ==> !after.searching && after.query@ == ui.query@,
        key == Key::Up || key == Key::Down ==> after.query@ == ui.query@ && after.scroll
            == ui.scroll,
{
    if key is Char {
        assert(after.query@.drop_last() =~= ui.query@);
    }
}

/// While no query is typed, one key begins one; the key that clears the halt does just
/// that, and the query stays until it is cancelled.
pub proof fn law_commands(
    ui: UiState,
    after: UiState,
    status: ExchangeStatus,
    status_now: ExchangeStatus,
    key: Key,
    e: KeyEffect,
)
    requires
        !ui.searching,
        key_taken(ui, after, status, status_now, key, e),
    ensures
        after.searching <==> key == Key::Char('/'),
        key == Key::Char('/') || key == Key::Esc ==> after.query@.len() == 0,
        key != Key::Char('/') && key != Key::Esc ==> after.query@ == ui.query@,
        e.clear_halt <==> key == Key::Char('r') || key == Key::Char('R'),
        e.clear_halt ==> status_now == status && !e.quit && after.scroll == ui.scroll,
        e.quit <==> key == Key::CtrlC || key == Key::Char('q'),
        key == Key::Char('t') ==> status_now.trading_enabled == !status.trading_enabled,
        key == Key::Down && ui.scroll < usize::MAX ==> after.scroll == ui.scroll + 1,
{
}

} // verus!
