//! The terminal table: what a key does, which rows are shown in which order, and
//! the text of a screen.
use crate::clock::{seconds_between, utc_time_of_day, whole_seconds, TimeOfDay};
use crate::config::ENTRY_SPREAD_THRESHOLD;
use crate::fixed::MAX_AMOUNT;
use crate::funding::{is_near_funding_at, near_funding};
use crate::live_trading::{holds, price_or, prices_in_range, LiveTradingEngine, OpenPosition};
use crate::price_store::{
    compute_spread_from_fresh, fresh_prices, lists_entries, price_if_fresh, spread_between,
    CoinPrices, Exchange, ExchangeStatus, FundingStore, PriceStore,
};
use crate::text::{
    chars_of, fixed_text, fixed_to_string, int_text, left_aligned, lemma_texts_push, nat_text,
    push_fixed, push_int, push_left_aligned, push_nat, push_repeated, repeated, same_text, texts,
};
use crate::trade_journal::{TradeRecord, TradeType};
use vstd::prelude::*;

verus! {

/// A key that was pressed.
#[derive(Debug, Clone, Copy, PartialEq, Eq, Structural)]
pub enum Key {
    CtrlC,
    Char(char),
    Esc,
    Enter,
    Backspace,
    Up,
    Down,
    PageUp,
    PageDown,
    Home,
    End,
    Other,
}

/// What the user has set on the screen.
pub struct UiState {
    /// First row that is shown.
    pub scroll: usize,
    /// Text that a coin must hold to be shown.
    pub query: String,
    /// Whether the query is being typed.
    pub searching: bool,
}

/// What else a key asks for.
#[derive(Debug, Clone, Copy, PartialEq, Eq, Structural)]
pub struct KeyEffect {
    pub quit: bool,
    /// Whether the emergency halt is to be cleared.
    pub clear_halt: bool,
}

/// The trade limit after the current one: one, two, three, five, ten, none, and
/// one again.
pub open spec fn next_limit(current: u32) -> u32 {
    if current == 1 {
        2
    } else if current == 2 {
        3
    } else if current == 3 {
        5
    } else if current == 5 {
        10
    } else if current == 10 {
        0
    } else {
        1
    }
}

/// Whether moving on from a trade limit starts a new session.
pub open spec fn restarts_session(current: u32) -> bool {
    current != 1 && current != 2 && current != 3 && current != 5 && current != 10
}

/// An ASCII letter in upper case, any other character as it is.
pub open spec fn upper_ascii(c: char) -> char {
    if 97 <= c as int <= 122 {
        (c as int - 32) as char
    } else {
        c
    }
}

fn to_upper_ascii(c: char) -> (u: char)
    ensures
        u == upper_ascii(c),
{
    let n: u32 = c as u32;
    if 97 <= n && n <= 122 {
        ((n - 32) as u8) as char
    } else {
        c
    }
}

/// The status after a key while no query is typed.
pub open spec fn status_after(s: ExchangeStatus, key: Key) -> ExchangeStatus {
    match key {
        Key::Char(c) => if c == '1' {
            ExchangeStatus { binance_enabled: !s.binance_enabled, ..s }
        } else if c == '2' {
            ExchangeStatus { bybit_enabled: !s.bybit_enabled, ..s }
        } else if c == 't' || c == 'T' {
            ExchangeStatus { trading_enabled: !s.trading_enabled, ..s }
        } else if c == 'l' || c == 'L' {
            ExchangeStatus {
                trade_limit: next_limit(s.trade_limit),
                session_trades_taken: if restarts_session(s.trade_limit) {
                    0
                } else {
                    s.session_trades_taken
                },
                ..s
            }
        } else {
            s
        },
        _ => s,
    }
}

/// `a + b`, or the largest index where that is beyond it.
pub open spec fn capped_sum(a: usize, b: int) -> int {
    crate::fixed::min_of(a + b, usize::MAX as int)
}

/// The first row after a key while no query is typed.
pub open spec fn scroll_after(scroll: usize, key: Key) -> int {
    match key {
        Key::Up => crate::stats::less(scroll as int, 1),
        Key::Down => capped_sum(scroll, 1),
        Key::PageUp => crate::stats::less(scroll as int, 20),
        Key::PageDown => capped_sum(scroll, 20),
        Key::Home => 0,
        Key::End => usize::MAX as int,
        Key::Esc => 0,
        Key::Char(c) => if c == 'k' {
            crate::stats::less(scroll as int, 1)
        } else if c == 'j' {
            capped_sum(scroll, 1)
        } else {
            scroll as int
        },
        _ => scroll as int,
    }
}

/// Whether a key ends the program.
pub open spec fn quits(searching: bool, key: Key) -> bool {
    key == Key::CtrlC || (!searching && key == Key::Char('q'))
}

/// A text without its last character.
pub open spec fn shortened(s: Seq<char>) -> Seq<char> {
    if s.len() > 0 {
        s.drop_last()
    } else {
        s
    }
}

fn type_key(ui: &mut UiState, key: Key)
    ensures
        match key {
            Key::Esc => final(ui).query@.len() == 0 && !final(ui).searching && final(ui).scroll
                == 0,
            Key::Enter => final(ui).query@ == old(ui).query@ && !final(ui).searching && final(ui).scroll == 0,
            Key::Backspace => final(ui).query@ == shortened(old(ui).query@) && final(ui).searching
                == old(ui).searching && final(ui).scroll == 0,
            Key::Char(c) => final(ui).query@ == old(ui).query@.push(upper_ascii(c)) && final(ui).searching == old(ui).searching && final(ui).scroll == 0,
            _ => final(ui).query@ == old(ui).query@ && final(ui).searching == old(ui).searching
                && final(ui).scroll == old(ui).scroll,
        },
{
    match key {
        Key::Esc => {
            ui.searching = false;
            ui.query = String::new();
            ui.scroll = 0;
        },
        Key::Enter => {
            ui.searching = false;
            ui.scroll = 0;
        },
        Key::Backspace => {
            let n: usize = ui.query.as_str().unicode_len();
            if n > 0 {
                let shorter = ui.query.as_str().substring_char(0, n - 1).to_owned();
                assert(shorter@ =~= ui.query@.drop_last());
                ui.query = shorter;
            }
            ui.scroll = 0;
        },
        Key::Char(c) => {
            ui.query.push(to_upper_ascii(c));
            ui.scroll = 0;
        },
        _ => {},
    }
}

fn switch(status: &mut ExchangeStatus, key: Key)
    ensures
        *final(status) == status_after(*old(status), key),
{
    if let Key::Char(c) = key {
        if c == '1' {
            status.binance_enabled = !status.binance_enabled;
        } else if c == '2' {
            status.bybit_enabled = !status.bybit_enabled;
        } else if c == 't' || c == 'T' {
            status.trading_enabled = !status.trading_enabled;
        } else if c == 'l' || c == 'L' {
            let limit: u32 = status.trade_limit;
            if limit == 1 {
                status.trade_limit = 2;
            } else if limit == 2 {
                status.trade_limit = 3;
            } else if limit == 3 {
                status.trade_limit = 5;
            } else if limit == 5 {
                status.trade_limit = 10;
            } else if limit == 10 {
                status.trade_limit = 0;
            } else {
                status.trade_limit = 1;
                status.session_trades_taken = 0;
            }
        }
    }
}

/// Whether a key was taken: while a query is typed it edits it, else it scrolls, switches
/// and quits.
pub open spec fn key_taken(
    ui: UiState,
    ui_after: UiState,
    status: ExchangeStatus,
    status_now: ExchangeStatus,
    key: Key,
    e: KeyEffect,
) -> bool {
    &&& e.quit == quits(ui.searching, key)
    &&& e.clear_halt == (!ui.searching && (key == Key::Char('r') || key == Key::Char('R')))
    &&& ui.searching ==> {
        &&& status_now == status
        &&& ui_after.searching == (key != Key::Esc && key != Key::Enter)
        &&& ui_after.query@ == match key {
            Key::Esc => Seq::<char>::empty(),
            Key::Backspace => shortened(ui.query@),
            Key::Char(c) => ui.query@.push(upper_ascii(c)),
            _ => ui.query@,
        }
        &&& ui_after.scroll == match key {
            Key::Esc => 0,
            Key::Enter => 0,
            Key::Backspace => 0,
            Key::Char(_) => 0,
            _ => ui.scroll,
        }
    }
    &&& !ui.searching ==> {
        &&& status_now == status_after(status, key)
        &&& ui_after.searching == (key == Key::Char('/'))
        &&& ui_after.query@ == if key == Key::Char('/') || key == Key::Esc {
            Seq::<char>::empty()
        } else {
            ui.query@
        }
        &&& ui_after.scroll == scroll_after(ui.scroll, key)
    }
}

/// Takes a key. While a query is typed, keys edit it; else they scroll, switch
/// and quit.
pub fn on_key(ui: &mut UiState, status: &mut ExchangeStatus, key: Key) -> (e: KeyEffect)
    ensures
        key_taken(*old(ui), *final(ui), *old(status), *final(status), key, e),
{
    let mut effect = KeyEffect { quit: false, clear_halt: false };
    if key == Key::CtrlC {
        effect.quit = true;
        return effect;
    }
    if ui.searching {
        type_key(ui, key);
        assert(key == Key::Esc ==> ui.query@ =~= Seq::<char>::empty());
        return effect;
    }
    match key {
        Key::Up => {
            ui.scroll = ui.scroll.saturating_sub(1);
        },
        Key::Down => {
            ui.scroll = ui.scroll.saturating_add(1);
        },
        Key::PageUp => {
            ui.scroll = ui.scroll.saturating_sub(20);
        },
        Key::PageDown => {
            ui.scroll = ui.scroll.saturating_add(20);
        },
        Key::Home => {
            ui.scroll = 0;
        },
        Key::End => {
            ui.scroll = usize::MAX;
        },
        Key::Esc => {
            ui.query = String::new();
            ui.scroll = 0;
        },
        Key::Char(c) => {
            if c == 'q' {
                effect.quit = true;
            } else if c == '/' {
                ui.searching = true;
                ui.query = String::new();
            } else if c == 'k' {
                ui.scroll = ui.scroll.saturating_sub(1);
            } else if c == 'j' {
                ui.scroll = ui.scroll.saturating_add(1);
            } else if c == 'r' || c == 'R' {
                effect.clear_halt = true;
            }
            switch(status, key);
        },
        _ => {},
    }
    effect
}

/// Milliseconds without a key after which the table scrolls back to its top.
pub const IDLE_RESET_MS: u128 = 10_000;

/// Milliseconds between two screens while no key is pressed.
pub const REPAINT_MS: u128 = 80;

/// Scrolls back to the top after a while without a key, unless a query is typed.
pub fn on_idle(ui: &mut UiState, idle_ms: u128)
    ensures
        final(ui).query@ == old(ui).query@,
        final(ui).searching == old(ui).searching,
        final(ui).scroll == if !old(ui).searching && idle_ms > IDLE_RESET_MS {
            0
        } else {
            old(ui).scroll
        },
{
    if !ui.searching && idle_ms > IDLE_RESET_MS {
        ui.scroll = 0;
    }
}

/// Whether the screen is drawn: at once after a key, else after a while.
pub fn repaint_due(key_pressed: bool, since_ms: u128) -> (r: bool)
    ensures
        r == (key_pressed || since_ms >= REPAINT_MS),
{
    key_pressed || since_ms >= REPAINT_MS
}

/// A row of the table.
#[derive(Debug, Clone)]
pub struct TableRow {
    pub coin: String,
    pub binance: Option<u64>,
    pub bybit: Option<u64>,
    pub spread: Option<i64>,
    pub has_open_position: bool,
    pub funding_hours: u32,
    pub near_funding: bool,
}

/// Whether a text holds another.
pub open spec fn holds_text(s: Seq<char>, part: Seq<char>) -> bool {
    exists|i: int| 0 <= i && i + part.len() <= s.len() && #[trigger] s.subrange(i, i + part.len())
        == part
}

fn contains_text(s: &str, part: &str) -> (r: bool)
    ensures
        r == holds_text(s@, part@),
{
    let n: usize = s.unicode_len();
    let m: usize = part.unicode_len();
    if m > n {
        return false;
    }
    let mut i: usize = 0;
    while i <= n - m
        invariant
            m <= n == s@.len(),
            m == part@.len(),
            i <= n - m + 1,
            forall|k: int| 0 <= k < i ==> #[trigger] s@.subrange(k, k + m) != part@,
        decreases n - m + 1 - i,
    {
        if same_text(s.substring_char(i, i + m), part) {
            assert(s@.subrange(i as int, i + m) == part@);
            return true;
        }
        if i == n - m {
            return false;
        }
        i = i + 1;
    }
    false
}

/// A price, where its exchange is enabled.
pub open spec fn shown_price(p: Option<u64>, enabled: bool) -> Option<u64> {
    if enabled {
        p
    } else {
        None
    }
}

/// Whether a coin is shown: it holds the query and has a price on an enabled
/// exchange.
pub open spec fn is_shown(
    coin: Seq<char>,
    p: CoinPrices,
    query: Seq<char>,
    status: ExchangeStatus,
) -> bool {
    &&& query.len() == 0 || holds_text(coin, query)
    &&& shown_price(p.binance, status.binance_enabled) is Some || shown_price(
        p.bybit,
        status.bybit_enabled,
    ) is Some
}

/// The row of a coin, none where it is not shown.
pub fn row_of(
    coin: &str,
    p: &CoinPrices,
    query: &str,
    status: &ExchangeStatus,
    has_open_position: bool,
    funding_hours: u32,
    near_funding: bool,
) -> (r: Option<TableRow>)
    ensures
        r is Some <==> is_shown(coin@, *p, query@, *status),
        r is Some ==> {
            let row = r->Some_0;
            &&& row.coin@ == coin@
            &&& row.binance == shown_price(p.binance, status.binance_enabled)
            &&& row.bybit == shown_price(p.bybit, status.bybit_enabled)
            &&& match row.spread {
                Some(s) => spread_between(row.binance, row.bybit) == Some(s as int),
                None => spread_between(row.binance, row.bybit) is None,
            }
            &&& row.has_open_position == has_open_position
            &&& row.funding_hours == funding_hours
            &&& row.near_funding == near_funding
        },
{
    if !query.is_empty() && !contains_text(coin, query) {
        return None;
    }
    let binance: Option<u64> = if status.binance_enabled {
        p.binance
    } else {
        None
    };
    let bybit: Option<u64> = if status.bybit_enabled {
        p.bybit
    } else {
        None
    };
    if binance.is_none() && bybit.is_none() {
        return None;
    }
    Some(
        TableRow {
            coin: coin.to_owned(),
            binance,
            bybit,
            spread: compute_spread_from_fresh(binance, bybit),
            has_open_position,
            funding_hours,
            near_funding,
        },
    )
}

/// The bucket of a spread: quarters of a percent, rounded to the nearest; a coin
/// without a spread counts as minus one percent.
pub open spec fn bucket_of(spread: Option<i64>) -> int {
    match spread {
        Some(s) => (8 * s + 100_000_000) / 200_000_000,
        None => -4,
    }
}

fn compute_bucket(spread: Option<i64>) -> (b: i128)
    ensures
        b == bucket_of(spread),
{
    match spread {
        Some(s) => crate::fixed::floor_div(8 * s as i128 + 100_000_000, 200_000_000),
        None => -4,
    }
}

/// Whether a text comes before another in the order of their characters.
pub open spec fn text_before(a: Seq<char>, b: Seq<char>) -> bool
    decreases a.len(),
{
    if b.len() == 0 {
        false
    } else if a.len() == 0 {
        true
    } else if a[0] != b[0] {
        (a[0] as int) < (b[0] as int)
    } else {
        text_before(a.skip(1), b.skip(1))
    }
}

proof fn lemma_text_order(a: Seq<char>, b: Seq<char>, c: Seq<char>)
    ensures
        text_before(a, b) ==> !text_before(b, a),
        text_before(a, b) && text_before(b, c) ==> text_before(a, c),
    decreases a.len(),
{
    if a.len() > 0 && b.len() > 0 {
        lemma_text_order(
            a.skip(1),
            b.skip(1),
            if c.len() > 0 {
                c.skip(1)
            } else {
                c
            },
        );
    }
}

fn is_text_before(a: &str, b: &str) -> (r: bool)
    ensures
        r == text_before(a@, b@),
{
    let x = chars_of(a);
    let y = chars_of(b);
    let mut i: usize = 0;
    assert(a@.skip(0) =~= a@ && b@.skip(0) =~= b@);
    while i < x.len() && i < y.len()
        invariant
            x@ == a@,
            y@ == b@,
            i <= x@.len(),
            i <= y@.len(),
            text_before(a@, b@) == text_before(a@.skip(i as int), b@.skip(i as int)),
        decreases x@.len() - i,
    {
        if x[i] != y[i] {
            return x[i] < y[i];
        }
        assert(a@.skip(i as int).skip(1) =~= a@.skip(i + 1));
        assert(b@.skip(i as int).skip(1) =~= b@.skip(i + 1));
        i = i + 1;
    }
    i < y.len()
}

/// Whether a row comes before another: open positions first, then the larger
/// bucket, then the coins in alphabetical order.
pub open spec fn row_before(a: TableRow, b: TableRow) -> bool {
    if a.has_open_position != b.has_open_position {
        a.has_open_position
    } else if bucket_of(a.spread) != bucket_of(b.spread) {
        bucket_of(a.spread) > bucket_of(b.spread)
    } else {
        text_before(a.coin@, b.coin@)
    }
}

fn is_row_before(a: &TableRow, b: &TableRow) -> (r: bool)
    ensures
        r == row_before(*a, *b),
{
    if a.has_open_position != b.has_open_position {
        return a.has_open_position;
    }
    let x: i128 = compute_bucket(a.spread);
    let y: i128 = compute_bucket(b.spread);
    if x != y {
        return x > y;
    }
    is_text_before(a.coin.as_str(), b.coin.as_str())
}

proof fn lemma_row_order(a: TableRow, b: TableRow, c: TableRow)
    ensures
        row_before(a, b) ==> !row_before(b, a),
        row_before(a, b) && row_before(b, c) ==> row_before(a, c),
{
    lemma_text_order(a.coin@, b.coin@, c.coin@);
}

/// Whether no row stands behind one that it comes before.
pub open spec fn in_order(order: Seq<usize>, rows: Seq<TableRow>) -> bool {
    forall|i: int, j: int|
        #![trigger order[i], order[j]]
        0 <= i < j < order.len() ==> !row_before(rows[order[j] as int], rows[order[i] as int])
}

/// Whether an order shows every row once, none behind one that it comes before.
pub open spec fn is_table_order(order: Seq<usize>, rows: Seq<TableRow>) -> bool {
    &&& order.len() == rows.len()
    &&& forall|i: int| 0 <= i < order.len() ==> (#[trigger] order[i]) < rows.len()
    &&& order.no_duplicates()
    &&& in_order(order, rows)
}

/// The order in which rows are shown.
pub fn order_rows(rows: &Vec<TableRow>) -> (order: Vec<usize>)
    ensures
        is_table_order(order@, rows@),
{
    let mut order: Vec<usize> = Vec::new();
    let mut k: usize = 0;
    while k < rows.len()
        invariant
            k <= rows@.len(),
            order@.len() == k,
            forall|i: int| 0 <= i < order@.len() ==> (#[trigger] order@[i]) < k,
            order@.no_duplicates(),
            in_order(order@, rows@),
        decreases rows@.len() - k,
    {
        let mut at: usize = 0;
        while at < order.len() && !is_row_before(&rows[k], &rows[order[at]])
            invariant
                k < rows@.len(),
                at <= order@.len() == k,
                forall|i: int| 0 <= i < order@.len() ==> (#[trigger] order@[i]) < k,
                forall|i: int|
                    0 <= i < at ==> !row_before(
                        rows@[k as int],
                        rows@[(#[trigger] order@[i]) as int],
                    ),
            decreases order@.len() - at,
        {
            at = at + 1;
        }
        let ghost before = order@;
        order.insert(at, k);
        proof {
            lemma_row_inserted(before, rows@, at as int, k);
        }
        k = k + 1;
    }
    order
}

proof fn lemma_row_inserted(order: Seq<usize>, rows: Seq<TableRow>, at: int, k: usize)
    requires
        k < rows.len(),
        0 <= at <= order.len(),
        in_order(order, rows),
        order.no_duplicates(),
        forall|i: int| 0 <= i < order.len() ==> (#[trigger] order[i]) < k,
        forall|i: int|
            0 <= i < at ==> !row_before(rows[k as int], rows[(#[trigger] order[i]) as int]),
        at < order.len() ==> row_before(rows[k as int], rows[order[at] as int]),
    ensures
        in_order(order.insert(at, k), rows),
        order.insert(at, k).no_duplicates(),
        forall|i: int|
            0 <= i < order.len() + 1 ==> (#[trigger] order.insert(at, k)[i]) < k + 1,
{
    let all = order.insert(at, k);
    assert forall|i: int| 0 <= i < all.len() implies all[i] == if i < at {
        order[i]
    } else if i == at {
        k
    } else {
        order[i - 1]
    } by {}
    assert forall|i: int, j: int|
        #![trigger all[i], all[j]]
        0 <= i < j < all.len() implies !row_before(rows[all[j] as int], rows[all[i] as int]) by {
        if i == at {
            let b = j - 1;
            assert(all[j] == order[b]);
            let x = rows[order[b] as int];
            let new = rows[k as int];
            let first = rows[order[at] as int];
            if b > at {
                assert(order[at] < k);
                assert(!row_before(x, first));
            }
            lemma_row_order(new, first, x);
            lemma_row_order(x, new, first);
        } else if j == at {
            assert(all[i] == order[i]);
        } else {
            let a = if i < at {
                i
            } else {
                i - 1
            };
            let b = if j < at {
                j
            } else {
                j - 1
            };
            assert(all[i] == order[a] && all[j] == order[b]);
        }
    }
    assert forall|i: int, j: int|
        0 <= i < all.len() && 0 <= j < all.len() && i != j implies all[i] != all[j] by {
        if i != at && j != at {
            let a = if i < at {
                i
            } else {
                i - 1
            };
            let b = if j < at {
                j
            } else {
                j - 1
            };
            assert(order[a] != order[b]);
        }
    }
    assert forall|i: int| 0 <= i < order.len() + 1 implies (#[trigger] all[i]) < k + 1 by {
        if i < at {
            assert(order[i] < k);
        } else if i > at {
            assert(order[i - 1] < k);
        }
    }
}

/// The rows that fit on a screen of `height` lines beside the given number of
/// lines of the position panel: four lines above them and two below are taken.
pub fn rows_that_fit(height: usize, panel_lines: usize) -> (n: usize)
    requires
        panel_lines <= usize::MAX - 6,
    ensures
        n == crate::stats::less(height as int, panel_lines + 6),
{
    height.saturating_sub(panel_lines + 6)
}

/// The lines of the position panel: one for each position, a title and a rule.
pub fn panel_lines(positions: usize) -> (n: usize)
    requires
        positions <= usize::MAX - 2,
    ensures
        n == if positions == 0 {
            0
        } else {
            positions + 2
        },
{
    if positions == 0 {
        0
    } else {
        positions + 2
    }
}

/// The first shown row, no further down than leaves the screen full.
pub open spec fn scroll_within(scroll: usize, total: usize, available: usize) -> int {
    crate::fixed::min_of(scroll as int, crate::stats::less(total as int, available as int))
}

/// Keeps the first shown row within the table: no further down than leaves the
/// screen full.
pub fn clamp_scroll(ui: &mut UiState, total: usize, available: usize)
    ensures
        final(ui).query@ == old(ui).query@,
        final(ui).searching == old(ui).searching,
        final(ui).scroll == scroll_within(old(ui).scroll, total, available),
{
    if total > available {
        let most: usize = total - available;
        if ui.scroll > most {
            ui.scroll = most;
        }
    } else {
        ui.scroll = 0;
    }
}

/// Where the shown rows end.
pub fn shown_end(scroll: usize, available: usize, total: usize) -> (end: usize)
    ensures
        end == crate::fixed::min_of(scroll + available, total as int),
{
    if available >= total || scroll >= total - available {
        total
    } else {
        scroll + available
    }
}

/// Width of the coin column.
pub const COL_COIN: usize = 20;

/// Width of a price column.
pub const COL_PRICE: usize = 18;

/// Width of the spread column.
pub const COL_SPREAD: usize = 12;

/// The text of a price: the smaller it is, the more places it gets.
pub open spec fn price_text(v: u64) -> Seq<char> {
    if v >= 100_000_000_000 {
        fixed_text(v as int, 2)
    } else if v >= 100_000_000 {
        fixed_text(v as int, 4)
    } else if v >= 1_000_000 {
        fixed_text(v as int, 6)
    } else if v >= 10_000 {
        fixed_text(v as int, 8)
    } else {
        fixed_text(v as int, 8) + "00"@
    }
}

/// The text of a price.
pub fn format_price(v: u64) -> (s: String)
    ensures
        s@ == price_text(v),
{
    if v >= 100_000_000_000 {
        fixed_to_string(v as i128, 2)
    } else if v >= 100_000_000 {
        fixed_to_string(v as i128, 4)
    } else if v >= 1_000_000 {
        fixed_to_string(v as i128, 6)
    } else if v >= 10_000 {
        fixed_to_string(v as i128, 8)
    } else {
        let mut s = fixed_to_string(v as i128, 8);
        s.append("00");
        s
    }
}

/// A cell of the table.
pub open spec fn cell_text(color: Seq<char>, text: Seq<char>, width: int) -> Seq<char> {
    "\x1b[90m│\x1b["@ + color + "m"@ + left_aligned(text, width) + "\x1b[0m"@
}

fn push_cell(buf: &mut String, color: &str, text: &str, width: usize)
    ensures
        final(buf)@ == old(buf)@ + cell_text(color@, text@, width as int),
{
    buf.append("\x1b[90m│\x1b[");
    buf.append(color);
    buf.append("m");
    push_left_aligned(buf, text, width);
    buf.append("\x1b[0m");
    assert(buf@ =~= old(buf)@ + cell_text(color@, text@, width as int));
}

/// The cell of a price: green for the lower one, red for the higher one.
pub open spec fn price_cell(p: Option<u64>, is_min: bool, is_max: bool) -> Seq<char> {
    match p {
        None => cell_text("90"@, "—"@, COL_PRICE as int),
        Some(v) => cell_text(
            if is_min {
                "32"@
            } else if is_max {
                "31"@
            } else {
                "37"@
            },
            price_text(v),
            COL_PRICE as int,
        ),
    }
}

/// Appends the cell of a price.
pub fn write_price_cell(buf: &mut String, p: Option<u64>, is_min: bool, is_max: bool)
    ensures
        final(buf)@ == old(buf)@ + price_cell(p, is_min, is_max),
{
    match p {
        None => push_cell(buf, "90", "—", COL_PRICE),
        Some(v) => {
            let color = if is_min {
                "32"
            } else if is_max {
                "31"
            } else {
                "37"
            };
            let text = format_price(v);
            push_cell(buf, color, text.as_str(), COL_PRICE);
        },
    }
}

/// The cell of a spread: the brighter the larger.
pub open spec fn spread_cell(spread: Option<i64>) -> Seq<char> {
    match spread {
        None => cell_text("90"@, "N/A"@, COL_SPREAD as int),
        Some(s) => cell_text(
            if s >= ENTRY_SPREAD_THRESHOLD {
                "33;1"@
            } else if s >= 30_000_000 {
                "33"@
            } else if s >= 10_000_000 {
                "93"@
            } else {
                "37"@
            },
            fixed_text(s as int, 4) + "%"@,
            COL_SPREAD as int,
        ),
    }
}

/// Appends the cell of a spread.
pub fn write_spread_cell(buf: &mut String, spread: Option<i64>)
    ensures
        final(buf)@ == old(buf)@ + spread_cell(spread),
{
    match spread {
        None => push_cell(buf, "90", "N/A", COL_SPREAD),
        Some(s) => {
            let color = if s >= ENTRY_SPREAD_THRESHOLD {
                "33;1"
            } else if s >= 30_000_000 {
                "33"
            } else if s >= 10_000_000 {
                "93"
            } else {
                "37"
            };
            let mut text = fixed_to_string(s as i128, 4);
            text.append("%");
            push_cell(buf, color, text.as_str(), COL_SPREAD);
        },
    }
}

/// Which of two prices is the lower and which the higher one.
pub open spec fn lower_and_higher(binance: Option<u64>, bybit: Option<u64>) -> (
    Option<usize>,
    Option<usize>,
) {
    match (binance, bybit) {
        (Some(a), Some(b)) => if a < b {
            (Some(0usize), Some(1usize))
        } else if b < a {
            (Some(1usize), Some(0usize))
        } else {
            (None, None)
        },
        _ => (None, None),
    }
}

/// Which of two prices is the lower and which the higher one: Binance is the
/// first, Bybit the second. Neither where one is missing or they are equal.
pub fn min_max_indices(binance: Option<u64>, bybit: Option<u64>) -> (r: (
    Option<usize>,
    Option<usize>,
))
    ensures
        r == lower_and_higher(binance, bybit),
{
    match (binance, bybit) {
        (Some(a), Some(b)) => if a < b {
            (Some(0), Some(1))
        } else if b < a {
            (Some(1), Some(0))
        } else {
            (None, None)
        },
        _ => (None, None),
    }
}

/// The text of the state of a feed.
pub open spec fn indicator_text(connected: bool, enabled: bool, updates: u64) -> Seq<char> {
    if !enabled {
        "⚪OFF"@
    } else if connected {
        "🟢"@ + nat_text(updates as nat)
    } else {
        "🔴"@
    }
}

/// The text of the state of a feed.
pub fn status_indicator(connected: bool, enabled: bool, updates: u64) -> (s: String)
    ensures
        s@ == indicator_text(connected, enabled, updates),
{
    if !enabled {
        "⚪OFF".to_owned()
    } else if connected {
        let mut s = "🟢".to_owned();
        push_nat(&mut s, updates as u128);
        s
    } else {
        "🔴".to_owned()
    }
}

/// Whether the session has had its trades.
pub open spec fn limit_reached(s: ExchangeStatus) -> bool {
    s.trade_limit > 0 && s.session_trades_taken >= s.trade_limit
}

fn is_limit_reached(s: &ExchangeStatus) -> (r: bool)
    ensures
        r == limit_reached(*s),
{
    s.trade_limit > 0 && s.session_trades_taken >= s.trade_limit
}

/// The background of the status line.
pub open spec fn status_background(s: ExchangeStatus) -> Seq<char> {
    if !s.trading_enabled {
        "\x1b[30;46;1m"@
    } else if limit_reached(s) {
        "\x1b[30;43;1m"@
    } else {
        "\x1b[30;41;1m"@
    }
}

/// What the status line says of trading.
pub open spec fn trade_indicator(s: ExchangeStatus) -> Seq<char> {
    if !s.trading_enabled {
        "\x1b[37m⚪ LIVE:OFF (Press T)\x1b[30;46;1m"@
    } else if limit_reached(s) {
        "\x1b[33;1m⏹ LIMIT REACHED\x1b[30;43;1m"@
    } else {
        "\x1b[32;1m🔴 LIVE:ON\x1b[30;41;1m"@
    }
}

/// The query in the status line.
pub open spec fn query_text(query: Seq<char>) -> Seq<char> {
    if query.len() > 0 {
        "│ 🔍 "@ + query
    } else {
        ""@
    }
}

/// The status line. `time` is the local time.
pub open spec fn status_line(
    s: ExchangeStatus,
    total_rows: usize,
    time: Seq<char>,
    query: Seq<char>,
) -> Seq<char> {
    status_background(s) + " ⚡ LIVE ARB │ "@ + nat_text(total_rows as nat) + " pairs │ "@ + time
        + " │ Bin⚡:"@ + indicator_text(s.binance_connected, s.binance_enabled, s.binance_updates)
        + " Byb⚡:"@ + indicator_text(s.bybit_connected, s.bybit_enabled, s.bybit_updates) + " │ "@
        + trade_indicator(s) + " "@ + query_text(query) + "\x1b[K\x1b[0m"@
}

/// The status line. `time` is the local time.
pub fn write_status_line(s: &ExchangeStatus, total_rows: usize, time: &str, query: &str) -> (line:
    String)
    ensures
        line@ == status_line(*s, total_rows, time@, query@),
{
    let reached: bool = is_limit_reached(s);
    let mut line = (if !s.trading_enabled {
        "\x1b[30;46;1m"
    } else if reached {
        "\x1b[30;43;1m"
    } else {
        "\x1b[30;41;1m"
    }).to_owned();
    line.append(" ⚡ LIVE ARB │ ");
    push_nat(&mut line, total_rows as u128);
    line.append(" pairs │ ");
    line.append(time);
    line.append(" │ Bin⚡:");
    let binance = status_indicator(s.binance_connected, s.binance_enabled, s.binance_updates);
    line.append(binance.as_str());
    line.append(" Byb⚡:");
    let bybit = status_indicator(s.bybit_connected, s.bybit_enabled, s.bybit_updates);
    line.append(bybit.as_str());
    line.append(" │ ");
    line.append(
        if !s.trading_enabled {
            "\x1b[37m⚪ LIVE:OFF (Press T)\x1b[30;46;1m"
        } else if reached {
            "\x1b[33;1m⏹ LIMIT REACHED\x1b[30;43;1m"
        } else {
            "\x1b[32;1m🔴 LIVE:ON\x1b[30;41;1m"
        },
    );
    line.append(" ");
    let mut shown = String::new();
    if !query.is_empty() {
        shown.append("│ 🔍 ");
        shown.append(query);
    }
    proof {
        reveal_strlit("");
    }
    assert(shown@ =~= query_text(query@));
    line.append(shown.as_str());
    line.append("\x1b[K\x1b[0m");
    line
}

/// The colour of an amount: green above zero, red below.
pub open spec fn sign_color(v: int) -> Seq<char> {
    if v > 0 {
        "32"@
    } else if v < 0 {
        "31"@
    } else {
        "37"@
    }
}

fn color_by_sign(v: i128) -> (c: &'static str)
    ensures
        c@ == sign_color(v as int),
{
    if v > 0 {
        "32"
    } else if v < 0 {
        "31"
    } else {
        "37"
    }
}

/// What the trading bar says of the limit.
pub open spec fn limit_badge(s: ExchangeStatus) -> Seq<char> {
    if s.trade_limit == 0 {
        "Limit:∞ (taken:"@ + nat_text(s.session_trades_taken as nat) + ")"@
    } else if limit_reached(s) {
        "\x1b[33;1mLimit:"@ + nat_text(s.session_trades_taken as nat) + "/"@ + nat_text(
            s.trade_limit as nat,
        ) + " [DONE]\x1b[0m\x1b[100m"@
    } else {
        "Limit:"@ + nat_text(s.session_trades_taken as nat) + "/"@ + nat_text(s.trade_limit as nat)
    }
}

fn write_limit_badge(s: &ExchangeStatus) -> (t: String)
    ensures
        t@ == limit_badge(*s),
{
    if s.trade_limit == 0 {
        let mut t = "Limit:∞ (taken:".to_owned();
        push_nat(&mut t, s.session_trades_taken as u128);
        t.append(")");
        return t;
    }
    let reached: bool = is_limit_reached(s);
    let mut t = (if reached {
        "\x1b[33;1mLimit:"
    } else {
        "Limit:"
    }).to_owned();
    push_nat(&mut t, s.session_trades_taken as u128);
    t.append("/");
    push_nat(&mut t, s.trade_limit as u128);
    if reached {
        t.append(" [DONE]\x1b[0m\x1b[100m");
    }
    t
}

/// What the trading bar says of the last trade.
pub open spec fn last_trade_text(t: Option<TradeRecord>) -> Seq<char> {
    match t {
        None => ""@,
        Some(r) => "│ "@ + (if r.trade_type == TradeType::Open {
            "📈"@
        } else {
            "📉"@
        }) + " "@ + r.coin@ + " "@ + r.exchange_buy.name_spec() + "->"@
            + r.exchange_sell.name_spec() + " \x1b["@ + sign_color(r.pnl_net as int) + "m$"@
            + fixed_text(r.pnl_net as int, 4) + "\x1b[0m\x1b[100m"@,
    }
}

fn push_last_trade(line: &mut String, t: &TradeRecord)
    ensures
        final(line)@ == old(line)@ + last_trade_text(Some(*t)),
{
    let mut s = "│ ".to_owned();
    s.append(
        match t.trade_type {
            TradeType::Open => "📈",
            TradeType::Close => "📉",
        },
    );
    s.append(" ");
    s.append(t.coin.as_str());
    s.append(" ");
    s.append(t.exchange_buy.name());
    s.append("->");
    s.append(t.exchange_sell.name());
    s.append(" \x1b[");
    s.append(color_by_sign(t.pnl_net));
    s.append("m$");
    push_fixed(&mut s, t.pnl_net, 4);
    s.append("\x1b[0m\x1b[100m");
    line.append(s.as_str());
}

/// A balance that is shown: the one that the feed last reported, where it is
/// positive, else that of the engine.
pub open spec fn shown_balance(live: i64, known: i64) -> i64 {
    if live > 0 {
        live
    } else {
        known
    }
}

/// The last of the recent trades.
pub open spec fn last_of(trades: Seq<TradeRecord>) -> Option<TradeRecord> {
    if trades.len() > 0 {
        Some(trades.last())
    } else {
        None
    }
}

/// The trading bar.
pub open spec fn trading_bar(
    e: LiveTradingEngine,
    s: ExchangeStatus,
    binance_live: i64,
    bybit_live: i64,
    unrealized: int,
) -> Seq<char> {
    "\x1b[37;100m 💰 Bin:\x1b[33;1m$"@ + fixed_text(
        shown_balance(binance_live, e.binance_balance) as int,
        2,
    ) + "\x1b[0m\x1b[100m  Byb:\x1b[33;1m$"@ + fixed_text(
        shown_balance(bybit_live, e.bybit_balance) as int,
        2,
    ) + "\x1b[0m\x1b[100m │ \x1b[33mOpen:"@ + nat_text(e.open_positions@.len())
        + "\x1b[0m\x1b[100m Closed:"@ + nat_text(e.closed_count as nat) + " W:"@ + nat_text(
        e.winning_trades as nat,
    ) + " L:"@ + nat_text(e.losing_trades as nat) + " \x1b[36;1m["@ + limit_badge(s)
        + "]\x1b[0m\x1b[100m │ PnL:\x1b["@ + sign_color(e.total_pnl as int) + "m$"@ + fixed_text(
        e.total_pnl as int,
        2,
    ) + "\x1b[0m\x1b[100m │ Unrl:\x1b["@ + sign_color(unrealized) + "m$"@ + fixed_text(
        unrealized,
        2,
    ) + "\x1b[0m\x1b[100m │ Fees:$"@ + fixed_text(e.total_fees_paid as int, 2) + (
    if e.emergency_halt {
        " \x1b[31;1m[🚨HALT-R to reset]\x1b[0m\x1b[100m"@
    } else {
        ""@
    }) + " "@ + last_trade_text(last_of(e.recent_trades@)) + "\x1b[K\x1b[0m"@
}

fn balance_shown(live: i64, known: i64) -> (b: i64)
    ensures
        b == shown_balance(live, known),
{
    if live > 0 {
        live
    } else {
        known
    }
}

/// The trading bar: balances, counters, profit and the last trade.
pub fn write_trading_bar(
    e: &LiveTradingEngine,
    s: &ExchangeStatus,
    binance_live: i64,
    bybit_live: i64,
    unrealized: i128,
) -> (line: String)
    ensures
        line@ == trading_bar(*e, *s, binance_live, bybit_live, unrealized as int),
{
    let mut line = "\x1b[37;100m 💰 Bin:\x1b[33;1m$".to_owned();
    push_fixed(&mut line, balance_shown(binance_live, e.binance_balance) as i128, 2);
    line.append("\x1b[0m\x1b[100m  Byb:\x1b[33;1m$");
    push_fixed(&mut line, balance_shown(bybit_live, e.bybit_balance) as i128, 2);
    line.append("\x1b[0m\x1b[100m │ \x1b[33mOpen:");
    push_nat(&mut line, e.open_position_count() as u128);
    line.append("\x1b[0m\x1b[100m Closed:");
    push_nat(&mut line, e.closed_count as u128);
    line.append(" W:");
    push_nat(&mut line, e.winning_trades as u128);
    line.append(" L:");
    push_nat(&mut line, e.losing_trades as u128);
    line.append(" \x1b[36;1m[");
    let badge = write_limit_badge(s);
    line.append(badge.as_str());
    line.append("]\x1b[0m\x1b[100m │ PnL:\x1b[");
    line.append(color_by_sign(e.total_pnl));
    line.append("m$");
    push_fixed(&mut line, e.total_pnl, 2);
    line.append("\x1b[0m\x1b[100m │ Unrl:\x1b[");
    line.append(color_by_sign(unrealized));
    line.append("m$");
    push_fixed(&mut line, unrealized, 2);
    line.append("\x1b[0m\x1b[100m │ Fees:$");
    push_fixed(&mut line, e.total_fees_paid, 2);
    line.append(
        if e.emergency_halt {
            " \x1b[31;1m[🚨HALT-R to reset]\x1b[0m\x1b[100m"
        } else {
            ""
        },
    );
    line.append(" ");
    let n: usize = e.recent_trades.len();
    if n > 0 {
        push_last_trade(&mut line, &e.recent_trades[n - 1]);
    } else {
        line.append("");
    }
    line.append("\x1b[K\x1b[0m");
    line
}

/// The text of a holding time.
pub open spec fn hold_text(secs: int) -> Seq<char> {
    if secs >= 3600 {
        int_text(secs / 3600) + "h"@ + int_text((secs % 3600) / 60) + "m"@
    } else if secs >= 60 {
        int_text(secs / 60) + "m"@ + int_text(secs % 60) + "s"@
    } else {
        int_text(secs) + "s"@
    }
}

/// The text of a holding time.
pub fn format_hold(secs: i64) -> (s: String)
    ensures
        s@ == hold_text(secs as int),
{
    let mut s = String::new();
    if secs >= 3600 {
        let u: u64 = secs as u64;
        push_int(&mut s, (u / 3600) as i64);
        s.append("h");
        push_int(&mut s, ((u % 3600) / 60) as i64);
        s.append("m");
    } else if secs >= 60 {
        let u: u64 = secs as u64;
        push_int(&mut s, (u / 60) as i64);
        s.append("m");
        push_int(&mut s, (u % 60) as i64);
        s.append("s");
    } else {
        push_int(&mut s, secs);
        s.append("s");
    }
    assert(s@ =~= hold_text(secs as int));
    s
}

/// The titles of the position panel.
pub open spec fn panel_titles() -> Seq<char> {
    "\x1b[30;43;1m "@ + left_aligned("COIN"@, 8) + " "@ + left_aligned("BUY@"@, 7) + " "@
        + left_aligned("ENTRY BUY"@, 14) + " "@ + left_aligned("SELL@"@, 7) + " "@ + left_aligned(
        "ENTRY SELL"@,
        14,
    ) + " "@ + left_aligned("BUY QTY"@, 10) + " "@ + left_aligned("SELL QTY"@, 10) + " "@
        + left_aligned("SPREAD%"@, 8) + " "@ + left_aligned("HOLD"@, 12) + " "@ + left_aligned(
        "UNREAL PnL"@,
        14,
    ) + "\x1b[K\x1b[0m"@
}

/// The titles of the position panel.
pub fn write_panel_titles() -> (line: String)
    ensures
        line@ == panel_titles(),
{
    let mut line = "\x1b[30;43;1m ".to_owned();
    push_left_aligned(&mut line, "COIN", 8);
    line.append(" ");
    push_left_aligned(&mut line, "BUY@", 7);
    line.append(" ");
    push_left_aligned(&mut line, "ENTRY BUY", 14);
    line.append(" ");
    push_left_aligned(&mut line, "SELL@", 7);
    line.append(" ");
    push_left_aligned(&mut line, "ENTRY SELL", 14);
    line.append(" ");
    push_left_aligned(&mut line, "BUY QTY", 10);
    line.append(" ");
    push_left_aligned(&mut line, "SELL QTY", 10);
    line.append(" ");
    push_left_aligned(&mut line, "SPREAD%", 8);
    line.append(" ");
    push_left_aligned(&mut line, "HOLD", 12);
    line.append(" ");
    push_left_aligned(&mut line, "UNREAL PnL", 14);
    line.append("\x1b[K\x1b[0m");
    line
}

/// The line of an open position.
pub open spec fn position_line(p: OpenPosition, hold_secs: int, unrealized: int) -> Seq<char> {
    "\x1b[33m "@ + left_aligned(p.coin@, 8) + "\x1b[0m\x1b[32m "@ + left_aligned(
        p.buy_exchange.name_spec(),
        7,
    ) + "\x1b[0m\x1b[37m "@ + left_aligned(price_text(p.entry_buy_price), 14)
        + "\x1b[0m\x1b[31m "@ + left_aligned(p.sell_exchange.name_spec(), 7)
        + "\x1b[0m\x1b[37m "@ + left_aligned(price_text(p.entry_sell_price), 14)
        + "\x1b[0m\x1b[36m "@ + left_aligned(fixed_text(p.buy_filled_qty as int, 2), 10)
        + "\x1b[0m\x1b[36m "@ + left_aligned(fixed_text(p.sell_filled_qty as int, 2), 10)
        + "\x1b[0m\x1b[33m "@ + fixed_text(p.entry_spread as int, 4) + "%\x1b[0m  \x1b[37m "@
        + left_aligned(hold_text(hold_secs), 8) + "\x1b[0m  \x1b["@ + (if unrealized > 0 {
        "32;1"@
    } else if unrealized < 0 {
        "31;1"@
    } else {
        "37"@
    }) + "m $"@ + fixed_text(unrealized, 4) + "\x1b[K\x1b[0m"@
}

/// The line of an open position.
pub fn write_position_line(p: &OpenPosition, hold_secs: i64, unrealized: i128) -> (line: String)
    ensures
        line@ == position_line(*p, hold_secs as int, unrealized as int),
{
    let mut line = "\x1b[33m ".to_owned();
    push_left_aligned(&mut line, p.coin.as_str(), 8);
    line.append("\x1b[0m\x1b[32m ");
    push_left_aligned(&mut line, p.buy_exchange.name(), 7);
    line.append("\x1b[0m\x1b[37m ");
    let entry_buy = format_price(p.entry_buy_price);
    push_left_aligned(&mut line, entry_buy.as_str(), 14);
    line.append("\x1b[0m\x1b[31m ");
    push_left_aligned(&mut line, p.sell_exchange.name(), 7);
    line.append("\x1b[0m\x1b[37m ");
    let entry_sell = format_price(p.entry_sell_price);
    push_left_aligned(&mut line, entry_sell.as_str(), 14);
    line.append("\x1b[0m\x1b[36m ");
    let buy_qty = fixed_to_string(p.buy_filled_qty as i128, 2);
    push_left_aligned(&mut line, buy_qty.as_str(), 10);
    line.append("\x1b[0m\x1b[36m ");
    let sell_qty = fixed_to_string(p.sell_filled_qty as i128, 2);
    push_left_aligned(&mut line, sell_qty.as_str(), 10);
    line.append("\x1b[0m\x1b[33m ");
    push_fixed(&mut line, p.entry_spread, 4);
    line.append("%\x1b[0m  \x1b[37m ");
    let hold = format_hold(hold_secs);
    push_left_aligned(&mut line, hold.as_str(), 8);
    line.append("\x1b[0m  \x1b[");
    line.append(
        if unrealized > 0 {
            "32;1"
        } else if unrealized < 0 {
            "31;1"
        } else {
            "37"
        },
    );
    line.append("m $");
    push_fixed(&mut line, unrealized, 4);
    line.append("\x1b[K\x1b[0m");
    line
}

/// The rule below the position panel.
pub open spec fn panel_rule() -> Seq<char> {
    "\x1b[90m"@ + repeated('─', 68) + "\x1b[K\x1b[0m"@
}

/// The rule below the position panel.
pub fn write_panel_rule() -> (line: String)
    ensures
        line@ == panel_rule(),
{
    let mut line = "\x1b[90m".to_owned();
    push_repeated(&mut line, '─', COL_COIN + COL_PRICE * 2 + COL_SPREAD);
    line.append("\x1b[K\x1b[0m");
    line
}

/// The titles of the table.
pub open spec fn table_titles() -> Seq<char> {
    "\x1b[37;100;1m"@ + left_aligned(" COIN"@, COL_COIN as int) + "│"@ + left_aligned(
        "BINANCE ⚡"@,
        COL_PRICE as int,
    ) + "│"@ + left_aligned("BYBIT ⚡"@, COL_PRICE as int) + "│"@ + left_aligned(
        "SPREAD %"@,
        COL_SPREAD as int,
    ) + "\x1b[K\x1b[0m"@
}

/// The titles of the table.
pub fn write_table_titles() -> (line: String)
    ensures
        line@ == table_titles(),
{
    let mut line = "\x1b[37;100;1m".to_owned();
    push_left_aligned(&mut line, " COIN", COL_COIN);
    line.append("│");
    push_left_aligned(&mut line, "BINANCE ⚡", COL_PRICE);
    line.append("│");
    push_left_aligned(&mut line, "BYBIT ⚡", COL_PRICE);
    line.append("│");
    push_left_aligned(&mut line, "SPREAD %", COL_SPREAD);
    line.append("\x1b[K\x1b[0m");
    line
}

/// The rule below the titles of the table.
pub open spec fn table_rule() -> Seq<char> {
    "\x1b[90m"@ + repeated('─', COL_COIN as int) + "┼"@ + repeated('─', COL_PRICE as int) + "┼"@
        + repeated('─', COL_PRICE as int) + "┼"@ + repeated('─', COL_SPREAD as int)
        + "\x1b[K\x1b[0m"@
}

/// The rule below the titles of the table.
pub fn write_table_rule() -> (line: String)
    ensures
        line@ == table_rule(),
{
    let mut line = "\x1b[90m".to_owned();
    push_repeated(&mut line, '─', COL_COIN);
    line.append("┼");
    push_repeated(&mut line, '─', COL_PRICE);
    line.append("┼");
    push_repeated(&mut line, '─', COL_PRICE);
    line.append("┼");
    push_repeated(&mut line, '─', COL_SPREAD);
    line.append("\x1b[K\x1b[0m");
    line
}

/// The coin of a row with its marker and its funding interval.
pub open spec fn coin_cell(row: TableRow) -> Seq<char> {
    (if row.has_open_position {
        "●"@
    } else if row.near_funding {
        "⏸"@
    } else {
        " "@
    }) + row.coin@ + "("@ + nat_text(row.funding_hours as nat) + "h)"@
}

/// The colour of the coin of a row: rows alternate.
pub open spec fn coin_color(row: TableRow, place: int) -> Seq<char> {
    if row.has_open_position {
        "33;1"@
    } else if row.near_funding {
        "31"@
    } else if place % 2 == 0 {
        "36;1"@
    } else {
        "36"@
    }
}

/// Whether the first of two prices is known, and so is the second, and it is
/// lower.
pub open spec fn is_lower(a: Option<u64>, b: Option<u64>) -> bool {
    a is Some && b is Some && a->Some_0 < b->Some_0
}

/// The line of a row.
pub open spec fn row_line(row: TableRow, place: int) -> Seq<char> {
    "\x1b["@ + coin_color(row, place) + "m"@ + left_aligned(coin_cell(row), COL_COIN as int)
        + "\x1b[0m"@ + price_cell(
        row.binance,
        is_lower(row.binance, row.bybit),
        is_lower(row.bybit, row.binance),
    ) + price_cell(
        row.bybit,
        is_lower(row.bybit, row.binance),
        is_lower(row.binance, row.bybit),
    ) + spread_cell(row.spread) + "\x1b[K"@
}

/// The line of a row.
pub fn write_row_line(row: &TableRow, place: usize) -> (line: String)
    ensures
        line@ == row_line(*row, place as int),
{
    let (color, marker) = if row.has_open_position {
        ("33;1", "●")
    } else if row.near_funding {
        ("31", "⏸")
    } else if place % 2 == 0 {
        ("36;1", " ")
    } else {
        ("36", " ")
    };
    let mut coin = marker.to_owned();
    coin.append(row.coin.as_str());
    coin.append("(");
    push_nat(&mut coin, row.funding_hours as u128);
    coin.append("h)");
    let (low, high) = min_max_indices(row.binance, row.bybit);
    let binance_low: bool = match low {
        Some(i) => i == 0,
        None => false,
    };
    let binance_high: bool = match high {
        Some(i) => i == 0,
        None => false,
    };
    let bybit_low: bool = match low {
        Some(i) => i == 1,
        None => false,
    };
    let bybit_high: bool = match high {
        Some(i) => i == 1,
        None => false,
    };
    let mut line = "\x1b[".to_owned();
    line.append(color);
    line.append("m");
    push_left_aligned(&mut line, coin.as_str(), COL_COIN);
    line.append("\x1b[0m");
    write_price_cell(&mut line, row.binance, binance_low, binance_high);
    write_price_cell(&mut line, row.bybit, bybit_low, bybit_high);
    write_spread_cell(&mut line, row.spread);
    line.append("\x1b[K");
    line
}

/// What the footer says of the limit.
pub open spec fn limit_footer(s: ExchangeStatus) -> Seq<char> {
    if s.trade_limit == 0 {
        "Limit: ∞"@
    } else if limit_reached(s) {
        "Limit: "@ + nat_text(s.session_trades_taken as nat) + "/"@ + nat_text(s.trade_limit as nat)
            + " (DONE)"@
    } else {
        "Limit: "@ + nat_text(s.session_trades_taken as nat) + "/"@ + nat_text(s.trade_limit as nat)
    }
}

/// The footer: the query while it is typed, else the keys and the shown rows.
pub open spec fn footer_line(
    ui: UiState,
    s: ExchangeStatus,
    end: usize,
    total: usize,
) -> Seq<char> {
    if ui.searching {
        "\x1b[30;43;1m 🔍 Search: "@ + ui.query@
            + "▌  (Enter=confirm, Esc=cancel)\x1b[K\x1b[0m"@
    } else {
        "\x1b[37;100m 1-2: Toggle │ T: LIVE "@ + (if s.trading_enabled {
            "ON"@
        } else {
            "OFF"@
        }) + " │ L: "@ + limit_footer(s)
            + " │ R: ClearHalt │ ↑↓ Scroll │ /: Search │ q: Quit │ "@ + nat_text(
            if total > 0 {
                (ui.scroll + 1) as nat
            } else {
                0
            },
        ) + "-"@ + nat_text(end as nat) + "/"@ + nat_text(total as nat) + "\x1b[K\x1b[0m"@
    }
}

/// The footer.
pub fn write_footer(ui: &UiState, s: &ExchangeStatus, end: usize, total: usize) -> (line: String)
    ensures
        line@ == footer_line(*ui, *s, end, total),
{
    if ui.searching {
        let mut line = "\x1b[30;43;1m 🔍 Search: ".to_owned();
        line.append(ui.query.as_str());
        line.append("▌  (Enter=confirm, Esc=cancel)\x1b[K\x1b[0m");
        return line;
    }
    let mut limit = "Limit: ".to_owned();
    if s.trade_limit == 0 {
        limit = "Limit: ∞".to_owned();
    } else {
        push_nat(&mut limit, s.session_trades_taken as u128);
        limit.append("/");
        push_nat(&mut limit, s.trade_limit as u128);
        if is_limit_reached(s) {
            limit.append(" (DONE)");
        }
    }
    let mut line = "\x1b[37;100m 1-2: Toggle │ T: LIVE ".to_owned();
    line.append(
        if s.trading_enabled {
            "ON"
        } else {
            "OFF"
        },
    );
    line.append(" │ L: ");
    line.append(limit.as_str());
    line.append(" │ R: ClearHalt │ ↑↓ Scroll │ /: Search │ q: Quit │ ");
    push_nat(
        &mut line,
        if total > 0 {
            ui.scroll as u128 + 1
        } else {
            0
        },
    );
    line.append("-");
    push_nat(&mut line, end as u128);
    line.append("/");
    push_nat(&mut line, total as u128);
    line.append("\x1b[K\x1b[0m");
    line
}

/// A text at the beginning of a line of the screen. Lines count from one.
pub open spec fn placed(line: int, text: Seq<char>) -> Seq<char> {
    "\x1b["@ + nat_text(line as nat) + ";1H"@ + text
}

/// Texts on the first `n` lines of the screen.
pub open spec fn placed_lines(lines: Seq<Seq<char>>, n: int) -> Seq<char>
    decreases n,
{
    if n <= 0 {
        "\x1b[H"@
    } else {
        placed_lines(lines, n - 1) + placed(n, lines[n - 1])
    }
}

/// A screen: lines from the top, and the footer on the last line.
pub open spec fn screen_text(lines: Seq<Seq<char>>, footer: Seq<char>, height: usize) -> Seq<char> {
    placed_lines(lines, lines.len() as int) + placed(
        crate::fixed::max_of(height as int, 1),
        footer,
    )
}

fn push_placed(out: &mut String, line: usize, text: &str)
    ensures
        final(out)@ == old(out)@ + placed(line as int, text@),
{
    out.append("\x1b[");
    push_nat(out, line as u128);
    out.append(";1H");
    out.append(text);
    assert(out@ =~= old(out)@ + placed(line as int, text@));
}

/// A screen: lines from the top, and the footer on the last line.
pub fn write_screen(lines: &Vec<String>, footer: &str, height: usize) -> (out: String)
    ensures
        out@ == screen_text(texts(lines@), footer@, height),
{
    let mut out = "\x1b[H".to_owned();
    let ghost all = texts(lines@);
    let mut i: usize = 0;
    while i < lines.len()
        invariant
            i <= lines@.len(),
            all == texts(lines@),
            out@ == placed_lines(all, i as int),
        decreases lines@.len() - i,
    {
        push_placed(&mut out, i + 1, lines[i].as_str());
        i = i + 1;
    }
    push_placed(
        &mut out,
        if height > 1 {
            height
        } else {
            1
        },
        footer,
    );
    out
}

/// The text of a bar while the engine is busy.
pub open spec fn loading_bar() -> Seq<char> {
    "\x1b[37;100m 💰 Loading balances...\x1b[K\x1b[0m"@
}

/// The text of a bar while the engine is busy.
pub fn write_loading_bar() -> (line: String)
    ensures
        line@ == loading_bar(),
{
    "\x1b[37;100m 💰 Loading balances...\x1b[K\x1b[0m".to_owned()
}

/// What a row says of a coin besides its name.
pub open spec fn row_tells(
    row: TableRow,
    p: CoinPrices,
    status: ExchangeStatus,
    open: bool,
    hours: u32,
    near: bool,
) -> bool {
    &&& row.binance == shown_price(p.binance, status.binance_enabled)
    &&& row.bybit == shown_price(p.bybit, status.bybit_enabled)
    &&& match row.spread {
        Some(s) => spread_between(row.binance, row.bybit) == Some(s as int),
        None => spread_between(row.binance, row.bybit) is None,
    }
    &&& row.has_open_position == open
    &&& row.funding_hours == hours
    &&& row.near_funding == near
}

/// Whether rows show every coin of a store that is to be shown once, and no
/// other.
pub open spec fn shows_store(
    rows: Seq<TableRow>,
    prices: Map<Seq<char>, CoinPrices>,
    query: Seq<char>,
    status: ExchangeStatus,
    engine: LiveTradingEngine,
    funding: FundingStore,
    now: TimeOfDay,
) -> bool {
    &&& forall|j: int|
        0 <= j < rows.len() ==> {
            let coin = (#[trigger] rows[j]).coin@;
            &&& prices.contains_key(coin)
            &&& is_shown(coin, prices[coin], query, status)
            &&& row_tells(
                rows[j],
                prices[coin],
                status,
                holds(engine.open_positions@, coin),
                funding.hours_spec(coin),
                near_funding(funding.hours_spec(coin) as int, now.minute_of_day()),
            )
        }
    &&& forall|coin: Seq<char>|
        #![trigger prices.contains_key(coin)]
        prices.contains_key(coin) && is_shown(coin, prices[coin], query, status) ==> exists|j: int|
            0 <= j < rows.len() && (#[trigger] rows[j]).coin@ == coin
    &&& forall|i: int, j: int|
        0 <= i < j < rows.len() ==> (#[trigger] rows[i]).coin@ != (#[trigger] rows[j]).coin@
}

/// The rows of a store at a time of day, in no particular order.
pub fn collect_rows_at(
    store: &PriceStore,
    query: &str,
    status: &ExchangeStatus,
    engine: &LiveTradingEngine,
    funding: &FundingStore,
    now: TimeOfDay,
) -> (rows: Vec<TableRow>)
    requires
        now.wf(),
    ensures
        shows_store(rows@, store@, query@, *status, *engine, *funding, now),
{
    let all = store.entries();
    let mut rows: Vec<TableRow> = Vec::new();
    let mut k: usize = 0;
    while k < all.len()
        invariant
            k <= all@.len(),
            now.wf(),
            lists_entries(all@, store@),
            forall|j: int|
                0 <= j < rows@.len() ==> {
                    let coin = (#[trigger] rows@[j]).coin@;
                    &&& store@.contains_key(coin)
                    &&& is_shown(coin, store@[coin], query@, *status)
                    &&& row_tells(
                        rows@[j],
                        store@[coin],
                        *status,
                        holds(engine.open_positions@, coin),
                        funding.hours_spec(coin),
                        near_funding(funding.hours_spec(coin) as int, now.minute_of_day()),
                    )
                    &&& exists|i: int| 0 <= i < k && (#[trigger] all@[i]).0@ == coin
                },
            forall|i: int|
                0 <= i < k && is_shown((#[trigger] all@[i]).0@, all@[i].1, query@, *status)
                    ==> exists|j: int| 0 <= j < rows@.len() && (#[trigger] rows@[j]).coin@
                    == all@[i].0@,
            forall|i: int, j: int|
                0 <= i < j < rows@.len() ==> (#[trigger] rows@[i]).coin@ != (
                #[trigger] rows@[j]).coin@,
        decreases all@.len() - k,
    {
        let coin = all[k].0.as_str();
        let hours: u32 = funding.hours(coin);
        let found = row_of(
            coin,
            &all[k].1,
            query,
            status,
            engine.position_index(coin).is_some(),
            hours,
            is_near_funding_at(hours, now),
        );
        let ghost before = rows@;
        if let Some(row) = found {
            rows.push(row);
            assert(rows@[before.len() as int].coin@ == all@[k as int].0@);
        }
        proof {
            assert forall|i: int|
                0 <= i < k + 1 && is_shown(
                    (#[trigger] all@[i]).0@,
                    all@[i].1,
                    query@,
                    *status,
                ) implies exists|j: int|
                0 <= j < rows@.len() && (#[trigger] rows@[j]).coin@ == all@[i].0@ by {
                if i < k {
                    let j = choose|j: int|
                        0 <= j < before.len() && (#[trigger] before[j]).coin@ == all@[i].0@;
                    assert(rows@[j] == before[j]);
                }
            }
        }
        k = k + 1;
    }
    rows
}

/// The rows of a store, in no particular order.
pub fn collect_rows(
    store: &PriceStore,
    query: &str,
    status: &ExchangeStatus,
    engine: &LiveTradingEngine,
    funding: &FundingStore,
) -> (rows: Vec<TableRow>)
    ensures
        exists|now: TimeOfDay|
            now.wf() && #[trigger] shows_store(
                rows@,
                store@,
                query@,
                *status,
                *engine,
                *funding,
                now,
            ),
{
    let now = utc_time_of_day();
    collect_rows_at(store, query, status, engine, funding, now)
}

/// The price on the exchange of a leg.
pub open spec fn leg_price(exchange: Exchange, binance: Option<u64>, bybit: Option<u64>) -> Option<
    u64,
> {
    match exchange {
        Exchange::Binance => binance,
        Exchange::Bybit => bybit,
    }
}

/// The line of an open position at the given prices; its entry prices stand in
/// for those that are not known.
pub open spec fn detail_line(
    p: OpenPosition,
    binance: Option<u64>,
    bybit: Option<u64>,
    now_ns: i64,
) -> Seq<char> {
    position_line(
        p,
        seconds_between(p.open_time_ns as int, now_ns as int),
        p.unrealized(
            price_or(leg_price(p.buy_exchange, binance, bybit), p.entry_buy_price),
            price_or(leg_price(p.sell_exchange, binance, bybit), p.entry_sell_price),
        ),
    )
}

fn current_price(exchange: Exchange, binance: Option<u64>, bybit: Option<u64>, entry: u64) -> (p:
    u64)
    ensures
        p == price_or(leg_price(exchange, binance, bybit), entry),
{
    let known: Option<u64> = match exchange {
        Exchange::Binance => binance,
        Exchange::Bybit => bybit,
    };
    match known {
        Some(p) => p,
        None => entry,
    }
}

/// The line of an open position at the given prices.
pub fn describe_position(
    p: &OpenPosition,
    binance: Option<u64>,
    bybit: Option<u64>,
    now_ns: i64,
) -> (line: String)
    requires
        p.wf(),
        binance is Some ==> binance->Some_0 <= MAX_AMOUNT,
        bybit is Some ==> bybit->Some_0 <= MAX_AMOUNT,
    ensures
        line@ == detail_line(*p, binance, bybit, now_ns),
{
    let buy: u64 = current_price(p.buy_exchange, binance, bybit, p.entry_buy_price);
    let sell: u64 = current_price(p.sell_exchange, binance, bybit, p.entry_sell_price);
    write_position_line(p, whole_seconds(p.open_time_ns, now_ns), p.unrealized_pnl(buy, sell))
}

/// Whether a line describes a position at the prices of a store, as far as they
/// are fresh.
pub open spec fn describes(
    line: Seq<char>,
    p: OpenPosition,
    store: PriceStore,
    now_ns: i64,
) -> bool {
    match store@.get(p.coin@) {
        Some(prices) => exists|binance_age: Option<u128>, bybit_age: Option<u128>|
            line == detail_line(
                p,
                #[trigger] price_if_fresh(prices.binance, binance_age),
                #[trigger] price_if_fresh(prices.bybit, bybit_age),
                now_ns,
            ) && (binance_age is Some <==> prices.binance_updated is Some) && (bybit_age is Some
                <==> prices.bybit_updated is Some),
        None => line == detail_line(p, None, None, now_ns),
    }
}

/// The lines of all open positions.
pub fn describe_positions(engine: &LiveTradingEngine, store: &PriceStore, now_ns: i64) -> (lines:
    Vec<String>)
    requires
        engine.wf(),
        prices_in_range(*store),
    ensures
        lines@.len() == engine.open_positions@.len(),
        forall|i: int|
            0 <= i < lines@.len() ==> describes(
                (#[trigger] lines@[i])@,
                engine.open_positions@[i],
                *store,
                now_ns,
            ),
{
    let mut lines: Vec<String> = Vec::new();
    let mut k: usize = 0;
    while k < engine.open_positions.len()
        invariant
            k <= engine.open_positions@.len(),
            engine.wf(),
            prices_in_range(*store),
            lines@.len() == k,
            forall|i: int|
                0 <= i < k ==> describes(
                    (#[trigger] lines@[i])@,
                    engine.open_positions@[i],
                    *store,
                    now_ns,
                ),
        decreases engine.open_positions@.len() - k,
    {
        let p = &engine.open_positions[k];
        assert(engine.open_positions@[k as int].wf());
        let line = match store.get(p.coin.as_str()) {
            Some(prices) => {
                assert(store@.contains_key(p.coin@));
                let (binance, bybit) = fresh_prices(&prices);
                describe_position(p, binance, bybit, now_ns)
            },
            None => describe_position(p, None, None, now_ns),
        };
        lines.push(line);
        k = k + 1;
    }
    lines
}

/// The lines of the position panel: none where there is no position.
pub open spec fn panel_part(details: Seq<Seq<char>>) -> Seq<Seq<char>> {
    if details.len() == 0 {
        Seq::empty()
    } else {
        seq![panel_titles()] + details + seq![panel_rule()]
    }
}

/// The lines of the rows from `start` to `end` in their order.
pub open spec fn row_lines(
    rows: Seq<TableRow>,
    order: Seq<usize>,
    start: int,
    end: int,
) -> Seq<Seq<char>> {
    Seq::new((end - start) as nat, |i: int| row_line(rows[order[start + i] as int], start + i))
}

/// Empty lines.
pub open spec fn blank_lines(n: int) -> Seq<Seq<char>> {
    Seq::new(n as nat, |i: int| "\x1b[K"@)
}

/// The lines of a screen above its footer.
pub open spec fn frame_lines(
    status: Seq<char>,
    bar: Seq<char>,
    details: Seq<Seq<char>>,
    rows: Seq<TableRow>,
    order: Seq<usize>,
    start: int,
    end: int,
    available: int,
) -> Seq<Seq<char>> {
    seq![status, bar] + panel_part(details) + seq![table_titles(), table_rule()] + row_lines(
        rows,
        order,
        start,
        end,
    ) + blank_lines(available - (end - start))
}

/// The first shown row once it is kept within the table.
pub open spec fn kept_scroll(scroll: usize, total: int, available: int) -> int {
    crate::fixed::min_of(scroll as int, crate::stats::less(total, available))
}

/// The rows that fit beside the lines of open positions.
pub open spec fn fitting_rows(height: usize, positions: int) -> int {
    crate::stats::less(
        height as int,
        6 + if positions == 0 {
            0
        } else {
            positions + 2
        },
    )
}

fn push_rows(
    lines: &mut Vec<String>,
    rows: &Vec<TableRow>,
    order: &Vec<usize>,
    start: usize,
    end: usize,
)
    requires
        start <= end <= order@.len(),
        is_table_order(order@, rows@),
    ensures
        texts(final(lines)@) == texts(old(lines)@) + row_lines(
            rows@,
            order@,
            start as int,
            end as int,
        ),
{
    let mut i: usize = start;
    assert(row_lines(rows@, order@, start as int, start as int) =~= Seq::empty());
    while i < end
        invariant
            start <= i <= end <= order@.len(),
            is_table_order(order@, rows@),
            texts(lines@) =~= texts(old(lines)@) + row_lines(
                rows@,
                order@,
                start as int,
                i as int,
            ),
        decreases end - i,
    {
        let line = write_row_line(&rows[order[i]], i);
        proof {
            lemma_texts_push(lines@, line);
        }
        lines.push(line);
        i = i + 1;
    }
}

fn push_blanks(lines: &mut Vec<String>, n: usize)
    ensures
        texts(final(lines)@) == texts(old(lines)@) + blank_lines(n as int),
{
    let mut i: usize = 0;
    while i < n
        invariant
            i <= n,
            texts(lines@) =~= texts(old(lines)@) + blank_lines(i as int),
        decreases n - i,
    {
        let line = "\x1b[K".to_owned();
        proof {
            lemma_texts_push(lines@, line);
        }
        lines.push(line);
        i = i + 1;
    }
}

fn push_line(lines: &mut Vec<String>, line: String)
    ensures
        texts(final(lines)@) == texts(old(lines)@).push(line@),
{
    proof {
        lemma_texts_push(lines@, line);
    }
    lines.push(line);
}

fn push_panel(lines: &mut Vec<String>, details: &Vec<String>)
    ensures
        texts(final(lines)@) == texts(old(lines)@) + panel_part(texts(details@)),
{
    if details.len() == 0 {
        assert(texts(lines@) =~= texts(old(lines)@) + panel_part(texts(details@)));
        return;
    }
    push_line(lines, write_panel_titles());
    let ghost before = texts(lines@);
    let mut i: usize = 0;
    while i < details.len()
        invariant
            i <= details@.len(),
            texts(lines@) =~= before + texts(details@).take(i as int),
        decreases details@.len() - i,
    {
        push_line(lines, details[i].clone());
        i = i + 1;
    }
    assert(texts(details@).take(i as int) =~= texts(details@));
    push_line(lines, write_panel_rule());
    assert(texts(lines@) =~= texts(old(lines)@) + panel_part(texts(details@)));
}

/// A whole screen of the given height. The first shown row is kept within the
/// table.
pub fn write_frame(
    ui: &mut UiState,
    status: &ExchangeStatus,
    bar: &str,
    details: &Vec<String>,
    rows: &Vec<TableRow>,
    order: &Vec<usize>,
    time: &str,
    height: usize,
) -> (out: String)
    requires
        details@.len() <= usize::MAX - 8,
        is_table_order(order@, rows@),
    ensures
        final(ui).query@ == old(ui).query@,
        final(ui).searching == old(ui).searching,
        final(ui).scroll == kept_scroll(
            old(ui).scroll,
            rows@.len() as int,
            fitting_rows(height, details@.len() as int),
        ),
        ({
            let available = fitting_rows(height, details@.len() as int);
            let end = crate::fixed::min_of(final(ui).scroll + available, rows@.len() as int);
            out@ == screen_text(
                frame_lines(
                    status_line(*status, rows.len(), time@, old(ui).query@),
                    bar@,
                    texts(details@),
                    rows@,
                    order@,
                    final(ui).scroll as int,
                    end,
                    available,
                ),
                footer_line(*final(ui), *status, end as usize, rows.len()),
                height,
            )
        }),
{
    let total: usize = rows.len();
    let available: usize = rows_that_fit(height, panel_lines(details.len()));
    clamp_scroll(ui, total, available);
    let end: usize = shown_end(ui.scroll, available, total);
    let mut lines: Vec<String> = Vec::new();
    assert(texts(lines@) =~= Seq::empty());
    push_line(&mut lines, write_status_line(status, total, time, ui.query.as_str()));
    push_line(&mut lines, bar.to_owned());
    push_panel(&mut lines, details);
    push_line(&mut lines, write_table_titles());
    push_line(&mut lines, write_table_rule());
    push_rows(&mut lines, rows, order, ui.scroll, end);
    push_blanks(&mut lines, available - (end - ui.scroll));
    assert(texts(lines@) =~= frame_lines(
        status_line(*status, total, time@, ui.query@),
        bar@,
        texts(details@),
        rows@,
        order@,
        ui.scroll as int,
        end as int,
        available as int,
    ));
    let footer = write_footer(ui, status, end, total);
    write_screen(&lines, footer.as_str(), height)
}

/// A screen is never larger than the terminal: the lines of a frame and its
/// footer fit, wherever the terminal has room for the lines that are always
/// there.
pub proof fn law_frame_fits(
    status: Seq<char>,
    bar: Seq<char>,
    details: Seq<Seq<char>>,
    rows: Seq<TableRow>,
    order: Seq<usize>,
    scroll: usize,
    height: usize,
)
    requires
        rows.len() <= usize::MAX,
        height >= 6 + panel_part(details).len(),
    ensures
        ({
            let available = fitting_rows(height, details.len() as int);
            let start = kept_scroll(scroll, rows.len() as int, available);
            let end = crate::fixed::min_of(start + available, rows.len() as int);
            frame_lines(status, bar, details, rows, order, start, end, available).len() < height
        }),
{
}

/// The limit cycles: from none it goes through one, two, three, five and ten back
/// to none, and only the step back to one starts a new session.
pub proof fn law_limit_cycles(limit: u32)
    ensures
        next_limit(next_limit(next_limit(next_limit(next_limit(next_limit(0)))))) == 0,
        restarts_session(limit) ==> next_limit(limit) == 1,
        next_limit(limit) == 1 ==> restarts_session(limit),
{
}

/// Pressing a switch twice leaves everything as it was.
pub proof fn law_switch_twice(s: ExchangeStatus, c: char)
    requires
        c == '1' || c == '2' || c == 't' || c == 'T',
    ensures
        status_after(status_after(s, Key::Char(c)), Key::Char(c)) == s,
{
}

} // verus!
