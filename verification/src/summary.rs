//! The summary of all trades that is shown when the program ends.
use crate::clock::{day_time, day_time_text};
use crate::config::{LIVE_TRADES_LOG_PATH, MISSED_TRADES_LOG_PATH};
use crate::text::{
    fixed_text, fixed_to_string, left_aligned, lemma_texts_push, nat_text, push_fixed,
    push_left_aligned, push_nat, push_repeated, push_right_aligned, repeated, right_aligned, texts,
};
use crate::trade_journal::{
    compute_summary, summarises, ExchangeTradeStats, TradeRecord, TradeSummary, MAX_RECORDS,
};
use vstd::prelude::*;
use vstd::utf8::*;

verus! {

/// How many trades are listed.
pub const LISTED_TRADES: usize = 10;

/// A rule under or over a title.
pub open spec fn title_rule() -> Seq<char> {
    "\x1b[31;1m"@ + repeated('═', 70) + "\x1b[0m"@
}

/// The colour of a profit, and of a loss or of nothing.
pub open spec fn color_of(pnl: int) -> Seq<char> {
    if pnl > 0 {
        "32"@
    } else {
        "31"@
    }
}

/// An amount in four places after a label.
pub open spec fn amount_line(label: Seq<char>, color: Seq<char>, sign: Seq<char>, v: int) -> Seq<
    char,
> {
    label + "\x1b["@ + color + "m"@ + sign + "$"@ + fixed_text(v, 4) + "\x1b[0m"@
}

/// The heading.
pub open spec fn heading() -> Seq<Seq<char>> {
    let none: Seq<Seq<char>> = seq![];
    none.push("\n"@ + title_rule()).push("\x1b[31;1m  📊 LIVE TRADING SUMMARY\x1b[0m"@).push(
        title_rule() + "\n"@,
    )
}

/// What is shown where there are no trades.
pub open spec fn empty_summary() -> Seq<Seq<char>> {
    heading().push("  No live trades recorded yet."@).push(
        "  Press \x1b[33;1mT\x1b[0m while running to enable LIVE trading.\n"@,
    ).push("  Trade log:        \x1b[90m"@ + LIVE_TRADES_LOG_PATH@ + "\x1b[0m"@).push(
        "  Missed trade log: \x1b[90m"@ + MISSED_TRADES_LOG_PATH@ + "\x1b[0m\n"@,
    )
}

/// The totals.
pub open spec fn totals(s: TradeSummary) -> Seq<Seq<char>> {
    let color = color_of(s.total_pnl_net as int) + ";1"@;
    heading().push(
        "  \x1b[37;1mTotal Trades:\x1b[0m  "@ + nat_text(s.total_trades as nat),
    ).push(
        "  \x1b[32mWins:\x1b[0m          "@ + nat_text(s.winning_trades as nat)
            + "  │  \x1b[31mLosses:\x1b[0m  "@ + nat_text(s.losing_trades as nat),
    ).push("  \x1b[37;1mWin Rate:\x1b[0m      "@ + fixed_text(s.win_rate as int, 1) + "%"@).push(
        ""@,
    ).push(
        amount_line("  \x1b[37;1mGross PnL:\x1b[0m     "@, color, ""@, s.total_pnl_gross as int),
    ).push(
        amount_line("  \x1b[37;1mTotal Fees:\x1b[0m     "@, "33"@, "-"@, s.total_fees as int),
    ).push(
        amount_line("  \x1b[37;1mNet PnL:\x1b[0m       "@, color, ""@, s.total_pnl_net as int),
    ).push(
        "  \x1b[37;1mAvg Spread:\x1b[0m    "@ + fixed_text(s.avg_spread_captured as int, 4) + "%"@,
    ).push(
        amount_line("  \x1b[37;1mBest Trade:\x1b[0m    "@, "32"@, ""@, s.best_trade_pnl as int),
    ).push(
        amount_line("  \x1b[37;1mWorst Trade:\x1b[0m   "@, "31"@, ""@, s.worst_trade_pnl as int),
    )
}

/// The line of an exchange.
pub open spec fn exchange_line(name: Seq<char>, s: ExchangeTradeStats) -> Seq<char> {
    "  "@ + name + " "@ + right_aligned(nat_text(s.trades_as_buy as nat), 8) + " "@ + right_aligned(
        nat_text(s.trades_as_sell as nat),
        8,
    ) + " \x1b[33m$"@ + right_aligned(fixed_text(s.total_fees_paid as int, 4), 10)
        + "\x1b[0m \x1b["@ + color_of(s.total_pnl_contribution as int) + "m$"@ + right_aligned(
        fixed_text(s.total_pnl_contribution as int, 4),
        10,
    ) + "\x1b[0m"@
}

/// The titles of the exchange table.
pub open spec fn exchange_titles() -> Seq<char> {
    "  \x1b[37;1m"@ + left_aligned("Exchange"@, 12) + " "@ + right_aligned("Buy"@, 8) + " "@
        + right_aligned("Sell"@, 8) + " "@ + right_aligned("Fees Paid"@, 12) + " "@
        + right_aligned("PnL"@, 12) + "\x1b[0m"@
}

/// The totals and the breakdown by exchange. An exchange that took part in
/// nothing is left out.
pub open spec fn breakdown(s: TradeSummary) -> Seq<Seq<char>> {
    let head = totals(s).push("\n  \x1b[31;1m── Exchange Breakdown ──\x1b[0m\n"@).push(
        exchange_titles(),
    ).push("  \x1b[90m"@ + repeated('─', 58) + "\x1b[0m"@);
    let with_binance = if took_part(s.binance) {
        head.push(exchange_line("Binance"@, s.binance))
    } else {
        head
    };
    if took_part(s.bybit) {
        with_binance.push(exchange_line("Bybit"@, s.bybit))
    } else {
        with_binance
    }
}

/// Whether an exchange took part in a trade.
pub open spec fn took_part(s: ExchangeTradeStats) -> bool {
    s.trades_as_buy > 0 || s.trades_as_sell > 0
}

/// A coin, cut to its first seven bytes where it has more.
pub open spec fn short_coin(coin: Seq<char>) -> Seq<char> {
    if encode_utf8(coin).len() > 7 {
        decode_utf8(encode_utf8(coin).subrange(0, 7))
    } else {
        coin
    }
}

/// Whether the cut of a coin, if it is cut, falls between two characters.
pub open spec fn can_be_cut(coin: Seq<char>) -> bool {
    encode_utf8(coin).len() > 7 ==> is_char_boundary(encode_utf8(coin), 7)
}

/// Whether the coins of all listed trades can be cut.
pub open spec fn can_be_listed(t: Seq<TradeRecord>) -> bool {
    forall|i: int|
        listed_from(t.len() as int) <= i < t.len() ==> can_be_cut((#[trigger] t[i]).coin@)
}

/// The line of a trade.
pub open spec fn trade_line(t: TradeRecord) -> Seq<char> {
    "  "@ + left_aligned(nat_text(t.id as nat), 6) + " "@ + left_aligned(short_coin(t.coin@), 8)
        + " "@ + left_aligned(t.exchange_buy.name_spec(), 10) + " "@ + left_aligned(
        t.exchange_sell.name_spec(),
        10,
    ) + " "@ + right_aligned(fixed_text(t.spread_before as int, 4), 9) + "% \x1b[33m$"@
        + right_aligned(fixed_text(t.total_fee as int, 4), 8) + "\x1b[0m \x1b["@ + color_of(
        t.pnl_net as int,
    ) + "m$"@ + right_aligned(fixed_text(t.pnl_net as int, 4), 8) + "\x1b[0m "@ + right_aligned(
        day_time_text(t.timestamp_ns),
        10,
    )
}

/// The titles of the trade table.
pub open spec fn trade_titles() -> Seq<char> {
    "  \x1b[37;1m"@ + left_aligned("#"@, 6) + " "@ + left_aligned("Coin"@, 8) + " "@
        + left_aligned("Buy@"@, 10) + " "@ + left_aligned("Sell@"@, 10) + " "@ + right_aligned(
        "Spread"@,
        10,
    ) + " "@ + right_aligned("Fee"@, 10) + " "@ + right_aligned("Net PnL"@, 8) + " "@
        + right_aligned("Time"@, 10) + "\x1b[0m"@
}

/// Lines with those of the trades from `i` on.
pub open spec fn with_trades(lines: Seq<Seq<char>>, t: Seq<TradeRecord>, i: int) -> Seq<Seq<char>>
    decreases t.len() - i,
{
    if i < 0 || i >= t.len() {
        lines
    } else {
        with_trades(lines.push(trade_line(t[i])), t, i + 1)
    }
}

/// Where the listed trades begin.
pub open spec fn listed_from(n: int) -> int {
    if n > LISTED_TRADES {
        n - LISTED_TRADES
    } else {
        0
    }
}

/// Everything that is shown.
pub open spec fn full_summary(t: Seq<TradeRecord>, s: TradeSummary) -> Seq<Seq<char>> {
    let first = listed_from(t.len() as int);
    let head = breakdown(s).push(
        "\n  \x1b[31;1m── Last "@ + nat_text((t.len() - first) as nat) + " Trades ──\x1b[0m\n"@,
    ).push(trade_titles()).push("  \x1b[90m"@ + repeated('─', 80) + "\x1b[0m"@);
    with_trades(head, t, first).push(
        "\n  \x1b[90mFull trade log:   "@ + LIVE_TRADES_LOG_PATH@ + "\x1b[0m"@,
    ).push("  \x1b[90mMissed trade log: "@ + MISSED_TRADES_LOG_PATH@ + "\x1b[0m"@).push(""@)
}

fn put(lines: &mut Vec<String>, line: String)
    ensures
        texts(final(lines)@) == texts(old(lines)@).push(line@),
{
    proof {
        lemma_texts_push(lines@, line);
    }
    lines.push(line);
}

fn put_text(lines: &mut Vec<String>, line: &str)
    ensures
        texts(final(lines)@) == texts(old(lines)@).push(line@),
{
    put(lines, line.to_owned());
}

fn push_rule(s: &mut String)
    ensures
        final(s)@ == old(s)@ + title_rule(),
{
    s.append("\x1b[31;1m");
    push_repeated(s, '═', 70);
    s.append("\x1b[0m");
    assert(s@ =~= old(s)@ + title_rule());
}

fn put_heading(lines: &mut Vec<String>)
    requires
        old(lines)@.len() == 0,
    ensures
        texts(final(lines)@) == heading(),
{
    assert(texts(lines@) =~= seq![]);
    let mut top = "\n".to_owned();
    push_rule(&mut top);
    put(lines, top);
    put_text(lines, "\x1b[31;1m  📊 LIVE TRADING SUMMARY\x1b[0m");
    let mut bottom = String::new();
    push_rule(&mut bottom);
    bottom.append("\n");
    assert(bottom@ =~= title_rule() + "\n"@);
    put(lines, bottom);
}

fn put_amount(lines: &mut Vec<String>, label: &str, color: &str, sign: &str, v: i128)
    ensures
        texts(final(lines)@) == texts(old(lines)@).push(
            amount_line(label@, color@, sign@, v as int),
        ),
{
    let mut s = label.to_owned();
    s.append("\x1b[");
    s.append(color);
    s.append("m");
    s.append(sign);
    s.append("$");
    push_fixed(&mut s, v, 4);
    s.append("\x1b[0m");
    put(lines, s);
}

fn pnl_color(pnl: i128) -> (c: &'static str)
    ensures
        c@ == color_of(pnl as int),
{
    if pnl > 0 {
        "32"
    } else {
        "31"
    }
}

fn put_totals(lines: &mut Vec<String>, s: &TradeSummary)
    requires
        old(lines)@.len() == 0,
    ensures
        texts(final(lines)@) == totals(*s),
{
    put_heading(lines);
    let mut color = pnl_color(s.total_pnl_net).to_owned();
    color.append(";1");
    let mut trades = "  \x1b[37;1mTotal Trades:\x1b[0m  ".to_owned();
    push_nat(&mut trades, s.total_trades as u128);
    put(lines, trades);
    let mut wins = "  \x1b[32mWins:\x1b[0m          ".to_owned();
    push_nat(&mut wins, s.winning_trades as u128);
    wins.append("  │  \x1b[31mLosses:\x1b[0m  ");
    push_nat(&mut wins, s.losing_trades as u128);
    put(lines, wins);
    let mut rate = "  \x1b[37;1mWin Rate:\x1b[0m      ".to_owned();
    push_fixed(&mut rate, s.win_rate, 1);
    rate.append("%");
    put(lines, rate);
    put_text(lines, "");
    put_amount(
        lines,
        "  \x1b[37;1mGross PnL:\x1b[0m     ",
        color.as_str(),
        "",
        s.total_pnl_gross,
    );
    put_amount(lines, "  \x1b[37;1mTotal Fees:\x1b[0m     ", "33", "-", s.total_fees);
    put_amount(
        lines,
        "  \x1b[37;1mNet PnL:\x1b[0m       ",
        color.as_str(),
        "",
        s.total_pnl_net,
    );
    let mut spread = "  \x1b[37;1mAvg Spread:\x1b[0m    ".to_owned();
    push_fixed(&mut spread, s.avg_spread_captured, 4);
    spread.append("%");
    put(lines, spread);
    put_amount(lines, "  \x1b[37;1mBest Trade:\x1b[0m    ", "32", "", s.best_trade_pnl);
    put_amount(lines, "  \x1b[37;1mWorst Trade:\x1b[0m   ", "31", "", s.worst_trade_pnl);
}

fn push_right_nat(s: &mut String, n: u64, width: usize)
    ensures
        final(s)@ == old(s)@ + right_aligned(nat_text(n as nat), width as int),
{
    let mut t = String::new();
    push_nat(&mut t, n as u128);
    assert(t@ =~= nat_text(n as nat));
    push_right_aligned(s, t.as_str(), width);
}

fn push_right_fixed(s: &mut String, v: i128, places: usize, width: usize)
    requires
        places <= 8,
    ensures
        final(s)@ == old(s)@ + right_aligned(fixed_text(v as int, places as nat), width as int),
{
    let t = fixed_to_string(v, places);
    push_right_aligned(s, t.as_str(), width);
}

fn put_exchange(lines: &mut Vec<String>, name: &str, s: &ExchangeTradeStats)
    ensures
        texts(final(lines)@) == if took_part(*s) {
            texts(old(lines)@).push(exchange_line(name@, *s))
        } else {
            texts(old(lines)@)
        },
{
    if s.trades_as_buy > 0 || s.trades_as_sell > 0 {
        let mut line = "  ".to_owned();
        line.append(name);
        line.append(" ");
        push_right_nat(&mut line, s.trades_as_buy, 8);
        line.append(" ");
        push_right_nat(&mut line, s.trades_as_sell, 8);
        line.append(" \x1b[33m$");
        push_right_fixed(&mut line, s.total_fees_paid, 4, 10);
        line.append("\x1b[0m \x1b[");
        line.append(pnl_color(s.total_pnl_contribution));
        line.append("m$");
        push_right_fixed(&mut line, s.total_pnl_contribution, 4, 10);
        line.append("\x1b[0m");
        put(lines, line);
    }
}

fn put_breakdown(lines: &mut Vec<String>, s: &TradeSummary)
    requires
        old(lines)@.len() == 0,
    ensures
        texts(final(lines)@) == breakdown(*s),
{
    put_totals(lines, s);
    put_text(lines, "\n  \x1b[31;1m── Exchange Breakdown ──\x1b[0m\n");
    let mut titles = "  \x1b[37;1m".to_owned();
    push_left_aligned(&mut titles, "Exchange", 12);
    titles.append(" ");
    push_right_aligned(&mut titles, "Buy", 8);
    titles.append(" ");
    push_right_aligned(&mut titles, "Sell", 8);
    titles.append(" ");
    push_right_aligned(&mut titles, "Fees Paid", 12);
    titles.append(" ");
    push_right_aligned(&mut titles, "PnL", 12);
    titles.append("\x1b[0m");
    put(lines, titles);
    let mut rule = "  \x1b[90m".to_owned();
    push_repeated(&mut rule, '─', 58);
    rule.append("\x1b[0m");
    put(lines, rule);
    put_exchange(lines, "Binance", &s.binance);
    put_exchange(lines, "Bybit", &s.bybit);
}

/// Whether the coins of all listed trades can be cut between two characters.
pub fn are_listable(trades: &[TradeRecord]) -> (r: bool)
    ensures
        r == can_be_listed(trades@),
{
    let n: usize = trades.len();
    let first: usize = if n > LISTED_TRADES {
        n - LISTED_TRADES
    } else {
        0
    };
    let mut i: usize = first;
    while i < n
        invariant
            first <= i <= n == trades@.len(),
            first == listed_from(n as int),
            forall|j: int| first <= j < i ==> can_be_cut((#[trigger] trades@[j]).coin@),
        decreases n - i,
    {
        let coin = trades[i].coin.as_str();
        if coin.as_bytes().len() > 7 && !coin.is_char_boundary(7) {
            assert(!can_be_cut(trades@[i as int].coin@));
            return false;
        }
        i = i + 1;
    }
    true
}

fn put_trade(lines: &mut Vec<String>, t: &TradeRecord)
    requires
        can_be_cut(t.coin@),
    ensures
        texts(final(lines)@) == texts(old(lines)@).push(trade_line(*t)),
{
    let mut id = String::new();
    push_nat(&mut id, t.id as u128);
    assert(id@ =~= nat_text(t.id as nat));
    let mut line = "  ".to_owned();
    push_left_aligned(&mut line, id.as_str(), 6);
    line.append(" ");
    let coin = t.coin.as_str();
    if coin.as_bytes().len() > 7 {
        let short = coin.split_at(7).0;
        proof {
            encode_utf8_decode_utf8(short@);
        }
        push_left_aligned(&mut line, short, 8);
    } else {
        push_left_aligned(&mut line, coin, 8);
    }
    line.append(" ");
    push_left_aligned(&mut line, t.exchange_buy.name(), 10);
    line.append(" ");
    push_left_aligned(&mut line, t.exchange_sell.name(), 10);
    line.append(" ");
    push_right_fixed(&mut line, t.spread_before, 4, 9);
    line.append("% \x1b[33m$");
    push_right_fixed(&mut line, t.total_fee, 4, 8);
    line.append("\x1b[0m \x1b[");
    line.append(pnl_color(t.pnl_net));
    line.append("m$");
    push_right_fixed(&mut line, t.pnl_net, 4, 8);
    line.append("\x1b[0m ");
    let time = day_time(t.timestamp_ns);
    push_right_aligned(&mut line, time.as_str(), 10);
    put(lines, line);
}

/// The summary of all trades, line by line, with the ten last trades.
pub fn trade_summary(trades: &[TradeRecord]) -> (lines: Vec<String>)
    requires
        trades@.len() <= MAX_RECORDS,
        forall|i: int| 0 <= i < trades@.len() ==> (#[trigger] trades@[i]).in_range(),
        can_be_listed(trades@),
    ensures
        trades@.len() == 0 ==> texts(lines@) == empty_summary(),
        trades@.len() > 0 ==> forall|s: TradeSummary|
            summarises(s, trades@) ==> texts(lines@) == #[trigger] full_summary(trades@, s),
{
    let mut lines: Vec<String> = Vec::new();
    let n: usize = trades.len();
    if n == 0 {
        put_heading(&mut lines);
        put_text(&mut lines, "  No live trades recorded yet.");
        put_text(
            &mut lines,
            "  Press \x1b[33;1mT\x1b[0m while running to enable LIVE trading.\n",
        );
        let mut log = "  Trade log:        \x1b[90m".to_owned();
        log.append(LIVE_TRADES_LOG_PATH);
        log.append("\x1b[0m");
        put(&mut lines, log);
        let mut missed = "  Missed trade log: \x1b[90m".to_owned();
        missed.append(MISSED_TRADES_LOG_PATH);
        missed.append("\x1b[0m\n");
        put(&mut lines, missed);
        return lines;
    }
    let summary = compute_summary(trades);
    put_breakdown(&mut lines, &summary);
    let first: usize = if n > LISTED_TRADES {
        n - LISTED_TRADES
    } else {
        0
    };
    let mut last = "\n  \x1b[31;1m── Last ".to_owned();
    push_nat(&mut last, (n - first) as u128);
    last.append(" Trades ──\x1b[0m\n");
    put(&mut lines, last);
    let mut titles = "  \x1b[37;1m".to_owned();
    push_left_aligned(&mut titles, "#", 6);
    titles.append(" ");
    push_left_aligned(&mut titles, "Coin", 8);
    titles.append(" ");
    push_left_aligned(&mut titles, "Buy@", 10);
    titles.append(" ");
    push_left_aligned(&mut titles, "Sell@", 10);
    titles.append(" ");
    push_right_aligned(&mut titles, "Spread", 10);
    titles.append(" ");
    push_right_aligned(&mut titles, "Fee", 10);
    titles.append(" ");
    push_right_aligned(&mut titles, "Net PnL", 8);
    titles.append(" ");
    push_right_aligned(&mut titles, "Time", 10);
    titles.append("\x1b[0m");
    put(&mut lines, titles);
    let mut rule = "  \x1b[90m".to_owned();
    push_repeated(&mut rule, '─', 80);
    rule.append("\x1b[0m");
    put(&mut lines, rule);
    let ghost head = texts(lines@);
    let mut i: usize = first;
    while i < n
        invariant
            first <= i <= n == trades@.len(),
            first == listed_from(n as int),
            can_be_listed(trades@),
            with_trades(head, trades@, first as int) == with_trades(
                texts(lines@),
                trades@,
                i as int,
            ),
        decreases n - i,
    {
        put_trade(&mut lines, &trades[i]);
        i = i + 1;
    }
    let mut log = "\n  \x1b[90mFull trade log:   ".to_owned();
    log.append(LIVE_TRADES_LOG_PATH);
    log.append("\x1b[0m");
    put(&mut lines, log);
    let mut missed = "  \x1b[90mMissed trade log: ".to_owned();
    missed.append(MISSED_TRADES_LOG_PATH);
    missed.append("\x1b[0m");
    put(&mut lines, missed);
    put_text(&mut lines, "");
    assert forall|s: TradeSummary| summarises(s, trades@) implies texts(lines@)
        == #[trigger] full_summary(trades@, s) by {
        assert(s == summary);
    }
    lines
}

} // verus!
