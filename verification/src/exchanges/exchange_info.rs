//! Trading rules per symbol: tick sizes, step sizes and minimum notional. They
//! are read once from both exchanges and used to round prices and quantities
//! before orders are sent.
use crate::fixed::{max_of, MAX_AMOUNT};
use crate::text::{
    amount_units, ends_with, parse_amount, parse_step, same_text, step_units,
};
use vstd::hash_map::StringHashMap;
use vstd::prelude::*;

verus! {

/// Trading rules of a symbol on an exchange.
#[derive(Debug, Clone, Copy, PartialEq, Eq, Structural)]
pub struct SymbolInfo {
    /// Minimum price increment.
    pub tick_size: u64,
    /// Minimum quantity increment.
    pub step_size: u64,
    /// Minimum notional value per order.
    pub min_notional: u64,
}

/// Minimum notional of a symbol that states none: five USDT.
pub const DEFAULT_MIN_NOTIONAL: u64 = 500_000_000;

/// Trading rules of both exchanges, keyed by symbol.
pub struct ExchangeInfoCache {
    pub binance: StringHashMap<SymbolInfo>,
    pub bybit: StringHashMap<SymbolInfo>,
}

/// The largest multiple of `step` that is not above `v`; `v` itself where there
/// is no step.
pub open spec fn round_down_to(v: int, step: int) -> int {
    if step <= 0 {
        v
    } else {
        (v / step) * step
    }
}

/// The smallest multiple of `step` that is not below `v`; `v` itself where
/// there is no step.
pub open spec fn round_up_to(v: int, step: int) -> int {
    if step <= 0 {
        v
    } else {
        ((v + step - 1) / step) * step
    }
}

/// Rounding down gives a multiple of the step that is not above the value and
/// less than a step below it.
pub proof fn law_round_down(v: int, step: int)
    requires
        v >= 0,
        step > 0,
    ensures
        round_down_to(v, step) % step == 0,
        0 <= round_down_to(v, step) <= v < round_down_to(v, step) + step,
        round_down_to(round_down_to(v, step), step) == round_down_to(v, step),
{
    let q = v / step;
    assert(v == q * step + v % step && 0 <= v % step < step && q >= 0) by (nonlinear_arith)
        requires
            v >= 0,
            step > 0,
            q == v / step,
    ;
    assert((q * step) % step == 0) by {
        vstd::arithmetic::div_mod::lemma_mod_multiples_basic(q, step);
    }
    assert((q * step) / step == q) by {
        vstd::arithmetic::div_mod::lemma_div_by_multiple(q, step);
    }
    assert(q * step >= 0) by (nonlinear_arith)
        requires
            q >= 0,
            step > 0,
    ;
}

/// Rounding up gives a multiple of the step that is not below the value and
/// less than a step above it.
pub proof fn law_round_up(v: int, step: int)
    requires
        v >= 0,
        step > 0,
    ensures
        round_up_to(v, step) % step == 0,
        round_up_to(v, step) - step < v <= round_up_to(v, step),
        round_up_to(round_up_to(v, step), step) == round_up_to(v, step),
        round_down_to(v, step) == v ==> round_up_to(v, step) == v,
{
    let w = v + step - 1;
    let q = w / step;
    assert(w == q * step + w % step && 0 <= w % step < step && q >= 0) by (nonlinear_arith)
        requires
            w >= 0,
            step > 0,
            q == w / step,
    ;
    assert((q * step) % step == 0) by {
        vstd::arithmetic::div_mod::lemma_mod_multiples_basic(q, step);
    }
    let again = q * step + step - 1;
    assert(again / step == q) by (nonlinear_arith)
        requires
            again == q * step + (step - 1),
            step > 0,
    ;
    if round_down_to(v, step) == v {
        let p = v / step;
        assert(w / step == p) by (nonlinear_arith)
            requires
                w == p * step + (step - 1),
                step > 0,
        ;
    }
}

/// What an exchange states about a symbol in one of its filters.
pub struct BinanceFilter {
    pub filter_type: String,
    pub tick_size: Option<String>,
    pub step_size: Option<String>,
    pub notional: Option<String>,
    pub min_notional: Option<String>,
}

/// A symbol with its filters.
pub struct BinanceSymbolRules {
    pub symbol: String,
    pub filters: Vec<BinanceFilter>,
}

/// The amount that an optional text writes, `default` where it writes none.
pub open spec fn amount_or(text: Seq<char>, default: int) -> int {
    match amount_units(text) {
        Some(v) => v,
        None => default,
    }
}

fn read_amount_or(text: &str, default: u64) -> (v: u64)
    requires
        default <= MAX_AMOUNT,
    ensures
        v == amount_or(text@, default as int),
        v <= MAX_AMOUNT,
{
    match parse_amount(text) {
        Some(v) => v,
        None => default,
    }
}

/// The step that a text writes, zero where it writes none.
pub open spec fn step_or_zero(text: Seq<char>) -> int {
    match step_units(text) {
        Some(v) => v,
        None => 0,
    }
}

fn read_step_or_zero(text: &str) -> (v: u64)
    ensures
        v == step_or_zero(text@),
        v <= MAX_AMOUNT,
{
    match parse_step(text) {
        Some(v) => v,
        None => 0,
    }
}

/// The rules after one more filter has been read: the price filter sets the
/// tick size, the larger of the lot sizes sets the step size, and the notional
/// filter sets the minimum notional.
pub open spec fn with_filter(info: SymbolInfo, f: BinanceFilter) -> SymbolInfo {
    if f.filter_type@ == "PRICE_FILTER"@ {
        match f.tick_size {
            Some(t) => SymbolInfo { tick_size: step_or_zero(t@) as u64, ..info },
            None => info,
        }
    } else if f.filter_type@ == "LOT_SIZE"@ || f.filter_type@ == "MARKET_LOT_SIZE"@ {
        match f.step_size {
            Some(t) => SymbolInfo {
                step_size: max_of(info.step_size as int, step_or_zero(t@)) as u64,
                ..info
            },
            None => info,
        }
    } else if f.filter_type@ == "MIN_NOTIONAL"@ {
        match (f.notional, f.min_notional) {
            (Some(t), _) => SymbolInfo {
                min_notional: amount_or(t@, DEFAULT_MIN_NOTIONAL as int) as u64,
                ..info
            },
            (None, Some(t)) => SymbolInfo {
                min_notional: amount_or(t@, DEFAULT_MIN_NOTIONAL as int) as u64,
                ..info
            },
            (None, None) => info,
        }
    } else {
        info
    }
}

/// The rules that the first `n` filters of a symbol state.
pub open spec fn rules_of(filters: Seq<BinanceFilter>, n: int) -> SymbolInfo
    decreases n,
{
    if n <= 0 {
        SymbolInfo { tick_size: 0, step_size: 0, min_notional: DEFAULT_MIN_NOTIONAL }
    } else {
        with_filter(rules_of(filters, n - 1), filters[n - 1])
    }
}

/// Whether a symbol is quoted in USDT.
pub open spec fn quoted_in_usdt(symbol: Seq<char>) -> bool {
    "USDT"@.is_suffix_of(symbol)
}

/// Whether rules can be traded by: they have a tick size and a step size.
pub open spec fn tradable(info: SymbolInfo) -> bool {
    info.tick_size > 0 && info.step_size > 0
}

/// Rules in range.
pub open spec fn info_in_range(info: SymbolInfo) -> bool {
    info.tick_size <= MAX_AMOUNT && info.step_size <= MAX_AMOUNT && info.min_notional
        <= MAX_AMOUNT
}

fn apply_filter(info: SymbolInfo, f: &BinanceFilter) -> (r: SymbolInfo)
    requires
        info_in_range(info),
    ensures
        r == with_filter(info, *f),
        info_in_range(r),
{
    let mut r = info;
    if same_text(f.filter_type.as_str(), "PRICE_FILTER") {
        if let Some(t) = &f.tick_size {
            r.tick_size = read_step_or_zero(t.as_str());
        }
    } else if same_text(f.filter_type.as_str(), "LOT_SIZE") || same_text(
        f.filter_type.as_str(),
        "MARKET_LOT_SIZE",
    ) {
        if let Some(t) = &f.step_size {
            let parsed: u64 = read_step_or_zero(t.as_str());
            if parsed > r.step_size {
                r.step_size = parsed;
            }
        }
    } else if same_text(f.filter_type.as_str(), "MIN_NOTIONAL") {
        if let Some(t) = &f.notional {
            r.min_notional = read_amount_or(t.as_str(), DEFAULT_MIN_NOTIONAL);
        } else if let Some(t) = &f.min_notional {
            r.min_notional = read_amount_or(t.as_str(), DEFAULT_MIN_NOTIONAL);
        }
    }
    r
}

/// The rules that the filters of a symbol state.
pub fn binance_rules(filters: &Vec<BinanceFilter>) -> (r: SymbolInfo)
    ensures
        r == rules_of(filters@, filters@.len() as int),
        info_in_range(r),
{
    let mut r = SymbolInfo { tick_size: 0, step_size: 0, min_notional: DEFAULT_MIN_NOTIONAL };
    let mut i: usize = 0;
    while i < filters.len()
        invariant
            i <= filters@.len(),
            r == rules_of(filters@, i as int),
            info_in_range(r),
        decreases filters@.len() - i,
    {
        r = apply_filter(r, &filters[i]);
        i = i + 1;
    }
    r
}

/// Whether a Binance symbol goes into the cache.
pub open spec fn binance_kept(s: BinanceSymbolRules) -> bool {
    quoted_in_usdt(s.symbol@) && tradable(rules_of(s.filters@, s.filters@.len() as int))
}

/// The Binance rules after the first `n` symbols have been read.
pub open spec fn binance_loaded(
    start: Map<Seq<char>, SymbolInfo>,
    symbols: Seq<BinanceSymbolRules>,
    n: int,
) -> Map<Seq<char>, SymbolInfo>
    decreases n,
{
    if n <= 0 {
        start
    } else {
        let before = binance_loaded(start, symbols, n - 1);
        let s = symbols[n - 1];
        if binance_kept(s) {
            before.insert(s.symbol@, rules_of(s.filters@, s.filters@.len() as int))
        } else {
            before
        }
    }
}

/// How many of the first `n` symbols go into the cache.
pub open spec fn binance_count(symbols: Seq<BinanceSymbolRules>, n: int) -> int
    decreases n,
{
    if n <= 0 {
        0
    } else if binance_kept(symbols[n - 1]) {
        binance_count(symbols, n - 1) + 1
    } else {
        binance_count(symbols, n - 1)
    }
}

/// Puts the rules of the USDT symbols of Binance into the cache and counts them.
pub fn load_binance_info(cache: &mut ExchangeInfoCache, symbols: &Vec<BinanceSymbolRules>) -> (count:
    usize)
    requires
        old(cache).wf(),
    ensures
        final(cache).wf(),
        final(cache).bybit@ == old(cache).bybit@,
        final(cache).binance@ == binance_loaded(
            old(cache).binance@,
            symbols@,
            symbols@.len() as int,
        ),
        count == binance_count(symbols@, symbols@.len() as int),
{
    let mut count: usize = 0;
    let mut i: usize = 0;
    while i < symbols.len()
        invariant
            i <= symbols@.len(),
            count <= i,
            cache.wf(),
            cache.bybit@ == old(cache).bybit@,
            cache.binance@ == binance_loaded(old(cache).binance@, symbols@, i as int),
            count == binance_count(symbols@, i as int),
        decreases symbols@.len() - i,
    {
        let s = &symbols[i];
        if ends_with(s.symbol.as_str(), "USDT") {
            let info = binance_rules(&s.filters);
            if info.tick_size > 0 && info.step_size > 0 {
                cache.binance.insert(s.symbol.clone(), info);
                count = count + 1;
            }
        }
        i = i + 1;
    }
    count
}

/// An instrument as Bybit lists it, as far as it is stated.
pub struct BybitInstrumentRules {
    pub symbol: Option<String>,
    pub tick_size: Option<String>,
    pub qty_step: Option<String>,
}

/// One page of the instrument list of Bybit, as far as it is stated.
pub struct BybitInstrumentPage {
    pub ret_code: Option<i64>,
    pub ret_msg: Option<String>,
    pub list: Option<Vec<BybitInstrumentRules>>,
    pub next_cursor: Option<String>,
}

/// What an instrument states.
pub struct InstrumentContent {
    pub symbol: Option<Seq<char>>,
    pub tick_size: Option<Seq<char>>,
    pub qty_step: Option<Seq<char>>,
}

/// What a page states.
pub struct PageContent {
    pub ret_code: Option<i64>,
    pub ret_msg: Option<Seq<char>>,
    pub list: Option<Seq<InstrumentContent>>,
    pub next_cursor: Option<Seq<char>>,
}

/// The text of an optional string.
pub open spec fn stated(s: Option<String>) -> Option<Seq<char>> {
    match s {
        Some(t) => Some(t@),
        None => None,
    }
}

impl BybitInstrumentRules {
    pub open spec fn view(&self) -> InstrumentContent {
        InstrumentContent {
            symbol: stated(self.symbol),
            tick_size: stated(self.tick_size),
            qty_step: stated(self.qty_step),
        }
    }
}

/// What instruments state.
pub open spec fn contents(list: Seq<BybitInstrumentRules>) -> Seq<InstrumentContent> {
    Seq::new(list.len(), |i: int| list[i]@)
}

impl BybitInstrumentPage {
    pub open spec fn view(&self) -> PageContent {
        PageContent {
            ret_code: self.ret_code,
            ret_msg: stated(self.ret_msg),
            list: match self.list {
                Some(l) => Some(contents(l@)),
                None => None,
            },
            next_cursor: stated(self.next_cursor),
        }
    }
}

/// What `serde_json` reads as a page in a text, or the error that it reports.
pub uninterp spec fn page_in(text: Seq<char>) -> Result<PageContent, Seq<char>>;

/// `serde_json::from_str` into a `serde_json::Value`, of which `Value::pointer`,
/// `as_i64`, `as_str` and `as_array` pick the fields of a page: a field is there where
/// the text is JSON that holds it under its path with its kind of value. What is
/// read, and the text of the error where the text is no JSON, is a function of the
/// text.
#[verifier::external_body]
fn read_page(text: &str) -> (r: Result<BybitInstrumentPage, String>)
    ensures
        match r {
            Ok(p) => page_in(text@) == Ok::<PageContent, Seq<char>>(p@),
            Err(e) => page_in(text@) == Err::<PageContent, Seq<char>>(e@),
        },
{
    let raw: serde_json::Value = serde_json::from_str(text).map_err(|e| e.to_string())?;
    let at = |v: &serde_json::Value, p: &str| v.pointer(p)?.as_str().map(str::to_owned);
    let row = |v: &serde_json::Value| BybitInstrumentRules {
        symbol: at(v, "/symbol"),
        tick_size: at(v, "/priceFilter/tickSize"),
        qty_step: at(v, "/lotSizeFilter/qtyStep"),
    };
    let list = raw.pointer("/result/list").and_then(|l| l.as_array());
    Ok(BybitInstrumentPage {
        ret_code: raw.pointer("/retCode").and_then(|c| c.as_i64()),
        ret_msg: at(&raw, "/retMsg"),
        list: list.map(|l| l.iter().map(row).collect()),
        next_cursor: at(&raw, "/result/nextPageCursor"),
    })
}

/// The step that an optional text writes, zero where it writes none.
pub open spec fn optional_step(text: Option<Seq<char>>) -> int {
    match text {
        Some(t) => step_or_zero(t),
        None => 0,
    }
}

/// The symbol of an instrument, empty where none is stated.
pub open spec fn listed_symbol(item: InstrumentContent) -> Seq<char> {
    match item.symbol {
        Some(s) => s,
        None => ""@,
    }
}

/// The rules of a Bybit instrument.
pub open spec fn bybit_rules(item: InstrumentContent) -> SymbolInfo {
    SymbolInfo {
        tick_size: optional_step(item.tick_size) as u64,
        step_size: optional_step(item.qty_step) as u64,
        min_notional: DEFAULT_MIN_NOTIONAL,
    }
}

/// Whether a Bybit instrument goes into the cache.
pub open spec fn bybit_kept(item: InstrumentContent) -> bool {
    quoted_in_usdt(listed_symbol(item)) && tradable(bybit_rules(item))
}

/// The Bybit rules after the first `n` instruments of a page have been read.
pub open spec fn bybit_loaded(
    start: Map<Seq<char>, SymbolInfo>,
    list: Seq<InstrumentContent>,
    n: int,
) -> Map<Seq<char>, SymbolInfo>
    decreases n,
{
    if n <= 0 {
        start
    } else {
        let before = bybit_loaded(start, list, n - 1);
        let item = list[n - 1];
        if bybit_kept(item) {
            before.insert(listed_symbol(item), bybit_rules(item))
        } else {
            before
        }
    }
}

/// How many of the first `n` instruments go into the cache.
pub open spec fn bybit_count(list: Seq<InstrumentContent>, n: int) -> int
    decreases n,
{
    if n <= 0 {
        0
    } else if bybit_kept(list[n - 1]) {
        bybit_count(list, n - 1) + 1
    } else {
        bybit_count(list, n - 1)
    }
}

fn read_optional(text: &Option<String>) -> (v: u64)
    ensures
        v == optional_step(stated(*text)),
        v <= MAX_AMOUNT,
{
    match text {
        Some(t) => read_step_or_zero(t.as_str()),
        None => 0,
    }
}

/// What follows a page of the instrument list.
pub enum PageOutcome {
    /// The page could not be read, or the exchange reported an error.
    Failed(String),
    /// This was the last page; it added so many symbols.
    Done(usize),
    /// This page added so many symbols, and another follows under a cursor.
    More(usize, String),
}

/// The code that a page states, minus one where it states none.
pub open spec fn page_code(page: PageContent) -> int {
    match page.ret_code {
        Some(c) => c as int,
        None => -1,
    }
}

/// The instruments of a page, none where it states none.
pub open spec fn page_list(page: PageContent) -> Seq<InstrumentContent> {
    match page.list {
        Some(l) => l,
        None => seq![],
    }
}

/// The cursor to the next page, empty where none is stated.
pub open spec fn page_cursor(page: PageContent) -> Seq<char> {
    match page.next_cursor {
        Some(c) => c,
        None => ""@,
    }
}

/// Whether another page follows: this one is not empty and names a cursor that
/// is not the one that led here.
pub open spec fn page_continues(page: PageContent, cursor: Seq<char>) -> bool {
    page_list(page).len() > 0 && page_cursor(page).len() > 0 && page_cursor(page) != cursor
}

/// The text with which a page that reports an error fails.
pub open spec fn page_error(page: PageContent) -> Seq<char> {
    "Bybit instruments-info API error: "@ + match page.ret_msg {
        Some(m) => m,
        None => "unknown"@,
    }
}

/// Whether a page was taken: `before` and `after` are the Bybit rules before and after
/// it, and `cursor` is the one that led to it.
pub open spec fn page_taken(
    page: PageContent,
    cursor: Seq<char>,
    before: Map<Seq<char>, SymbolInfo>,
    after: Map<Seq<char>, SymbolInfo>,
    outcome: PageOutcome,
) -> bool {
    let list = page_list(page);
    let n = list.len() as int;
    if page_code(page) != 0 {
        &&& after == before
        &&& outcome is Failed && outcome->Failed_0@ == page_error(page)
    } else {
        &&& after == bybit_loaded(before, list, n)
        &&& match outcome {
            PageOutcome::Failed(_) => false,
            PageOutcome::Done(count) => !page_continues(page, cursor) && count == bybit_count(
                list,
                n,
            ),
            PageOutcome::More(count, next) => page_continues(page, cursor) && count == bybit_count(
                list,
                n,
            ) && next@ == page_cursor(page),
        }
    }
}

/// Puts the rules of the USDT instruments of a page into the cache. `cursor` is
/// the one that led to the page.
pub fn load_bybit_info(
    cache: &mut ExchangeInfoCache,
    page: &BybitInstrumentPage,
    cursor: &str,
) -> (outcome: PageOutcome)
    requires
        old(cache).wf(),
    ensures
        final(cache).wf(),
        final(cache).binance@ == old(cache).binance@,
        page_taken(page@, cursor@, old(cache).bybit@, final(cache).bybit@, outcome),
{
    let code: i64 = match page.ret_code {
        Some(c) => c,
        None => -1,
    };
    if code != 0 {
        let mut text = "Bybit instruments-info API error: ".to_owned();
        match &page.ret_msg {
            Some(m) => text.append(m.as_str()),
            None => text.append("unknown"),
        }
        return PageOutcome::Failed(text);
    }
    let none: Vec<BybitInstrumentRules> = Vec::new();
    let list = match &page.list {
        Some(l) => l,
        None => &none,
    };
    let ghost rows = contents(list@);
    assert(rows =~= page_list(page@));
    let mut count: usize = 0;
    let mut i: usize = 0;
    while i < list.len()
        invariant
            i <= list@.len(),
            rows == contents(list@),
            count <= i,
            cache.wf(),
            cache.binance@ == old(cache).binance@,
            cache.bybit@ == bybit_loaded(old(cache).bybit@, rows, i as int),
            count == bybit_count(rows, i as int),
        decreases list@.len() - i,
    {
        let item = &list[i];
        let symbol = match &item.symbol {
            Some(s) => s.as_str(),
            None => "",
        };
        assert(symbol@ == listed_symbol(rows[i as int]));
        if ends_with(symbol, "USDT") {
            let info = SymbolInfo {
                tick_size: read_optional(&item.tick_size),
                step_size: read_optional(&item.qty_step),
                min_notional: DEFAULT_MIN_NOTIONAL,
            };
            assert(info == bybit_rules(rows[i as int]));
            if info.tick_size > 0 && info.step_size > 0 {
                cache.bybit.insert(symbol.to_owned(), info);
                count = count + 1;
            }
        }
        i = i + 1;
    }
    let next = match &page.next_cursor {
        Some(c) => c.as_str(),
        None => "",
    };
    if list.len() == 0 || next.is_empty() || same_text(next, cursor) {
        PageOutcome::Done(count)
    } else {
        PageOutcome::More(count, next.to_owned())
    }
}

/// Reads a page of the instrument list and puts the rules of its USDT instruments
/// into the cache. `cursor` is the one that led to the page. A text that is no page
/// changes nothing.
pub fn load_bybit_text(cache: &mut ExchangeInfoCache, text: &str, cursor: &str) -> (outcome:
    PageOutcome)
    requires
        old(cache).wf(),
    ensures
        final(cache).wf(),
        final(cache).binance@ == old(cache).binance@,
        match page_in(text@) {
            Ok(page) => page_taken(
                page,
                cursor@,
                old(cache).bybit@,
                final(cache).bybit@,
                outcome,
            ),
            Err(e) => {
                &&& final(cache).bybit@ == old(cache).bybit@
                &&& outcome is Failed
                &&& outcome->Failed_0@ == "Failed to parse Bybit instruments-info: "@ + e
            },
        },
{
    match read_page(text) {
        Ok(page) => load_bybit_info(cache, &page, cursor),
        Err(e) => {
            let mut s = "Failed to parse Bybit instruments-info: ".to_owned();
            s.append(e.as_str());
            PageOutcome::Failed(s)
        },
    }
}

/// The address of the first page of the instrument list.
pub const BYBIT_INSTRUMENTS_URL: &'static str =
    "https://api.bybit.com/v5/market/instruments-info?category=linear&limit=1000";

/// The address of the page under a cursor, of the first page where it is empty.
pub fn instruments_url(cursor: &str) -> (url: String)
    ensures
        url@ == if cursor@.len() == 0 {
            BYBIT_INSTRUMENTS_URL@
        } else {
            BYBIT_INSTRUMENTS_URL@ + "&cursor="@ + cursor@
        },
{
    let mut url = BYBIT_INSTRUMENTS_URL.to_owned();
    if !cursor.is_empty() {
        url.append("&cursor=");
        url.append(cursor);
    }
    url
}

/// Every rule of a map is in range and can be traded by.
pub open spec fn rules_in_range(m: Map<Seq<char>, SymbolInfo>) -> bool {
    forall|k: Seq<char>| #[trigger]
        m.contains_key(k) ==> info_in_range(m[k]) && tradable(m[k])
}

impl ExchangeInfoCache {
    /// Every rule in the cache is in range and can be traded by.
    pub open spec fn wf(&self) -> bool {
        rules_in_range(self.binance@) && rules_in_range(self.bybit@)
    }

    /// An empty cache.
    pub fn new() -> (c: ExchangeInfoCache)
        ensures
            c.wf(),
            c.binance@ == Map::<Seq<char>, SymbolInfo>::empty(),
            c.bybit@ == Map::<Seq<char>, SymbolInfo>::empty(),
    {
        ExchangeInfoCache { binance: StringHashMap::new(), bybit: StringHashMap::new() }
    }

    /// Rounds a price down to the tick size.
    pub fn round_price_down(price: u64, tick_size: u64) -> (r: u64)
        ensures
            r == round_down_to(price as int, tick_size as int),
            r <= price,
    {
        if tick_size == 0 {
            return price;
        }
        proof {
            law_round_down(price as int, tick_size as int);
        }
        (price / tick_size) * tick_size
    }

    /// Rounds a price up to the tick size.
    pub fn round_price_up(price: u64, tick_size: u64) -> (r: u64)
        requires
            price + tick_size <= u64::MAX,
        ensures
            r == round_up_to(price as int, tick_size as int),
            r >= price,
            r <= price + tick_size,
    {
        if tick_size == 0 {
            return price;
        }
        proof {
            law_round_up(price as int, tick_size as int);
        }
        ((price + (tick_size - 1)) / tick_size) * tick_size
    }

    /// Rounds a quantity down to the step size.
    pub fn round_qty_down(qty: u64, step_size: u64) -> (r: u64)
        ensures
            r == round_down_to(qty as int, step_size as int),
            r <= qty,
    {
        Self::round_price_down(qty, step_size)
    }

    /// The Binance rules of a symbol.
    pub fn get_binance(&self, symbol: &str) -> (r: Option<SymbolInfo>)
        ensures
            r == self.binance@.get(symbol@),
    {
        match self.binance.get(symbol) {
            Some(info) => Some(*info),
            None => None,
        }
    }

    /// The Bybit rules of a symbol.
    pub fn get_bybit(&self, symbol: &str) -> (r: Option<SymbolInfo>)
        ensures
            r == self.bybit@.get(symbol@),
    {
        match self.bybit.get(symbol) {
            Some(info) => Some(*info),
            None => None,
        }
    }
}

} // verus!
