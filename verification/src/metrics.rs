//! Counters and gauges.
use dashmap::DashMap;
use vstd::prelude::*;

verus! {

/// Event counters.
#[derive(Debug, Clone, Copy, PartialEq, Eq, Structural)]
pub struct Counters {
    pub entry_count: u64,
    pub exit_count: u64,
    pub partial_fill_count: u64,
    pub leg_failure_count: u64,
}

impl Default for Counters {
    fn default() -> (c: Counters)
        ensures
            c == (Counters {
                entry_count: 0,
                exit_count: 0,
                partial_fill_count: 0,
                leg_failure_count: 0,
            }),
    {
        Counters { entry_count: 0, exit_count: 0, partial_fill_count: 0, leg_failure_count: 0 }
    }
}

/// What a map of counts holds.
pub uninterp spec fn count_entries(m: DashMap<String, u64>) -> Map<Seq<char>, u64>;

/// `DashMap::new`: the map is empty.
#[verifier::external_body]
fn new_counts() -> (m: DashMap<String, u64>)
    ensures
        forall|k: Seq<char>| !count_entries(m).contains_key(k),
{
    DashMap::new()
}

/// `DashMap::get`: the value under the key, if there is one.
#[verifier::external_body]
fn get_count(m: &DashMap<String, u64>, key: &str) -> (v: Option<u64>)
    ensures
        v == count_entries(*m).get(key@),
{
    m.get(key).map(|r| *r.value())
}

/// `DashMap::insert`: the value stands under the key, the others stay.
#[verifier::external_body]
fn insert_count(m: &mut DashMap<String, u64>, key: String, value: u64)
    ensures
        count_entries(*final(m)) == count_entries(*old(m)).insert(key@, value),
{
    m.insert(key, value);
}

/// How often each reason led to a rejection.
pub struct RejectionCounters {
    counts: DashMap<String, u64>,
}

impl RejectionCounters {
    pub closed spec fn view(&self) -> Map<Seq<char>, u64> {
        count_entries(self.counts)
    }

    /// The count of a reason, zero at first.
    pub open spec fn count_spec(&self, reason: Seq<char>) -> u64 {
        match self@.get(reason) {
            Some(n) => n,
            None => 0,
        }
    }

    /// No rejections.
    pub fn new() -> (c: RejectionCounters)
        ensures
            c@ == Map::<Seq<char>, u64>::empty(),
    {
        RejectionCounters { counts: new_counts() }
    }

    /// The count of a reason, zero at first.
    pub fn count(&self, reason: &str) -> (n: u64)
        ensures
            n == self.count_spec(reason@),
    {
        match get_count(&self.counts, reason) {
            Some(n) => n,
            None => 0,
        }
    }
}

/// Counts a rejection. A full counter starts again at zero.
pub fn increment_rejection(counters: &mut RejectionCounters, reason: &str)
    ensures
        final(counters)@ == old(counters)@.insert(
            reason@,
            if old(counters).count_spec(reason@) == u64::MAX {
                0u64
            } else {
                (old(counters).count_spec(reason@) + 1) as u64
            },
        ),
{
    let n: u64 = counters.count(reason);
    let next: u64 = if n == u64::MAX {
        0
    } else {
        n + 1
    };
    insert_count(&mut counters.counts, reason.to_owned(), next);
}

/// Latest values of a symbol.
#[derive(Debug, Clone, Copy, PartialEq, Eq, Structural)]
pub struct SymbolGauges {
    pub dynamic_entry_threshold: i128,
    pub dynamic_exit_threshold: i128,
    pub gross_spread: i128,
    pub effective_spread: i128,
    pub net_edge: i128,
    pub z_score: i128,
    pub signal_age_ms: i128,
}

/// Gauges that have not been set.
pub open spec fn unset_gauges() -> SymbolGauges {
    SymbolGauges {
        dynamic_entry_threshold: 0,
        dynamic_exit_threshold: 0,
        gross_spread: 0,
        effective_spread: 0,
        net_edge: 0,
        z_score: 0,
        signal_age_ms: 0,
    }
}

impl Default for SymbolGauges {
    fn default() -> (g: SymbolGauges)
        ensures
            g == unset_gauges(),
    {
        SymbolGauges {
            dynamic_entry_threshold: 0,
            dynamic_exit_threshold: 0,
            gross_spread: 0,
            effective_spread: 0,
            net_edge: 0,
            z_score: 0,
            signal_age_ms: 0,
        }
    }
}

/// Which gauge of a symbol.
#[derive(Debug, Clone, Copy, PartialEq, Eq, Structural)]
pub enum Gauge {
    DynamicEntryThreshold,
    DynamicExitThreshold,
    GrossSpread,
    EffectiveSpread,
    NetEdge,
    ZScore,
    SignalAgeMs,
}

impl SymbolGauges {
    /// The value of a gauge.
    pub open spec fn value(self, gauge: Gauge) -> i128 {
        match gauge {
            Gauge::DynamicEntryThreshold => self.dynamic_entry_threshold,
            Gauge::DynamicExitThreshold => self.dynamic_exit_threshold,
            Gauge::GrossSpread => self.gross_spread,
            Gauge::EffectiveSpread => self.effective_spread,
            Gauge::NetEdge => self.net_edge,
            Gauge::ZScore => self.z_score,
            Gauge::SignalAgeMs => self.signal_age_ms,
        }
    }

    fn read(&self, gauge: Gauge) -> (v: i128)
        ensures
            v == self.value(gauge),
    {
        match gauge {
            Gauge::DynamicEntryThreshold => self.dynamic_entry_threshold,
            Gauge::DynamicExitThreshold => self.dynamic_exit_threshold,
            Gauge::GrossSpread => self.gross_spread,
            Gauge::EffectiveSpread => self.effective_spread,
            Gauge::NetEdge => self.net_edge,
            Gauge::ZScore => self.z_score,
            Gauge::SignalAgeMs => self.signal_age_ms,
        }
    }

    fn write(&mut self, gauge: Gauge, v: i128)
        ensures
            final(self).value(gauge) == v,
            forall|other: Gauge|
                other != gauge ==> #[trigger] final(self).value(other) == old(self).value(other),
    {
        match gauge {
            Gauge::DynamicEntryThreshold => self.dynamic_entry_threshold = v,
            Gauge::DynamicExitThreshold => self.dynamic_exit_threshold = v,
            Gauge::GrossSpread => self.gross_spread = v,
            Gauge::EffectiveSpread => self.effective_spread = v,
            Gauge::NetEdge => self.net_edge = v,
            Gauge::ZScore => self.z_score = v,
            Gauge::SignalAgeMs => self.signal_age_ms = v,
        }
    }
}

/// What a map of gauges holds.
pub uninterp spec fn gauge_entries(m: DashMap<String, SymbolGauges>) -> Map<
    Seq<char>,
    SymbolGauges,
>;

/// `DashMap::new`: the map is empty.
#[verifier::external_body]
fn new_gauges() -> (m: DashMap<String, SymbolGauges>)
    ensures
        forall|k: Seq<char>| !gauge_entries(m).contains_key(k),
{
    DashMap::new()
}

/// `DashMap::get`: the value under the key, if there is one.
#[verifier::external_body]
fn get_gauges(m: &DashMap<String, SymbolGauges>, key: &str) -> (v: Option<SymbolGauges>)
    ensures
        v == gauge_entries(*m).get(key@),
{
    m.get(key).map(|r| *r.value())
}

/// `DashMap::insert`: the value stands under the key, the others stay.
#[verifier::external_body]
fn insert_gauges(m: &mut DashMap<String, SymbolGauges>, key: String, value: SymbolGauges)
    ensures
        gauge_entries(*final(m)) == gauge_entries(*old(m)).insert(key@, value),
{
    m.insert(key, value);
}

/// The gauges of all symbols.
pub struct GaugeBoard {
    gauges: DashMap<String, SymbolGauges>,
}

impl GaugeBoard {
    pub closed spec fn view(&self) -> Map<Seq<char>, SymbolGauges> {
        gauge_entries(self.gauges)
    }

    /// The gauges of a symbol, unset at first.
    pub open spec fn of(&self, symbol: Seq<char>) -> SymbolGauges {
        match self@.get(symbol) {
            Some(g) => g,
            None => unset_gauges(),
        }
    }

    /// No gauges.
    pub fn new() -> (b: GaugeBoard)
        ensures
            b@ == Map::<Seq<char>, SymbolGauges>::empty(),
    {
        GaugeBoard { gauges: new_gauges() }
    }
}

/// Sets a gauge of a symbol. Its other gauges and the other symbols stay.
pub fn set_gauge(board: &mut GaugeBoard, symbol: &str, gauge: Gauge, value: i128)
    ensures
        final(board)@.dom() == old(board)@.dom().insert(symbol@),
        final(board).of(symbol@).value(gauge) == value,
        forall|other: Gauge|
            other != gauge ==> #[trigger] final(board).of(symbol@).value(other) == old(board).of(
                symbol@,
            ).value(other),
        forall|k: Seq<char>|
            k != symbol@ ==> #[trigger] final(board)@.get(k) == old(board)@.get(k),
{
    let mut g = match get_gauges(&board.gauges, symbol) {
        Some(g) => g,
        None => SymbolGauges::default(),
    };
    g.write(gauge, value);
    insert_gauges(&mut board.gauges, symbol.to_owned(), g);
}

/// A gauge of a symbol, where the symbol has gauges.
pub fn get_gauge(board: &GaugeBoard, symbol: &str, gauge: Gauge) -> (r: Option<i128>)
    ensures
        r == match board@.get(symbol@) {
            Some(g) => Some(g.value(gauge)),
            None => None,
        },
{
    match get_gauges(&board.gauges, symbol) {
        Some(g) => Some(g.read(gauge)),
        None => None,
    }
}

} // verus!
