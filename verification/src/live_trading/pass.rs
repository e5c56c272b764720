//! One pass over the open positions: which of them are to be closed.
use super::scan::{enabled_prices, CloseSignal, Scanner};
use super::{LiveTradingEngine, OpenPosition};
use crate::clock::TimeOfDay;
use crate::config::{DynamicSpreadConfig, TradingParams};
use crate::funding::{is_near_funding, near_funding};
use crate::price_store::{
    age_of, fresh_prices_at, price_if_fresh, CoinPrices, ExchangeStatus, FundingStore, PriceStore,
};
use vstd::prelude::*;

verus! {

/// What is seen of the coin of an open position.
#[derive(Debug, Clone, Copy)]
pub struct Look {
    pub prices: CoinPrices,
    /// The current prices, where they are fresh and their exchange is enabled.
    pub binance: Option<u64>,
    pub bybit: Option<u64>,
    pub near_funding: bool,
}

/// A position that is to be closed, with the current spread and the dynamic exit
/// threshold.
#[derive(Debug, Clone)]
pub struct DueClose {
    pub coin: String,
    pub spread: i128,
    pub dynamic_exit: i128,
}

/// What one pass over the open positions finds.
pub struct ClosingPass {
    /// Positions that the statistics call for closing.
    pub due: Vec<DueClose>,
    /// Coins whose positions funding forces closed.
    pub forced: Vec<String>,
}

impl Scanner {
    /// What the scan says of an open position at a look. Where nothing is known of
    /// its coin, it is left alone.
    pub open spec fn signal_at(
        &self,
        p: OpenPosition,
        look: Option<Look>,
        params: TradingParams,
        now_ns: i64,
        config: DynamicSpreadConfig,
    ) -> CloseSignal {
        match look {
            Some(l) => self.signal_of(
                p,
                l.prices,
                l.binance,
                l.bybit,
                l.near_funding,
                params,
                now_ns as int,
                config,
            ),
            None => CloseSignal { close: None, force: false },
        }
    }

    /// The places, among the first `n`, of the positions that are to be closed.
    pub open spec fn due_places(
        &self,
        e: LiveTradingEngine,
        looks: Seq<Option<Look>>,
        now_ns: i64,
        config: DynamicSpreadConfig,
        n: int,
    ) -> Seq<int>
        decreases n,
    {
        if n <= 0 {
            seq![]
        } else {
            let before = self.due_places(e, looks, now_ns, config, n - 1);
            if self.signal_at(
                e.open_positions@[n - 1],
                looks[n - 1],
                e.params,
                now_ns,
                config,
            ).close is Some {
                before.push(n - 1)
            } else {
                before
            }
        }
    }

    /// The places, among the first `n`, of the positions that funding forces closed.
    pub open spec fn forced_places(
        &self,
        e: LiveTradingEngine,
        looks: Seq<Option<Look>>,
        now_ns: i64,
        config: DynamicSpreadConfig,
        n: int,
    ) -> Seq<int>
        decreases n,
    {
        if n <= 0 {
            seq![]
        } else {
            let before = self.forced_places(e, looks, now_ns, config, n - 1);
            if self.signal_at(
                e.open_positions@[n - 1],
                looks[n - 1],
                e.params,
                now_ns,
                config,
            ).force {
                before.push(n - 1)
            } else {
                before
            }
        }
    }

    /// Whether a pass over the first `n` positions found those that are to be closed.
    pub open spec fn found(
        &self,
        e: LiveTradingEngine,
        looks: Seq<Option<Look>>,
        now_ns: i64,
        config: DynamicSpreadConfig,
        n: int,
        due: Seq<DueClose>,
        forced: Seq<String>,
    ) -> bool {
        let d = self.due_places(e, looks, now_ns, config, n);
        let f = self.forced_places(e, looks, now_ns, config, n);
        &&& due.len() == d.len()
        &&& forall|i: int|
            0 <= i < due.len() ==> {
                let p = e.open_positions@[d[i]];
                &&& (#[trigger] due[i]).coin@ == p.coin@
                &&& self.signal_at(p, looks[d[i]], e.params, now_ns, config).close == Some(
                    (due[i].spread, due[i].dynamic_exit),
                )
            }
        &&& forced.len() == f.len()
        &&& forall|i: int|
            0 <= i < forced.len() ==> (#[trigger] forced[i])@ == e.open_positions@[f[i]].coin@
    }

    /// Which open positions are to be closed, given what is seen of their coins.
    pub fn collect_closes_at(
        &self,
        e: &LiveTradingEngine,
        looks: &Vec<Option<Look>>,
        now_ns: i64,
        config: &DynamicSpreadConfig,
    ) -> (r: ClosingPass)
        requires
            self.wf(),
            e.params.wf(),
            looks@.len() == e.open_positions@.len(),
            now_ns >= 0,
        ensures
            self.found(
                *e,
                looks@,
                now_ns,
                *config,
                looks@.len() as int,
                r.due@,
                r.forced@,
            ),
    {
        let mut due: Vec<DueClose> = Vec::new();
        let mut forced: Vec<String> = Vec::new();
        let mut i: usize = 0;
        while i < looks.len()
            invariant
                self.wf(),
                e.params.wf(),
                looks@.len() == e.open_positions@.len(),
                now_ns >= 0,
                i <= looks@.len(),
                self.found(*e, looks@, now_ns, *config, i as int, due@, forced@),
            decreases looks@.len() - i,
        {
            let p = &e.open_positions[i];
            let signal = match &looks[i] {
                Some(l) => self.close_signal(
                    p,
                    &l.prices,
                    l.binance,
                    l.bybit,
                    l.near_funding,
                    &e.params,
                    now_ns,
                    config,
                ),
                None => CloseSignal { close: None, force: false },
            };
            if let Some((spread, dynamic_exit)) = signal.close {
                due.push(DueClose { coin: p.coin.clone(), spread, dynamic_exit });
            }
            if signal.force {
                forced.push(p.coin.clone());
            }
            i = i + 1;
        }
        ClosingPass { due, forced }
    }
}

/// What is seen of a coin whose prices have the given ages, where they have any: a
/// price counts where it is fresh and its exchange is enabled.
pub open spec fn shown(
    prices: CoinPrices,
    ages: (Option<u128>, Option<u128>),
    status: ExchangeStatus,
    near_funding: bool,
) -> Look {
    Look {
        prices,
        binance: if status.binance_enabled {
            price_if_fresh(prices.binance, ages.0)
        } else {
            None
        },
        bybit: if status.bybit_enabled {
            price_if_fresh(prices.bybit, ages.1)
        } else {
            None
        },
        near_funding,
    }
}

impl Look {
    /// What is seen of a coin whose prices have the given ages, where they have any.
    pub fn seen(
        prices: CoinPrices,
        ages: (Option<u128>, Option<u128>),
        status: &ExchangeStatus,
        near_funding: bool,
    ) -> (look: Look)
        ensures
            look == shown(prices, ages, *status, near_funding),
    {
        let (binance, bybit) = enabled_prices(status, fresh_prices_at(&prices, ages.0, ages.1));
        Look { prices, binance, bybit, near_funding }
    }
}

/// Whether a look shows a coin as the stores hold it: nothing where the price store
/// does not know it, and prices only where their exchange is enabled, where they were
/// ever updated, and where they are fresh. How old they are and what time it is, is up
/// to the machine.
pub open spec fn look_shows(
    look: Option<Look>,
    coin: Seq<char>,
    store: PriceStore,
    status: ExchangeStatus,
    funding: FundingStore,
) -> bool {
    match look {
        None => !store@.contains_key(coin),
        Some(l) => {
            &&& store@.contains_key(coin)
            &&& !status.binance_enabled ==> l.binance is None
            &&& !status.bybit_enabled ==> l.bybit is None
            &&& l.prices.binance_updated is None ==> l.binance is None
            &&& l.prices.bybit_updated is None ==> l.bybit is None
            &&& exists|ages: (Option<u128>, Option<u128>)|
                {
                    &&& l == #[trigger] shown(store@[coin], ages, status, l.near_funding)
                    &&& ages.0 is Some <==> store@[coin].binance_updated is Some
                    &&& ages.1 is Some <==> store@[coin].bybit_updated is Some
                }
            &&& exists|now: TimeOfDay|
                #![trigger now.minute_of_day()]
                now.wf() && l.near_funding == near_funding(
                    funding.hours_spec(coin) as int,
                    now.minute_of_day(),
                )
        },
    }
}

/// What is seen of a coin now.
pub fn look_at(
    coin: &str,
    store: &PriceStore,
    status: &ExchangeStatus,
    funding: &FundingStore,
) -> (look: Option<Look>)
    ensures
        look_shows(look, coin@, *store, *status, *funding),
{
    match store.get(coin) {
        None => None,
        Some(prices) => {
            let ages = (age_of(prices.binance_updated), age_of(prices.bybit_updated));
            let near: bool = is_near_funding(coin, funding);
            let look = Look::seen(prices, ages, status, near);
            assert(look == shown(store@[coin@], ages, *status, look.near_funding));
            Some(look)
        },
    }
}

impl Scanner {
    /// Which open positions are to be closed now.
    pub fn collect_closes(
        &self,
        e: &LiveTradingEngine,
        store: &PriceStore,
        status: &ExchangeStatus,
        funding: &FundingStore,
        now_ns: i64,
        config: &DynamicSpreadConfig,
    ) -> (r: ClosingPass)
        requires
            self.wf(),
            e.params.wf(),
            now_ns >= 0,
        ensures
            exists|looks: Seq<Option<Look>>|
                {
                    &&& looks.len() == e.open_positions@.len()
                    &&& forall|i: int|
                        0 <= i < looks.len() ==> look_shows(
                            #[trigger] looks[i],
                            e.open_positions@[i].coin@,
                            *store,
                            *status,
                            *funding,
                        )
                    &&& #[trigger] self.found(
                        *e,
                        looks,
                        now_ns,
                        *config,
                        looks.len() as int,
                        r.due@,
                        r.forced@,
                    )
                },
    {
        let mut looks: Vec<Option<Look>> = Vec::new();
        let mut i: usize = 0;
        while i < e.open_positions.len()
            invariant
                i <= e.open_positions@.len(),
                looks@.len() == i,
                forall|j: int|
                    0 <= j < i ==> look_shows(
                        #[trigger] looks@[j],
                        e.open_positions@[j].coin@,
                        *store,
                        *status,
                        *funding,
                    ),
            decreases e.open_positions@.len() - i,
        {
            looks.push(look_at(e.open_positions[i].coin.as_str(), store, status, funding));
            i = i + 1;
        }
        self.collect_closes_at(e, &looks, now_ns, config)
    }
}

/// A position that a pass is to close was held long enough, and both its prices
/// were seen; so were they where funding forces it closed.
pub proof fn law_closes_are_seen_and_held(
    s: Scanner,
    p: OpenPosition,
    look: Option<Look>,
    params: TradingParams,
    now_ns: i64,
    config: DynamicSpreadConfig,
)
    ensures
        ({
            let signal = s.signal_at(p, look, params, now_ns, config);
            let bp = super::scan::price_on(look->Some_0.binance, look->Some_0.bybit, p.buy_exchange);
            let sp = super::scan::price_on(
                look->Some_0.binance,
                look->Some_0.bybit,
                p.sell_exchange,
            );
            &&& signal.close is Some ==> {
                &&& look is Some && bp is Some && sp is Some
                &&& crate::clock::seconds_between(p.open_time_ns as int, now_ns as int)
                    >= params.min_hold_secs
            }
            &&& signal.force ==> look is Some && bp is Some && sp is Some
                && look->Some_0.near_funding
        }),
{
}

} // verus!
