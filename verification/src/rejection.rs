//! Why a trading signal was turned down.
use vstd::prelude::*;

verus! {

/// The reasons for which an entry signal is rejected.
#[derive(Debug, Clone, Copy, PartialEq, Eq, Structural, Hash)]
#[allow(non_camel_case_types)]
pub enum RejectionReason {
    WARMUP,
    STALE_DATA,
    INSUFFICIENT_HISTORY,
    INSUFFICIENT_LIQUIDITY,
    SPREAD_BELOW_DYNAMIC_THRESHOLD,
    Z_SCORE_TOO_LOW,
    NET_EDGE_TOO_LOW,
    SIGNAL_TOO_OLD,
    SPREAD_COLLAPSING,
    RISK_LIMIT,
    COOLDOWN,
    INVALID_ORDERBOOK,
    DUPLICATE_POSITION,
    EXCHANGE_UNHEALTHY,
}

impl RejectionReason {
    /// The name under which the reason is logged and counted.
    pub open spec fn name_spec(self) -> Seq<char> {
        match self {
            RejectionReason::WARMUP => "WARMUP"@,
            RejectionReason::STALE_DATA => "STALE_DATA"@,
            RejectionReason::INSUFFICIENT_HISTORY => "INSUFFICIENT_HISTORY"@,
            RejectionReason::INSUFFICIENT_LIQUIDITY => "INSUFFICIENT_LIQUIDITY"@,
            RejectionReason::SPREAD_BELOW_DYNAMIC_THRESHOLD => "SPREAD_BELOW_DYNAMIC_THRESHOLD"@,
            RejectionReason::Z_SCORE_TOO_LOW => "Z_SCORE_TOO_LOW"@,
            RejectionReason::NET_EDGE_TOO_LOW => "NET_EDGE_TOO_LOW"@,
            RejectionReason::SIGNAL_TOO_OLD => "SIGNAL_TOO_OLD"@,
            RejectionReason::SPREAD_COLLAPSING => "SPREAD_COLLAPSING"@,
            RejectionReason::RISK_LIMIT => "RISK_LIMIT"@,
            RejectionReason::COOLDOWN => "COOLDOWN"@,
            RejectionReason::INVALID_ORDERBOOK => "INVALID_ORDERBOOK"@,
            RejectionReason::DUPLICATE_POSITION => "DUPLICATE_POSITION"@,
            RejectionReason::EXCHANGE_UNHEALTHY => "EXCHANGE_UNHEALTHY"@,
        }
    }

    /// The name under which the reason is logged and counted.
    pub fn name(&self) -> (s: &'static str)
        ensures
            s@ == self.name_spec(),
    {
        match *self {
            RejectionReason::WARMUP => "WARMUP",
            RejectionReason::STALE_DATA => "STALE_DATA",
            RejectionReason::INSUFFICIENT_HISTORY => "INSUFFICIENT_HISTORY",
            RejectionReason::INSUFFICIENT_LIQUIDITY => "INSUFFICIENT_LIQUIDITY",
            RejectionReason::SPREAD_BELOW_DYNAMIC_THRESHOLD => "SPREAD_BELOW_DYNAMIC_THRESHOLD",
            RejectionReason::Z_SCORE_TOO_LOW => "Z_SCORE_TOO_LOW",
            RejectionReason::NET_EDGE_TOO_LOW => "NET_EDGE_TOO_LOW",
            RejectionReason::SIGNAL_TOO_OLD => "SIGNAL_TOO_OLD",
            RejectionReason::SPREAD_COLLAPSING => "SPREAD_COLLAPSING",
            RejectionReason::RISK_LIMIT => "RISK_LIMIT",
            RejectionReason::COOLDOWN => "COOLDOWN",
            RejectionReason::INVALID_ORDERBOOK => "INVALID_ORDERBOOK",
            RejectionReason::DUPLICATE_POSITION => "DUPLICATE_POSITION",
            RejectionReason::EXCHANGE_UNHEALTHY => "EXCHANGE_UNHEALTHY",
        }
    }
}

} // verus!
