//! Alerts, at most one a minute.
use vstd::prelude::*;

verus! {

/// Milliseconds during which further alerts are dropped.
pub const ALERT_PAUSE_MS: u64 = 60_000;

/// When the last alert went out.
#[derive(Debug, Clone, Copy, PartialEq, Eq, Structural)]
pub struct AlertThrottle {
    pub last_ms: Option<u64>,
}

impl AlertThrottle {
    /// Whether an alert at a time comes too soon after the last one.
    pub open spec fn too_soon(self, now_ms: int) -> bool {
        match self.last_ms {
            Some(l) => crate::stats::less(now_ms, l as int) < ALERT_PAUSE_MS,
            None => false,
        }
    }

    /// No alert has gone out.
    pub fn new() -> (t: AlertThrottle)
        ensures
            t.last_ms is None,
    {
        AlertThrottle { last_ms: None }
    }

    /// The text of an alert at a time, nothing where it comes too soon. An alert
    /// that goes out is noted.
    pub fn send_alert(&mut self, msg: &str, now_ms: u64) -> (r: Option<String>)
        ensures
            match r {
                Some(text) => {
                    &&& !old(self).too_soon(now_ms as int)
                    &&& text@ == "[ALERT] "@ + msg@
                    &&& final(self).last_ms == Some(now_ms)
                },
                None => old(self).too_soon(now_ms as int) && *final(self) == *old(self),
            },
    {
        if let Some(l) = self.last_ms {
            if now_ms.saturating_sub(l) < ALERT_PAUSE_MS {
                return None;
            }
        }
        self.last_ms = Some(now_ms);
        let mut text = "[ALERT] ".to_owned();
        text.append(msg);
        Some(text)
    }
}

/// Two alerts that go out lie at least a minute apart.
pub proof fn law_alerts_apart(t: AlertThrottle, now_ms: int)
    requires
        t.last_ms is Some,
        now_ms >= t.last_ms->Some_0,
        !t.too_soon(now_ms),
    ensures
        now_ms - t.last_ms->Some_0 >= 60_000,
{
}

} // verus!
