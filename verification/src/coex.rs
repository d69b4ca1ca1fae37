//! Coexistence monitor.
//!
//! A fixed set of monotonically non-decreasing counters describing
//! radio/external-arbiter contention, plus a `stopped` flag that is set once
//! any counter saturates. While `stopped` is true no counter changes until an
//! explicit metrics reset. The values are driver-contributed and surfaced
//! read-only to the core.

use vstd::prelude::*;
use crate::radio::OTRadioCoexMetrics;

verus! {

/// One coexistence event reported by the driver; each kind feeds one counter
/// of [`OTRadioCoexMetrics`].
#[derive(Clone, Copy, Debug, PartialEq, Eq, Structural)]
pub enum CoexEvent {
    GrantGlitch,
    TxRequest,
    TxGrantImmediate,
    TxGrantWait,
    TxGrantWaitActivated,
    TxGrantWaitTimeout,
    TxGrantDeactivatedDuringRequest,
    TxDelayedGrant,
    RxRequest,
    RxGrantImmediate,
    RxGrantWait,
    RxGrantWaitActivated,
    RxGrantWaitTimeout,
    RxGrantDeactivatedDuringRequest,
    RxDelayedGrant,
    RxGrantNone,
}

/// The counter of `m` that `e` feeds.
pub open spec fn spec_counter(m: OTRadioCoexMetrics, e: CoexEvent) -> u32 {
    match e {
        CoexEvent::GrantGlitch => m.num_grant_glitch,
        CoexEvent::TxRequest => m.num_tx_request,
        CoexEvent::TxGrantImmediate => m.num_tx_grant_immediate,
        CoexEvent::TxGrantWait => m.num_tx_grant_wait,
        CoexEvent::TxGrantWaitActivated => m.num_tx_grant_wait_activated,
        CoexEvent::TxGrantWaitTimeout => m.num_tx_grant_wait_timeout,
        CoexEvent::TxGrantDeactivatedDuringRequest => m.num_tx_grant_deactivated_during_request,
        CoexEvent::TxDelayedGrant => m.num_tx_delayed_grant,
        CoexEvent::RxRequest => m.num_rx_request,
        CoexEvent::RxGrantImmediate => m.num_rx_grant_immediate,
        CoexEvent::RxGrantWait => m.num_rx_grant_wait,
        CoexEvent::RxGrantWaitActivated => m.num_rx_grant_wait_activated,
        CoexEvent::RxGrantWaitTimeout => m.num_rx_grant_wait_timeout,
        CoexEvent::RxGrantDeactivatedDuringRequest => m.num_rx_grant_deactivated_during_request,
        CoexEvent::RxDelayedGrant => m.num_rx_delayed_grant,
        CoexEvent::RxGrantNone => m.num_rx_grant_none,
    }
}

/// `m` with the counter that `e` feeds replaced by `v`.
pub open spec fn spec_with_counter(m: OTRadioCoexMetrics, e: CoexEvent, v: u32) -> OTRadioCoexMetrics {
    match e {
        CoexEvent::GrantGlitch => OTRadioCoexMetrics { num_grant_glitch: v, ..m },
        CoexEvent::TxRequest => OTRadioCoexMetrics { num_tx_request: v, ..m },
        CoexEvent::TxGrantImmediate => OTRadioCoexMetrics { num_tx_grant_immediate: v, ..m },
        CoexEvent::TxGrantWait => OTRadioCoexMetrics { num_tx_grant_wait: v, ..m },
        CoexEvent::TxGrantWaitActivated => OTRadioCoexMetrics {
            num_tx_grant_wait_activated: v,
            ..m
        },
        CoexEvent::TxGrantWaitTimeout => OTRadioCoexMetrics { num_tx_grant_wait_timeout: v, ..m },
        CoexEvent::TxGrantDeactivatedDuringRequest => OTRadioCoexMetrics {
            num_tx_grant_deactivated_during_request: v,
            ..m
        },
        CoexEvent::TxDelayedGrant => OTRadioCoexMetrics { num_tx_delayed_grant: v, ..m },
        CoexEvent::RxRequest => OTRadioCoexMetrics { num_rx_request: v, ..m },
        CoexEvent::RxGrantImmediate => OTRadioCoexMetrics { num_rx_grant_immediate: v, ..m },
        CoexEvent::RxGrantWait => OTRadioCoexMetrics { num_rx_grant_wait: v, ..m },
        CoexEvent::RxGrantWaitActivated => OTRadioCoexMetrics {
            num_rx_grant_wait_activated: v,
            ..m
        },
        CoexEvent::RxGrantWaitTimeout => OTRadioCoexMetrics { num_rx_grant_wait_timeout: v, ..m },
        CoexEvent::RxGrantDeactivatedDuringRequest => OTRadioCoexMetrics {
            num_rx_grant_deactivated_during_request: v,
            ..m
        },
        CoexEvent::RxDelayedGrant => OTRadioCoexMetrics { num_rx_delayed_grant: v, ..m },
        CoexEvent::RxGrantNone => OTRadioCoexMetrics { num_rx_grant_none: v, ..m },
    }
}

/// The metrics after one driver event: unchanged once stopped; stopped
/// (and otherwise unchanged) when the fed counter would overflow; otherwise
/// the fed counter is one higher.
pub open spec fn spec_record(m: OTRadioCoexMetrics, e: CoexEvent) -> OTRadioCoexMetrics {
    if m.stopped {
        m
    } else if spec_counter(m, e) == u32::MAX {
        OTRadioCoexMetrics { stopped: true, ..m }
    } else {
        spec_with_counter(m, e, (spec_counter(m, e) + 1) as u32)
    }
}

/// The metrics after a whole sequence of driver events.
pub open spec fn spec_record_all(m: OTRadioCoexMetrics, events: Seq<CoexEvent>) -> OTRadioCoexMetrics
    decreases events.len(),
{
    if events.len() == 0 {
        m
    } else {
        spec_record_all(spec_record(m, events[0]), events.skip(1))
    }
}

/// Every counter of `a` is at most the matching counter of `b`.
pub open spec fn counters_leq(a: OTRadioCoexMetrics, b: OTRadioCoexMetrics) -> bool {
    &&& a.num_grant_glitch <= b.num_grant_glitch
    &&& a.num_tx_request <= b.num_tx_request
    &&& a.num_tx_grant_immediate <= b.num_tx_grant_immediate
    &&& a.num_tx_grant_wait <= b.num_tx_grant_wait
    &&& a.num_tx_grant_wait_activated <= b.num_tx_grant_wait_activated
    &&& a.num_tx_grant_wait_timeout <= b.num_tx_grant_wait_timeout
    &&& a.num_tx_grant_deactivated_during_request <= b.num_tx_grant_deactivated_during_request
    &&& a.num_tx_delayed_grant <= b.num_tx_delayed_grant
    &&& a.num_rx_request <= b.num_rx_request
    &&& a.num_rx_grant_immediate <= b.num_rx_grant_immediate
    &&& a.num_rx_grant_wait <= b.num_rx_grant_wait
    &&& a.num_rx_grant_wait_activated <= b.num_rx_grant_wait_activated
    &&& a.num_rx_grant_wait_timeout <= b.num_rx_grant_wait_timeout
    &&& a.num_rx_grant_deactivated_during_request <= b.num_rx_grant_deactivated_during_request
    &&& a.num_rx_delayed_grant <= b.num_rx_delayed_grant
    &&& a.num_rx_grant_none <= b.num_rx_grant_none
}

/// Metrics with every counter zero and collection running.
pub open spec fn spec_zero_metrics() -> OTRadioCoexMetrics {
    OTRadioCoexMetrics {
        num_grant_glitch: 0,
        num_tx_request: 0,
        num_tx_grant_immediate: 0,
        num_tx_grant_wait: 0,
        num_tx_grant_wait_activated: 0,
        num_tx_grant_wait_timeout: 0,
        num_tx_grant_deactivated_during_request: 0,
        num_tx_delayed_grant: 0,
        avg_tx_request_to_grant_time: 0,
        num_rx_request: 0,
        num_rx_grant_immediate: 0,
        num_rx_grant_wait: 0,
        num_rx_grant_wait_activated: 0,
        num_rx_grant_wait_timeout: 0,
        num_rx_grant_deactivated_during_request: 0,
        num_rx_delayed_grant: 0,
        avg_rx_request_to_grant_time: 0,
        num_rx_grant_none: 0,
        stopped: false,
    }
}

/// Coexistence monitor: the enable flag plus the accumulated metrics.
pub struct CoexMonitor {
    /// Whether radio coexistence is enabled
    pub enabled: bool,
    /// The accumulated contention counters
    pub metrics: OTRadioCoexMetrics,
}

impl CoexMonitor {
    /// Creates a disabled monitor with zeroed metrics.
    pub fn new() -> (m: Self)
        ensures
            !m.enabled,
            m.metrics == spec_zero_metrics(),
    {
        CoexMonitor { enabled: false, metrics: zero_metrics() }
    }

    /// Enables or disables radio coexistence.
    pub fn set_enabled(&mut self, enabled: bool)
        ensures
            *final(self) == (Self { enabled, ..*old(self) }),
    {
        self.enabled = enabled;
    }

    /// Returns whether radio coexistence is enabled.
    pub fn is_enabled(&self) -> (r: bool)
        ensures
            r == self.enabled,
    {
        self.enabled
    }

    /// Returns a copy of the accumulated metrics.
    pub fn metrics(&self) -> (m: OTRadioCoexMetrics)
        ensures
            m == self.metrics,
    {
        self.metrics
    }

    /// Accounts one driver-contributed contention event. Counting stops for
    /// good — until [`Self::reset_metrics`] — once any counter saturates, and
    /// a disabled monitor does not count; counters never decrease.
    pub fn record(&mut self, event: CoexEvent)
        ensures
            final(self).enabled == old(self).enabled,
            old(self).enabled ==> final(self).metrics == spec_record(old(self).metrics, event),
            !old(self).enabled ==> final(self).metrics == old(self).metrics,
            counters_leq(old(self).metrics, final(self).metrics),
            old(self).metrics.stopped ==> final(self).metrics == old(self).metrics,
    {
        if !self.enabled || self.metrics.stopped {
            return;
        }
        let c = self.counter(event);
        if c == u32::MAX {
            self.metrics.stopped = true;
        } else {
            self.set_counter(event, c + 1);
        }
    }

    /// Zeroes every counter and resumes collection.
    pub fn reset_metrics(&mut self)
        ensures
            final(self).enabled == old(self).enabled,
            final(self).metrics == spec_zero_metrics(),
            !final(self).metrics.stopped,
    {
        self.metrics = zero_metrics();
    }

    /// Reads the counter that `event` feeds.
    fn counter(&self, event: CoexEvent) -> (r: u32)
        ensures
            r == spec_counter(self.metrics, event),
    {
        match event {
            CoexEvent::GrantGlitch => self.metrics.num_grant_glitch,
            CoexEvent::TxRequest => self.metrics.num_tx_request,
            CoexEvent::TxGrantImmediate => self.metrics.num_tx_grant_immediate,
            CoexEvent::TxGrantWait => self.metrics.num_tx_grant_wait,
            CoexEvent::TxGrantWaitActivated => self.metrics.num_tx_grant_wait_activated,
            CoexEvent::TxGrantWaitTimeout => self.metrics.num_tx_grant_wait_timeout,
            CoexEvent::TxGrantDeactivatedDuringRequest => {
                self.metrics.num_tx_grant_deactivated_during_request
            },
            CoexEvent::TxDelayedGrant => self.metrics.num_tx_delayed_grant,
            CoexEvent::RxRequest => self.metrics.num_rx_request,
            CoexEvent::RxGrantImmediate => self.metrics.num_rx_grant_immediate,
            CoexEvent::RxGrantWait => self.metrics.num_rx_grant_wait,
            CoexEvent::RxGrantWaitActivated => self.metrics.num_rx_grant_wait_activated,
            CoexEvent::RxGrantWaitTimeout => self.metrics.num_rx_grant_wait_timeout,
            CoexEvent::RxGrantDeactivatedDuringRequest => {
                self.metrics.num_rx_grant_deactivated_during_request
            },
            CoexEvent::RxDelayedGrant => self.metrics.num_rx_delayed_grant,
            CoexEvent::RxGrantNone => self.metrics.num_rx_grant_none,
        }
    }

    /// Writes the counter that `event` feeds.
    fn set_counter(&mut self, event: CoexEvent, v: u32)
        ensures
            final(self).enabled == old(self).enabled,
            final(self).metrics == spec_with_counter(old(self).metrics, event, v),
    {
        match event {
            CoexEvent::GrantGlitch => self.metrics.num_grant_glitch = v,
            CoexEvent::TxRequest => self.metrics.num_tx_request = v,
            CoexEvent::TxGrantImmediate => self.metrics.num_tx_grant_immediate = v,
            CoexEvent::TxGrantWait => self.metrics.num_tx_grant_wait = v,
            CoexEvent::TxGrantWaitActivated => self.metrics.num_tx_grant_wait_activated = v,
            CoexEvent::TxGrantWaitTimeout => self.metrics.num_tx_grant_wait_timeout = v,
            CoexEvent::TxGrantDeactivatedDuringRequest => {
                self.metrics.num_tx_grant_deactivated_during_request = v
            },
            CoexEvent::TxDelayedGrant => self.metrics.num_tx_delayed_grant = v,
            CoexEvent::RxRequest => self.metrics.num_rx_request = v,
            CoexEvent::RxGrantImmediate => self.metrics.num_rx_grant_immediate = v,
            CoexEvent::RxGrantWait => self.metrics.num_rx_grant_wait = v,
            CoexEvent::RxGrantWaitActivated => self.metrics.num_rx_grant_wait_activated = v,
            CoexEvent::RxGrantWaitTimeout => self.metrics.num_rx_grant_wait_timeout = v,
            CoexEvent::RxGrantDeactivatedDuringRequest => {
                self.metrics.num_rx_grant_deactivated_during_request = v
            },
            CoexEvent::RxDelayedGrant => self.metrics.num_rx_delayed_grant = v,
            CoexEvent::RxGrantNone => self.metrics.num_rx_grant_none = v,
        }
    }
}

/// Builds the zeroed metrics value.
pub fn zero_metrics() -> (m: OTRadioCoexMetrics)
    ensures
        m == spec_zero_metrics(),
{
    OTRadioCoexMetrics {
        num_grant_glitch: 0,
        num_tx_request: 0,
        num_tx_grant_immediate: 0,
        num_tx_grant_wait: 0,
        num_tx_grant_wait_activated: 0,
        num_tx_grant_wait_timeout: 0,
        num_tx_grant_deactivated_during_request: 0,
        num_tx_delayed_grant: 0,
        avg_tx_request_to_grant_time: 0,
        num_rx_request: 0,
        num_rx_grant_immediate: 0,
        num_rx_grant_wait: 0,
        num_rx_grant_wait_activated: 0,
        num_rx_grant_wait_timeout: 0,
        num_rx_grant_deactivated_during_request: 0,
        num_rx_delayed_grant: 0,
        avg_rx_request_to_grant_time: 0,
        num_rx_grant_none: 0,
        stopped: false,
    }
}

/// Counters are monotonically non-decreasing over any sequence of events
/// between resets.
pub proof fn lemma_record_all_monotone(m: OTRadioCoexMetrics, events: Seq<CoexEvent>)
    ensures
        counters_leq(m, spec_record_all(m, events)),
    decreases events.len(),
{
    if events.len() > 0 {
        lemma_record_all_monotone(spec_record(m, events[0]), events.skip(1));
    }
}

/// Once `stopped` is true, no sequence of events changes the metrics until an
/// explicit metrics reset.
pub proof fn lemma_stopped_frozen(m: OTRadioCoexMetrics, events: Seq<CoexEvent>)
    requires
        m.stopped,
    ensures
        spec_record_all(m, events) == m,
    decreases events.len(),
{
    if events.len() > 0 {
        lemma_stopped_frozen(m, events.skip(1));
    }
}

} // verus!
