use openthread::coex::{CoexEvent, CoexMonitor};
use openthread::instance::OTInstance;

#[test]
fn disabled_monitor_counts_nothing() {
    let mut m = CoexMonitor::new();
    m.record(CoexEvent::TxRequest);
    assert_eq!(m.metrics().num_tx_request, 0);
}

#[test]
fn counters_increase_monotonically() {
    let mut m = CoexMonitor::new();
    m.set_enabled(true);
    assert!(m.is_enabled());
    let mut last: u32 = 0;
    for _ in 0..5 {
        m.record(CoexEvent::TxRequest);
        let now = m.metrics().num_tx_request;
        assert!(now >= last);
        last = now;
    }
    assert_eq!(last, 5);
    m.record(CoexEvent::GrantGlitch);
    m.record(CoexEvent::RxGrantNone);
    let snap = m.metrics();
    assert_eq!(snap.num_grant_glitch, 1);
    assert_eq!(snap.num_rx_grant_none, 1);
    assert_eq!(snap.num_tx_request, 5);
    assert!(!snap.stopped);
}

#[test]
fn saturation_stops_collection_until_reset() {
    let mut m = CoexMonitor::new();
    m.set_enabled(true);
    m.metrics.num_rx_request = u32::MAX;
    m.record(CoexEvent::TxRequest);
    assert_eq!(m.metrics().num_tx_request, 1);
    // the rx request counter saturates: collection stops
    m.record(CoexEvent::RxRequest);
    assert!(m.metrics().stopped);
    assert_eq!(m.metrics().num_rx_request, u32::MAX);
    // once stopped, no counter changes
    m.record(CoexEvent::TxRequest);
    m.record(CoexEvent::GrantGlitch);
    assert_eq!(m.metrics().num_tx_request, 1);
    assert_eq!(m.metrics().num_grant_glitch, 0);
    assert!(m.metrics().stopped);
    // an explicit reset resumes collection from zero
    m.reset_metrics();
    assert!(!m.metrics().stopped);
    assert_eq!(m.metrics().num_rx_request, 0);
    m.record(CoexEvent::TxRequest);
    assert_eq!(m.metrics().num_tx_request, 1);
}

#[test]
fn every_event_kind_feeds_its_own_counter() {
    let mut m = CoexMonitor::new();
    m.set_enabled(true);
    m.record(CoexEvent::GrantGlitch);
    m.record(CoexEvent::TxRequest);
    m.record(CoexEvent::TxGrantImmediate);
    m.record(CoexEvent::TxGrantWait);
    m.record(CoexEvent::TxGrantWaitActivated);
    m.record(CoexEvent::TxGrantWaitTimeout);
    m.record(CoexEvent::TxGrantDeactivatedDuringRequest);
    m.record(CoexEvent::TxDelayedGrant);
    m.record(CoexEvent::RxRequest);
    m.record(CoexEvent::RxGrantImmediate);
    m.record(CoexEvent::RxGrantWait);
    m.record(CoexEvent::RxGrantWaitActivated);
    m.record(CoexEvent::RxGrantWaitTimeout);
    m.record(CoexEvent::RxGrantDeactivatedDuringRequest);
    m.record(CoexEvent::RxDelayedGrant);
    m.record(CoexEvent::RxGrantNone);
    let s = m.metrics();
    assert_eq!(s.num_grant_glitch, 1);
    assert_eq!(s.num_tx_request, 1);
    assert_eq!(s.num_tx_grant_immediate, 1);
    assert_eq!(s.num_tx_grant_wait, 1);
    assert_eq!(s.num_tx_grant_wait_activated, 1);
    assert_eq!(s.num_tx_grant_wait_timeout, 1);
    assert_eq!(s.num_tx_grant_deactivated_during_request, 1);
    assert_eq!(s.num_tx_delayed_grant, 1);
    assert_eq!(s.num_rx_request, 1);
    assert_eq!(s.num_rx_grant_immediate, 1);
    assert_eq!(s.num_rx_grant_wait, 1);
    assert_eq!(s.num_rx_grant_wait_activated, 1);
    assert_eq!(s.num_rx_grant_wait_timeout, 1);
    assert_eq!(s.num_rx_grant_deactivated_during_request, 1);
    assert_eq!(s.num_rx_delayed_grant, 1);
    assert_eq!(s.num_rx_grant_none, 1);
    assert_eq!(s.avg_tx_request_to_grant_time, 0);
    assert_eq!(s.avg_rx_request_to_grant_time, 0);
    assert!(!s.stopped);
}

#[test]
fn instance_coex_entry_points() {
    let mut inst = OTInstance::new(0, 0, 0);
    assert!(!inst.is_coex_enabled());
    assert!(inst.set_coex_enabled(true).is_ok());
    assert!(inst.is_coex_enabled());
    inst.record_coex_event(CoexEvent::TxRequest);
    assert_eq!(inst.get_coex_metrics().num_tx_request, 1);
    inst.reset_coex_metrics();
    assert_eq!(inst.get_coex_metrics().num_tx_request, 0);
}
