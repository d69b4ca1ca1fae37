use openthread::error::OTError;
use openthread::exchange::{AckInfo, ExchangeEvent, FrameExchange, TxOutcome};
use openthread::instance::OTInstance;
use openthread::radio::{
    Capabilities, OTFrameInformation, OTMacKeyMaterial, OTRadioFrame, OTRadioState, RadioIEInfo,
};

fn tx_frame(
    channel: u8,
    ack: bool,
    max_csma_backoffs: u8,
    max_frame_retries: u8,
    csma: bool,
    rx_after: u8,
    header_updated: bool,
) -> OTRadioFrame {
    let fc0: u8 = if ack { 0x61 } else { 0x41 };
    OTRadioFrame {
        psdu: vec![fc0, 0x88, 0x00],
        channel,
        radio_type: 0,
        frame_information: OTFrameInformation::TxInfo {
            aes_key: OTMacKeyMaterial::Key([0u8; 16]),
            io_info: RadioIEInfo {
                network_time_offset: 0,
                time_ie_offset: 0,
                time_sync_sequency: 0,
            },
            tx_delay_base_time: 0,
            tx_delay: 0,
            max_csma_backoffs,
            max_frame_retries,
            rx_channel_after_tx_done: rx_after,
            is_header_updated: header_updated,
            is_a_retx: false,
            csma_ca_enabled: csma,
            csl_present: false,
            is_security_processed: false,
        },
    }
}

fn an_ack() -> AckInfo {
    AckInfo {
        timestamp: 99,
        frame_counter: 0,
        key_id: 0,
        rssi: -51,
        lqi: 180,
        frame_pending: true,
        security_enhanced: false,
    }
}

#[test]
fn busy_channel_with_no_backoff_budget_fails_after_one_assessment() {
    // max_csma_backoffs = 0 and a persistently busy channel: the exchange
    // completes with ChannelAccessFailure after exactly one assessment.
    let mut inst = OTInstance::new(0, 0, 0);
    inst.enable().unwrap();
    inst.receive(11).unwrap();
    inst.transmit(tx_frame(11, false, 0, 0, true, 0, false)).unwrap();
    let done = inst
        .on_exchange_event(ExchangeEvent::CcaResult { busy: true })
        .unwrap()
        .expect("terminal completion");
    assert!(matches!(done.outcome, TxOutcome::ChannelAccessFailure));
    assert!(matches!(done.error(), Some(OTError::ChannelAccessFailure)));
}

#[test]
fn csma_backoffs_are_counted_against_the_budget() {
    // two backoffs allowed: the third busy assessment fails the exchange
    let mut ex = FrameExchange::new(0, tx_frame(11, false, 2, 0, true, 0, false));
    assert!(ex.step(ExchangeEvent::CcaResult { busy: true }).is_none());
    assert!(ex.step(ExchangeEvent::CcaResult { busy: true }).is_none());
    let out = ex.step(ExchangeEvent::CcaResult { busy: true });
    assert!(matches!(out, Some(TxOutcome::ChannelAccessFailure)));
    assert_eq!(ex.cca_attempts, 3);
    assert_eq!(ex.tx_attempts, 0);
}

#[test]
fn clear_channel_proceeds_to_transmission() {
    let mut ex = FrameExchange::new(0, tx_frame(11, false, 2, 0, true, 0, false));
    assert!(ex.step(ExchangeEvent::CcaResult { busy: true }).is_none());
    assert!(ex.step(ExchangeEvent::CcaResult { busy: false }).is_none());
    assert_eq!(ex.cca_attempts, 2);
    assert_eq!(ex.tx_attempts, 1);
    let out = ex.step(ExchangeEvent::TxCompleted);
    assert!(matches!(out, Some(TxOutcome::Success(None))));
}

#[test]
fn no_ack_within_timeout_reaches_post_exchange_channel() {
    // an ack-requested transmit whose ack never arrives completes with NoAck,
    // and the radio subsequently reaches the configured post-exchange channel
    let caps = Capabilities::TransmitRetries.mask();
    let mut inst = OTInstance::new(caps, 0, 0);
    inst.enable().unwrap();
    inst.receive(11).unwrap();
    inst.transmit(tx_frame(11, true, 0, 0, false, 25, false)).unwrap();
    assert!(inst.on_exchange_event(ExchangeEvent::TxCompleted).unwrap().is_none());
    let done = inst
        .on_exchange_event(ExchangeEvent::AckTimeout)
        .unwrap()
        .expect("terminal completion");
    assert!(matches!(done.outcome, TxOutcome::NoAck));
    assert!(matches!(done.error(), Some(OTError::NoAck)));
    assert!(matches!(inst.get_state(), OTRadioState::Receive));
    assert_eq!(inst.channel, 25);
}

#[test]
fn post_exchange_channel_is_ignored_without_hardware_retries() {
    let mut inst = OTInstance::new(0, 0, 0);
    inst.enable().unwrap();
    inst.receive(11).unwrap();
    inst.transmit(tx_frame(11, true, 0, 0, false, 25, false)).unwrap();
    assert!(inst.on_exchange_event(ExchangeEvent::TxCompleted).unwrap().is_none());
    let done = inst
        .on_exchange_event(ExchangeEvent::AckTimeout)
        .unwrap()
        .expect("terminal completion");
    assert!(matches!(done.outcome, TxOutcome::NoAck));
    assert_eq!(inst.channel, 11);
}

#[test]
fn hardware_retries_repeat_transmit_and_ack_wait_only() {
    let caps = Capabilities::TransmitRetries.mask();
    let mut ex = FrameExchange::new(caps, tx_frame(11, true, 3, 2, true, 0, false));
    // one clear assessment, then the first physical attempt
    assert!(ex.step(ExchangeEvent::CcaResult { busy: false }).is_none());
    assert_eq!(ex.tx_attempts, 1);
    assert!(!ex.is_retransmission());
    assert!(ex.step(ExchangeEvent::TxCompleted).is_none());
    // first timeout: retry without further CCA
    assert!(ex.step(ExchangeEvent::AckTimeout).is_none());
    assert_eq!(ex.cca_attempts, 1);
    assert_eq!(ex.tx_attempts, 2);
    assert!(ex.is_retransmission());
    assert!(ex.step(ExchangeEvent::TxCompleted).is_none());
    // an invalid frame in the ack window is retryable too
    assert!(ex.step(ExchangeEvent::AckInvalid).is_none());
    assert_eq!(ex.tx_attempts, 3);
    assert!(ex.step(ExchangeEvent::TxCompleted).is_none());
    // the retry budget (2) is spent: the third timeout is terminal
    let out = ex.step(ExchangeEvent::AckTimeout);
    assert!(matches!(out, Some(TxOutcome::NoAck)));
}

#[test]
fn no_retries_without_the_capability() {
    let mut ex = FrameExchange::new(0, tx_frame(11, true, 0, 5, false, 0, false));
    assert!(ex.step(ExchangeEvent::TxCompleted).is_none());
    // the upper layer is responsible for resubmission: terminal at once
    let out = ex.step(ExchangeEvent::AckTimeout);
    assert!(matches!(out, Some(TxOutcome::NoAck)));
    assert_eq!(ex.tx_attempts, 1);
}

#[test]
fn ack_success_carries_the_ack_information() {
    let mut ex = FrameExchange::new(0, tx_frame(11, true, 0, 0, false, 0, false));
    assert!(ex.step(ExchangeEvent::TxCompleted).is_none());
    let out = ex.step(ExchangeEvent::AckReceived(an_ack()));
    match out {
        Some(TxOutcome::Success(Some(info))) => {
            assert_eq!(info.rssi, -51);
            assert!(info.frame_pending);
        },
        _ => panic!("expected a success with the ack present"),
    }
}

#[test]
fn ack_receive_metadata_guards_security_fields() {
    let mut enhanced = an_ack();
    enhanced.security_enhanced = true;
    enhanced.frame_counter = 42;
    enhanced.key_id = 3;
    match enhanced.to_rx_info() {
        OTFrameInformation::RxInfo { ack_frame_counter, ack_key_id, acked_with_sec_enh_ack, .. } => {
            assert_eq!(ack_frame_counter, 42);
            assert_eq!(ack_key_id, 3);
            assert!(acked_with_sec_enh_ack);
        },
        _ => panic!("expected receive metadata"),
    }
    let mut bare = an_ack();
    bare.security_enhanced = false;
    bare.frame_counter = 42;
    bare.key_id = 3;
    match bare.to_rx_info() {
        OTFrameInformation::RxInfo {
            ack_frame_counter,
            ack_key_id,
            acked_with_sec_enh_ack,
            rssi,
            lqi,
            acked_with_frame_pending,
            timestamp,
        } => {
            // the security fields are valid only with an enhanced ack
            assert_eq!(ack_frame_counter, 0);
            assert_eq!(ack_key_id, 0);
            assert!(!acked_with_sec_enh_ack);
            assert_eq!(rssi, -51);
            assert_eq!(lqi, 180);
            assert!(acked_with_frame_pending);
            assert_eq!(timestamp, 99);
        },
        _ => panic!("expected receive metadata"),
    }
}

#[test]
fn security_counter_advances_once_per_physical_attempt() {
    let caps = Capabilities::TransmitRetries.mask();
    let mut ex = FrameExchange::new(caps, tx_frame(11, true, 0, 3, false, 0, false));
    assert_eq!(ex.counter_advances, 1);
    ex.step(ExchangeEvent::TxCompleted);
    ex.step(ExchangeEvent::AckTimeout);
    assert_eq!(ex.counter_advances, 2);
    ex.step(ExchangeEvent::TxCompleted);
    ex.step(ExchangeEvent::AckTimeout);
    assert_eq!(ex.counter_advances, 3);
    assert_eq!(ex.counter_advances, ex.tx_attempts);
}

#[test]
fn updated_header_preserves_the_assigned_counter() {
    let caps = Capabilities::TransmitRetries.mask();
    let mut ex = FrameExchange::new(caps, tx_frame(11, true, 0, 3, false, 0, true));
    assert_eq!(ex.counter_advances, 0);
    ex.step(ExchangeEvent::TxCompleted);
    ex.step(ExchangeEvent::AckTimeout);
    ex.step(ExchangeEvent::TxCompleted);
    ex.step(ExchangeEvent::AckTimeout);
    assert_eq!(ex.counter_advances, 0);
}

#[test]
fn unexpected_events_are_refused_mid_exchange() {
    let mut inst = OTInstance::new(0, 0, 0);
    inst.enable().unwrap();
    inst.receive(11).unwrap();
    // software CSMA first: a TxCompleted before any CCA result is refused
    inst.transmit(tx_frame(11, false, 1, 0, true, 0, false)).unwrap();
    let r = inst.on_exchange_event(ExchangeEvent::TxCompleted);
    assert!(matches!(r, Err(OTError::InvalidState)));
    // the exchange is still in flight and absorbs its proper event
    let done = inst.on_exchange_event(ExchangeEvent::CcaResult { busy: false });
    assert!(done.unwrap().is_none());
}
