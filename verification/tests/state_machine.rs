use openthread::error::OTError;
use openthread::exchange::{ExchangeEvent, AckInfo, TxOutcome};
use openthread::instance::{EnergyScanResult, OTInstance, PendingOp};
use openthread::radio::{
    Capabilities, OTFrameInformation, OTMacKeyMaterial, OTRadioFrame, OTRadioState, RadioIEInfo,
};

fn tx_frame(
    channel: u8,
    ack: bool,
    max_csma_backoffs: u8,
    max_frame_retries: u8,
    csma: bool,
    rx_after: u8,
) -> OTRadioFrame {
    let fc0: u8 = if ack { 0x61 } else { 0x41 };
    OTRadioFrame {
        psdu: vec![fc0, 0x88, 0x00],
        channel,
        radio_type: 0,
        frame_information: OTFrameInformation::TxInfo {
            aes_key: OTMacKeyMaterial::Key([0u8; 16]),
            io_info: RadioIEInfo {
                network_time_offset: 0,
                time_ie_offset: 0,
                time_sync_sequency: 0,
            },
            tx_delay_base_time: 0,
            tx_delay: 0,
            max_csma_backoffs,
            max_frame_retries,
            rx_channel_after_tx_done: rx_after,
            is_header_updated: false,
            is_a_retx: false,
            csma_ca_enabled: csma,
            csl_present: false,
            is_security_processed: false,
        },
    }
}

fn ack_info() -> AckInfo {
    AckInfo {
        timestamp: 123_456,
        frame_counter: 7,
        key_id: 1,
        rssi: -40,
        lqi: 200,
        frame_pending: false,
        security_enhanced: true,
    }
}

#[test]
fn starts_disabled() {
    let inst = OTInstance::new(0, 0, 0);
    assert!(matches!(inst.get_state(), OTRadioState::Disabled));
    assert!(!inst.is_enabled());
}

#[test]
fn enable_disable_cycle() {
    let mut inst = OTInstance::new(0, 0, 0);
    assert!(inst.enable().is_ok());
    assert!(matches!(inst.get_state(), OTRadioState::Sleep));
    assert!(inst.is_enabled());
    assert!(inst.disable().is_ok());
    assert!(matches!(inst.get_state(), OTRadioState::Disabled));
}

#[test]
fn invalid_transitions_leave_state_unchanged() {
    let mut inst = OTInstance::new(0, 0, 0);
    // enable twice: the second is refused from Sleep
    assert!(inst.enable().is_ok());
    assert!(matches!(inst.enable(), Err(OTError::InvalidState)));
    assert!(matches!(inst.get_state(), OTRadioState::Sleep));
    // sleep from Sleep is refused (only Receive -> Sleep is an edge)
    assert!(matches!(inst.sleep(), Err(OTError::InvalidState)));
    assert!(matches!(inst.get_state(), OTRadioState::Sleep));
    // receive, then sleep is permitted
    assert!(inst.receive(15).is_ok());
    assert!(matches!(inst.get_state(), OTRadioState::Receive));
    assert!(inst.sleep().is_ok());
    assert!(matches!(inst.get_state(), OTRadioState::Sleep));
    // disable from Disabled is refused
    assert!(inst.disable().is_ok());
    assert!(matches!(inst.disable(), Err(OTError::InvalidState)));
    assert!(matches!(inst.get_state(), OTRadioState::Disabled));
}

#[test]
fn receive_needs_enabled_radio_and_legal_channel() {
    let mut inst = OTInstance::new(0, 0, 0);
    assert!(matches!(inst.receive(11), Err(OTError::InvalidState)));
    assert!(inst.enable().is_ok());
    assert!(matches!(inst.receive(0), Err(OTError::InvalidArgs)));
    assert!(matches!(inst.receive(27), Err(OTError::InvalidArgs)));
    assert!(matches!(inst.get_state(), OTRadioState::Sleep));
    assert!(inst.receive(26).is_ok());
    assert!(inst.receive(11).is_ok());
    assert!(matches!(inst.get_state(), OTRadioState::Receive));
}

#[test]
fn transmit_from_disabled_fails_invalid_state() {
    let mut inst = OTInstance::new(0, 0, 0);
    let r = inst.transmit(tx_frame(11, true, 4, 3, true, 0));
    assert!(matches!(r, Err(OTError::InvalidState)));
    assert!(matches!(inst.get_state(), OTRadioState::Disabled));
}

#[test]
fn transmit_from_sleep_needs_sleep_to_tx_capability() {
    let mut inst = OTInstance::new(0, 0, 0);
    inst.enable().unwrap();
    let r = inst.transmit(tx_frame(11, false, 0, 0, false, 0));
    assert!(matches!(r, Err(OTError::InvalidState)));
    assert!(matches!(inst.get_state(), OTRadioState::Sleep));

    let caps = Capabilities::SleepToTx.mask();
    let mut fast = OTInstance::new(caps, 0, 0);
    fast.enable().unwrap();
    assert!(fast.transmit(tx_frame(11, false, 0, 0, false, 0)).is_ok());
    assert!(matches!(fast.get_state(), OTRadioState::Transmit));
}

#[test]
fn transmit_rejects_malformed_frames() {
    let mut inst = OTInstance::new(0, 0, 0);
    inst.enable().unwrap();
    inst.receive(11).unwrap();
    // PSDU under 3 octets
    let mut short = tx_frame(11, false, 0, 0, false, 0);
    short.psdu = vec![0x41, 0x88];
    assert!(matches!(inst.transmit(short), Err(OTError::InvalidArgs)));
    // PSDU over 127 octets
    let mut long = tx_frame(11, false, 0, 0, false, 0);
    long.psdu = vec![0x41; 128];
    assert!(matches!(inst.transmit(long), Err(OTError::InvalidArgs)));
    // PSDU of exactly 127 octets is fine
    let mut max = tx_frame(11, false, 0, 0, false, 0);
    max.psdu = vec![0x41; 127];
    assert!(inst.transmit(max).is_ok());
}

#[test]
fn second_operation_is_busy() {
    let caps = Capabilities::EnergyScan.mask();
    let mut inst = OTInstance::new(caps, 0, 0);
    inst.enable().unwrap();
    inst.receive(11).unwrap();
    assert!(inst.energy_scan(11, 100).is_ok());
    let r = inst.transmit(tx_frame(11, false, 0, 0, false, 0));
    assert!(matches!(r, Err(OTError::Busy)));
    assert!(matches!(inst.energy_scan(12, 100), Err(OTError::Busy)));
}

#[test]
fn energy_scan_needs_capability() {
    let mut inst = OTInstance::new(0, 0, 0);
    inst.enable().unwrap();
    assert!(matches!(inst.energy_scan(11, 100), Err(OTError::NotImplemented)));
}

#[test]
fn energy_scan_completion_reports_peak_rssi() {
    let caps = Capabilities::EnergyScan.mask();
    let mut inst = OTInstance::new(caps, 0, 0);
    inst.enable().unwrap();
    // while running, the readback is pending
    assert!(inst.energy_scan(11, 100).is_ok());
    assert!(matches!(inst.energy_scan_done(), Err(OTError::Pending)));
    assert!(matches!(inst.on_energy_scan_result(-63), Ok(-63)));
    assert!(matches!(inst.energy_scan_done(), Ok(-63)));
    assert_eq!(inst.scan_result, EnergyScanResult::Ready(-63));
    // with nothing running and nothing recorded, the readback is refused
    let mut idle = OTInstance::new(caps, 0, 0);
    idle.enable().unwrap();
    assert!(matches!(idle.energy_scan_done(), Err(OTError::InvalidState)));
    assert!(matches!(idle.on_energy_scan_result(-10), Err(OTError::InvalidState)));
}

#[test]
fn disable_aborts_pending_scan() {
    let caps = Capabilities::EnergyScan.mask();
    let mut inst = OTInstance::new(caps, 0, 0);
    inst.enable().unwrap();
    inst.energy_scan(11, 100).unwrap();
    assert!(inst.disable().is_ok());
    // the scan delivers no completion; its result reads back as aborted
    assert!(matches!(inst.on_energy_scan_result(-10), Err(OTError::InvalidState)));
    assert!(matches!(inst.energy_scan_done(), Err(OTError::Abort)));
}

#[test]
fn disable_mid_exchange_delivers_no_completion() {
    let mut inst = OTInstance::new(0, 0, 0);
    inst.enable().unwrap();
    inst.receive(11).unwrap();
    inst.transmit(tx_frame(11, true, 0, 0, false, 0)).unwrap();
    assert!(matches!(inst.get_state(), OTRadioState::Transmit));
    assert!(inst.disable().is_ok());
    assert!(matches!(inst.get_state(), OTRadioState::Disabled));
    assert!(matches!(inst.pending, PendingOp::Idle));
    // the cancelled exchange absorbs nothing any more
    let r = inst.on_exchange_event(ExchangeEvent::TxCompleted);
    assert!(matches!(r, Err(OTError::InvalidState)));
}

#[test]
fn receive_at_needs_capability_then_schedules() {
    let mut plain = OTInstance::new(0, 0, 0);
    plain.enable().unwrap();
    assert!(matches!(plain.receive_at(11, 1000, 500), Err(OTError::NotImplemented)));

    let caps = Capabilities::ReceiveTiming.mask();
    let mut inst = OTInstance::new(caps, 0, 0);
    inst.enable().unwrap();
    assert!(matches!(inst.receive_at(11, 1000, 0), Err(OTError::InvalidArgs)));
    assert!(inst.receive_at(13, 1000, 500).is_ok());
    assert!(matches!(inst.pending, PendingOp::ScheduledReceive));
    assert!(matches!(inst.receive_at(14, 2000, 500), Err(OTError::Busy)));
    assert!(inst.on_receive_at_done().is_ok());
    assert!(matches!(inst.get_state(), OTRadioState::Receive));
    assert_eq!(inst.channel, 13);
    assert!(matches!(inst.on_receive_at_done(), Err(OTError::InvalidState)));
}

#[test]
fn enable_receive_transmit_ack_settles_in_receive() {
    // enable() from Disabled -> Sleep; receive(11) -> Receive; transmit an
    // ack-requested frame with a retry budget of 3; the ack arrives on the
    // first attempt; the completion reports success with the ack present and
    // the radio settles back in Receive on channel 11.
    let caps = Capabilities::TransmitRetries.mask() | Capabilities::AckTimeout.mask();
    let mut inst = OTInstance::new(caps, 0, 0);
    assert!(inst.enable().is_ok());
    assert!(matches!(inst.get_state(), OTRadioState::Sleep));
    assert!(inst.receive(11).is_ok());
    assert!(matches!(inst.get_state(), OTRadioState::Receive));
    assert!(inst.transmit(tx_frame(11, true, 0, 3, false, 0)).is_ok());
    assert!(matches!(inst.get_state(), OTRadioState::Transmit));

    let mid = inst.on_exchange_event(ExchangeEvent::TxCompleted).unwrap();
    assert!(mid.is_none());
    assert!(matches!(inst.get_state(), OTRadioState::Transmit));

    let done = inst
        .on_exchange_event(ExchangeEvent::AckReceived(ack_info()))
        .unwrap()
        .expect("terminal completion");
    assert!(matches!(done.outcome, TxOutcome::Success(Some(_))));
    assert!(done.error().is_none());
    assert_eq!(done.ack().unwrap().rssi, -40);
    assert_eq!(done.frame.psdu, vec![0x61, 0x88, 0x00]);
    assert!(matches!(inst.get_state(), OTRadioState::Receive));
    assert_eq!(inst.channel, 11);
    assert!(matches!(inst.pending, PendingOp::Idle));
}

#[test]
fn completion_is_delivered_exactly_once() {
    let mut inst = OTInstance::new(0, 0, 0);
    inst.enable().unwrap();
    inst.receive(11).unwrap();
    inst.transmit(tx_frame(11, false, 0, 0, false, 0)).unwrap();
    let done = inst.on_exchange_event(ExchangeEvent::TxCompleted).unwrap();
    assert!(done.is_some());
    // the exchange has settled; the same event is now refused
    let again = inst.on_exchange_event(ExchangeEvent::TxCompleted);
    assert!(matches!(again, Err(OTError::InvalidState)));
}

#[test]
fn radio_configuration_round_trips() {
    let mut inst = OTInstance::new(0x1ff, 0, 0);
    assert_eq!(inst.radio_capabilities(), 0x1ff);
    assert!(inst.set_pan_id(0xface).is_ok());
    assert_eq!(inst.pan_id, 0xface);
    assert!(inst.set_short_address(0x1234).is_ok());
    assert_eq!(inst.short_address, 0x1234);
    assert!(inst.set_extended_address([1, 2, 3, 4, 5, 6, 7, 8]).is_ok());
    assert_eq!(inst.ext_address, [1, 2, 3, 4, 5, 6, 7, 8]);
    assert!(inst.set_transmit_power(-8).is_ok());
    assert_eq!(inst.get_transmit_power(), -8);
    assert!(inst.set_promiscuous(true).is_ok());
    assert!(inst.get_promiscuous());
    assert!(inst.set_rx_on_when_idle(true).is_ok());
    assert!(inst.rx_on_when_idle);
}
