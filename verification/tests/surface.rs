use openthread::crypto::OTKeyUsage;
use openthread::ip6::{OTECNStatus, OTIp6Protocol};
use openthread::message::OTMessageQueue;
use openthread::radio::{
    ack_requested, valid_channel, Capabilities, OTRadioState, OT_RADIO_ACK_WAIT_TIME,
    OT_RADIO_FRAME_MAX_SIZE, OT_RADIO_FRAME_MIN_SIZE, OT_RADIO_SYMBOL_TIME,
    OT_RADIO_TEN_SYMBOLS_TIME,
};
use openthread::settings::OTSettingsKeys;

#[test]
fn capability_masks_are_distinct_bits() {
    assert_eq!(Capabilities::Empty.mask(), 0);
    assert_eq!(Capabilities::AckTimeout.mask(), 1);
    assert_eq!(Capabilities::EnergyScan.mask(), 2);
    assert_eq!(Capabilities::TransmitRetries.mask(), 4);
    assert_eq!(Capabilities::CSMABackoff.mask(), 8);
    assert_eq!(Capabilities::SleepToTx.mask(), 16);
    assert_eq!(Capabilities::TransmitSec.mask(), 32);
    assert_eq!(Capabilities::TransmitTiming.mask(), 64);
    assert_eq!(Capabilities::ReceiveTiming.mask(), 128);
    assert_eq!(Capabilities::RxOnWhenIdle.mask(), 256);
    assert_eq!(
        Capabilities::AckTimeout.bitor(Capabilities::EnergyScan),
        3
    );
}

#[test]
fn key_usage_masks_combine() {
    assert_eq!(OTKeyUsage::Empty.mask(), 0);
    assert_eq!(OTKeyUsage::Export.mask(), 1);
    assert_eq!(OTKeyUsage::Encrypt.mask(), 2);
    assert_eq!(OTKeyUsage::Decrypt.mask(), 4);
    assert_eq!(OTKeyUsage::SignHash.mask(), 8);
    assert_eq!(OTKeyUsage::VerifyHash.mask(), 16);
    assert_eq!(OTKeyUsage::SignHash.bitor(OTKeyUsage::VerifyHash), 24);
}

#[test]
fn radio_state_codes() {
    assert_eq!(OTRadioState::Disabled.value(), 0);
    assert_eq!(OTRadioState::Sleep.value(), 1);
    assert_eq!(OTRadioState::Receive.value(), 2);
    assert_eq!(OTRadioState::Transmit.value(), 3);
    assert_eq!(OTRadioState::Invalid.value(), 255);
}

#[test]
fn symbol_timing_constants() {
    assert_eq!(OT_RADIO_SYMBOL_TIME, 16);
    assert_eq!(OT_RADIO_TEN_SYMBOLS_TIME, 160);
    // macAckWaitDuration: 54 symbols of 16 us
    assert_eq!(OT_RADIO_ACK_WAIT_TIME, 864);
    assert_eq!(OT_RADIO_FRAME_MIN_SIZE, 3);
    assert_eq!(OT_RADIO_FRAME_MAX_SIZE, 127);
}

#[test]
fn channel_validity_bounds() {
    assert!(!valid_channel(0));
    assert!(valid_channel(1));
    assert!(valid_channel(10));
    assert!(valid_channel(11));
    assert!(valid_channel(26));
    assert!(!valid_channel(27));
    assert!(!valid_channel(255));
}

#[test]
fn ack_request_bit_is_frame_control_bit_five() {
    assert!(ack_requested(&vec![0x20]));
    assert!(ack_requested(&vec![0x61, 0x88]));
    assert!(!ack_requested(&vec![0x41, 0x88]));
    assert!(!ack_requested(&vec![]));
}

#[test]
fn settings_key_codes() {
    assert_eq!(OTSettingsKeys::ActiveDataset.value(), 0x0001);
    assert_eq!(OTSettingsKeys::PendingDataset.value(), 0x0002);
    assert_eq!(OTSettingsKeys::NetworkInfo.value(), 0x0003);
    assert_eq!(OTSettingsKeys::SlaacIIDSecretKey.value(), 0x0007);
    assert_eq!(OTSettingsKeys::BorderAgentId.value(), 0x0011);
    assert_eq!(OTSettingsKeys::VendorReservedMin.value(), 0x8000);
    assert_eq!(OTSettingsKeys::VendorReservedMax.value(), 0xFFFF);
}

#[test]
fn ip6_wire_numbers() {
    assert_eq!(OTIp6Protocol::HopOpts.value(), 0);
    assert_eq!(OTIp6Protocol::TCP.value(), 6);
    assert_eq!(OTIp6Protocol::UDP.value(), 17);
    assert_eq!(OTIp6Protocol::ICMP6.value(), 58);
    assert_eq!(OTECNStatus::NotCapable.value(), 0x0);
    assert_eq!(OTECNStatus::Capable0.value(), 0x2);
    assert_eq!(OTECNStatus::Capable1.value(), 0x1);
    assert_eq!(OTECNStatus::Marked.value(), 0x3);
}

#[test]
fn message_queue_keeps_fifo_order() {
    let mut q: Vec<u32> = Vec::new();
    q.enqueue_message(10);
    q.enqueue_message(20);
    q.enqueue_message_at_head(5);
    assert_eq!(q, vec![5, 10, 20]);
    assert_eq!(*q.get_head(), 5);
    q.dequeue_message(1);
    assert_eq!(q, vec![5, 20]);
    // dequeueing out of range leaves the queue unchanged
    q.dequeue_message(7);
    assert_eq!(q, vec![5, 20]);
    q.dequeue_message(0);
    q.dequeue_message(0);
    assert!(q.is_empty());
}
