//! IEEE 802.15.4 radio types, timing constants and the platform radio traits.

use vstd::prelude::*;
use crate::crypto::OTCryptoKeyRef;
use crate::error::OTError;

verus! {

// aMaxPHYPacketSize (IEEE 802.15.4-2006)
pub const OT_RADIO_FRAME_MAX_SIZE: usize = 127;
// Minimal size of frame FCS + CONTROL
pub const OT_RADIO_FRAME_MIN_SIZE: usize = 3;

// 2.4 GHz IEEE 802.15.4-2006
pub const OT_RADIO_SYMBOLS_PER_OCTET: usize = 2;
// 2.4 GHz IEEE 802.15.4 (bits per second)
pub const OT_RADIO_BIT_RATE: usize = 250_000;
// Number of bits per octet
pub const OT_RADIO_BITS_PER_OCTET: usize = 8;

// Per IEEE 802.15.4-2015, 12.3.3: the O-QPSK PHY symbol rate when operating
// in the 780 MHz, 915 MHz, 2380 MHz or 2450 MHz band.
pub const OT_RADIO_SYMBOL_RATE: usize = 62500;
// Symbol duration time in unit of microseconds
pub const OT_RADIO_SYMBOL_TIME: usize = 1_000_000 * 1 / OT_RADIO_SYMBOL_RATE;
// Time for 10 symbols in unit of microseconds
pub const OT_RADIO_TEN_SYMBOLS_TIME: usize = 10 * OT_RADIO_SYMBOL_TIME;

// macAckWaitDuration for the 2.4 GHz O-QPSK PHY, in symbols: the unit backoff
// period (20) plus the turnaround time (12) plus the duration of an imm-ack
// frame (11 octets at 2 symbols per octet).
pub const OT_RADIO_ACK_WAIT_SYMBOLS: usize = 20 + 12 + 11 * OT_RADIO_SYMBOLS_PER_OCTET;
// Fixed acknowledgment wait timeout in microseconds, derived from the symbol
// timing constants above.
pub const OT_RADIO_ACK_WAIT_TIME: usize = OT_RADIO_ACK_WAIT_SYMBOLS * OT_RADIO_SYMBOL_TIME;

// LQI measurement not supported
pub const OT_RADIO_LQI_NONE: usize = 0;
// Invalid or unknown RSSI value
pub const OT_RADIO_RSSI_INVALID: usize = 127;
// Invalid or unknown power value
pub const OT_RADIO_POWER_INVALID: usize = 127;

// 2.4 GHz IEEE 802.15.4-2006
pub const OT_RADIO_CHANNEL_PAGE_0: u8 = 0;
// 2.4 GHz IEEE 802.15.4-2006
pub const OT_RADIO_CHANNEL_PAGE_0_MASK: u8 = 1 << OT_RADIO_CHANNEL_PAGE_0;
// 915 MHz IEEE 802.15.4-2006
pub const OT_RADIO_CHANNEL_PAGE_2: u8 = 2;
// 915 MHz IEEE 802.15.4-2006
pub const OT_RADIO_CHANNEL_PAGE_2_MASK: u8 = 1 << OT_RADIO_CHANNEL_PAGE_2;

// 915 MHz IEEE 802.15.4-2006
pub const OT_RADIO_915MHZ_OQPSK_CHANNEL_MIN: u16 = 1;
// 915 MHz IEEE 802.15.4-2006
pub const OT_RADIO_915MHZ_OQPSK_CHANNEL_MAX: u16 = 10;
// 915 MHz IEEE 802.15.4-2006
pub const OT_RADIO_915MHZ_OQPSK_CHANNEL_MASK: u16 = 0x3ff << OT_RADIO_915MHZ_OQPSK_CHANNEL_MIN;
// 2.4 GHz IEEE 802.15.4-2006
pub const OT_RADIO_2P4GHZ_OQPSK_CHANNEL_MIN: u16 = 11;
// 2.4 GHz IEEE 802.15.4-2006
pub const OT_RADIO_2P4GHZ_OQPSK_CHANNEL_MAX: u16 = 26;
// 2.4 GHz IEEE 802.15.4-2006
pub const OT_RADIO_2P4GHZ_OQPSK_CHANNEL_MASK: u16 = 0xffff << OT_RADIO_2P4GHZ_OQPSK_CHANNEL_MIN;

/// True for the channel numbers a frame may legally name: the 915 MHz O-QPSK
/// channels 1..=10 and the 2.4 GHz O-QPSK channels 11..=26.
pub open spec fn spec_valid_channel(channel: u8) -> bool {
    ||| (OT_RADIO_915MHZ_OQPSK_CHANNEL_MIN <= channel
        && channel <= OT_RADIO_915MHZ_OQPSK_CHANNEL_MAX)
    ||| (OT_RADIO_2P4GHZ_OQPSK_CHANNEL_MIN <= channel
        && channel <= OT_RADIO_2P4GHZ_OQPSK_CHANNEL_MAX)
}

/// Decides whether `channel` is a legal channel number.
pub fn valid_channel(channel: u8) -> (r: bool)
    ensures
        r == spec_valid_channel(channel),
{
    let c: u16 = channel as u16;
    (OT_RADIO_915MHZ_OQPSK_CHANNEL_MIN <= c && c <= OT_RADIO_915MHZ_OQPSK_CHANNEL_MAX)
        || (OT_RADIO_2P4GHZ_OQPSK_CHANNEL_MIN <= c && c <= OT_RADIO_2P4GHZ_OQPSK_CHANNEL_MAX)
}

/// Optional abilities a radio platform may advertise. Each capability selects
/// one bit of an [`OTRadioCapabilities`] mask.
#[derive(Clone, Copy, Debug, PartialEq, Eq, Structural)]
pub enum Capabilities {
    /// No capability at all (the empty mask)
    Empty,
    /// The radio times out waiting for an acknowledgment itself
    AckTimeout,
    /// The radio can run an energy scan
    EnergyScan,
    /// The radio retries a transmission in hardware
    TransmitRetries,
    /// The radio performs CSMA backoff in hardware
    CSMABackoff,
    /// The radio may transmit straight from the sleep state
    SleepToTx,
    /// The radio performs transmit security processing
    TransmitSec,
    /// The radio schedules transmissions against its own clock
    TransmitTiming,
    /// The radio schedules receive windows against its own clock
    ReceiveTiming,
    /// The radio supports the rx-on-when-idle configuration
    RxOnWhenIdle,
}

impl Capabilities {
    /// The bit this capability occupies in a capability mask.
    pub open spec fn spec_mask(self) -> u16 {
        match self {
            Capabilities::Empty => 0,
            Capabilities::AckTimeout => 1u16 << 0,
            Capabilities::EnergyScan => 1u16 << 1,
            Capabilities::TransmitRetries => 1u16 << 2,
            Capabilities::CSMABackoff => 1u16 << 3,
            Capabilities::SleepToTx => 1u16 << 4,
            Capabilities::TransmitSec => 1u16 << 5,
            Capabilities::TransmitTiming => 1u16 << 6,
            Capabilities::ReceiveTiming => 1u16 << 7,
            Capabilities::RxOnWhenIdle => 1u16 << 8,
        }
    }

    /// Returns the bit this capability occupies in a capability mask.
    pub fn mask(self) -> (r: u16)
        ensures
            r == self.spec_mask(),
    {
        match self {
            Capabilities::Empty => 0,
            Capabilities::AckTimeout => 1u16 << 0,
            Capabilities::EnergyScan => 1u16 << 1,
            Capabilities::TransmitRetries => 1u16 << 2,
            Capabilities::CSMABackoff => 1u16 << 3,
            Capabilities::SleepToTx => 1u16 << 4,
            Capabilities::TransmitSec => 1u16 << 5,
            Capabilities::TransmitTiming => 1u16 << 6,
            Capabilities::ReceiveTiming => 1u16 << 7,
            Capabilities::RxOnWhenIdle => 1u16 << 8,
        }
    }

    /// Combines two capabilities into one mask.
    pub fn bitor(self, rhs: Self) -> (r: OTRadioCapabilities)
        ensures
            r == self.spec_mask() | rhs.spec_mask(),
    {
        self.mask() | rhs.mask()
    }
}

/// A mask of [`Capabilities`] bits advertised by the platform.
pub type OTRadioCapabilities = u16;

/// True when the capability mask `caps` advertises `cap`.
pub open spec fn spec_has_cap(caps: OTRadioCapabilities, cap: Capabilities) -> bool {
    caps & cap.spec_mask() != 0
}

/// Decides whether the capability mask `caps` advertises `cap`.
pub fn has_cap(caps: OTRadioCapabilities, cap: Capabilities) -> (r: bool)
    ensures
        r == spec_has_cap(caps, cap),
{
    caps & cap.mask() != 0
}

// IEEE 802.15.4 broadcast PAN ID
pub const OT_PANID_BROADCAST: u16 = 0xFFFF;

/// IEEE 802.15.4 PAN ID.
pub type OTPanId = u16;

/// IEEE 802.15.4 short address.
pub type OTShortAddress = u16;

/// Size of an IEEE 802.15.4 extended address (bytes)
pub const OT_EXT_ADDRESS_SIZE: usize = 8;

// Size of an IE header in bytes
pub const OT_IE_HEADER_SIZE: usize = 2;
// Size of CSL IE content in bytes
pub const OT_CSL_IE_SIZE: usize = 4;
// Max length for a header IE in an ACK
pub const OT_ACK_IE_MAX_SIZE: usize = 16;
// Max length of Link Metrics data in a vendor-specific IE
pub const OT_ENH_PROBING_IE_DATA_MAX_SIZE: usize = 2;
// Fixed CSL IE header first byte
pub const CSL_IE_HEADER_BYTES_LO: u8 = 0x04;
// Fixed CSL IE header second byte
pub const CSL_IE_HEADER_BYTES_HI: u8 = 0x0D;

/// IEEE 802.15.4 extended address.
pub type OTExtAddress = [u8; 8];

// Size of a MAC key in bytes
pub const OT_MAC_KEY_SIZE: usize = 16;

/// MAC key.
pub type OTMacKey = [u8; 16];

/// MAC key reference used by PSA.
pub type OTMacKeyRef = OTCryptoKeyRef;

/// MAC key representation: literal key bytes or an opaque key handle.
pub enum OTMacKeyMaterial {
    Key(OTMacKey),
    Ref(OTMacKeyRef),
}

/// Key kinds usable for transmit security.
#[derive(Clone, Copy, Debug, PartialEq, Eq, Structural)]
pub enum OTKeyType {
    LiteralKey,
    ReferenceKey,
}

/// IEEE 802.15.4 header IE (Information Element) related information of a
/// radio frame.
pub struct RadioIEInfo {
    /// The time offset to the Thread network time
    pub network_time_offset: i64,
    /// The Time IE offset from the start of the PSDU
    pub time_ie_offset: u8,
    /// The time sync sequence
    pub time_sync_sequency: u8,
}

/// Marker for the transmit direction of a frame.
pub struct TransmitFrame {}

/// Marker for the receive direction of a frame.
pub struct ReceiveFrame {}

/// Direction-specific metadata of a radio frame.
pub enum OTFrameInformation {
    TxInfo {
        /// The key material used for AES-CCM frame security
        aes_key: OTMacKeyMaterial,
        /// Header IE(s) related information
        io_info: RadioIEInfo,
        /// The base time in microseconds for scheduled transmissions relative
        /// to the local radio clock
        tx_delay_base_time: u32,
        /// The delay time in microseconds for this transmission referenced to
        /// `tx_delay_base_time`; their sum names the point in time when the
        /// end of the SFD is present at the local antenna
        tx_delay: u32,
        /// Maximum number of backoffs attempted before declaring CCA failure
        max_csma_backoffs: u8,
        /// Maximum number of retries allowed after a transmission failure
        max_frame_retries: u8,
        /// The RX channel to settle on after the whole exchange is done
        /// (after all frame retries); ignored by platforms that do not
        /// advertise hardware transmit retries
        rx_channel_after_tx_done: u8,
        /// Whether the frame counter and CSL IEs are already set in the
        /// header, so a platform handling transmit security must preserve the
        /// previously assigned counter
        is_header_updated: bool,
        /// Whether the frame is a retransmission
        is_a_retx: bool,
        /// Whether CSMA-CA is enabled for this packet
        csma_ca_enabled: bool,
        /// Whether a CSL header IE is present
        csl_present: bool,
        /// Whether AES processing of this frame is already done and must be
        /// skipped
        is_security_processed: bool,
    },
    RxInfo {
        /// The time of the local radio clock in microseconds when the end of
        /// the SFD was present at the local antenna
        timestamp: u64,
        /// ACK security frame counter (applicable when `acked_with_sec_enh_ack` is set)
        ack_frame_counter: u32,
        /// ACK security key index (applicable when `acked_with_sec_enh_ack` is set)
        ack_key_id: u8,
        /// Received signal strength indicator in dBm
        rssi: i8,
        /// Link quality indicator
        lqi: u8,
        /// Whether this frame was acknowledged with frame pending set
        acked_with_frame_pending: bool,
        /// Whether this frame was acknowledged with a security enhanced ack
        acked_with_sec_enh_ack: bool,
    },
}

/// IEEE 802.15.4 radio frame: a PSDU with its channel, link type and
/// direction-specific metadata.
pub struct OTRadioFrame {
    /// The PSDU
    pub psdu: Vec<u8>,
    /// Channel used to transmit/receive the frame
    pub channel: u8,
    /// Radio link type (ignored by the radio driver)
    pub radio_type: u8,
    /// Transmit or receive information for the frame
    pub frame_information: OTFrameInformation,
}

/// True when the PSDU's frame control field has the ack-request bit set.
pub open spec fn spec_ack_requested(psdu: Seq<u8>) -> bool {
    psdu.len() > 0 && psdu[0] & 0x20 != 0
}

/// Reads the ack-request bit of the frame control field (bit 5 of the first
/// PSDU octet, IEEE 802.15.4-2015, 7.2.1).
pub fn ack_requested(psdu: &Vec<u8>) -> (r: bool)
    ensures
        r == spec_ack_requested(psdu@),
{
    psdu.len() > 0 && psdu[0] & 0x20 != 0
}

/// The operational state of a radio.
///
/// A radio starts in `Disabled`. The valid transitions form the cycle
/// Disabled <-> Sleep <-> Receive <-> Transmit, where Transmit settles back
/// into Receive (never straight into Disabled) and a platform advertising
/// [`Capabilities::SleepToTx`] may shorten Sleep -> Receive -> Transmit to a
/// direct Sleep -> Transmit. `Invalid` is observable only as a defensive
/// error readback; no transition ever targets it.
#[derive(Clone, Copy, Debug, PartialEq, Eq, Structural)]
pub enum OTRadioState {
    Disabled,
    Sleep,
    Receive,
    Transmit,
    Invalid,
}

impl OTRadioState {
    /// The numeric code of this state as reported over a driver interface.
    pub open spec fn spec_value(self) -> u8 {
        match self {
            OTRadioState::Disabled => 0,
            OTRadioState::Sleep => 1,
            OTRadioState::Receive => 2,
            OTRadioState::Transmit => 3,
            OTRadioState::Invalid => 255,
        }
    }

    /// Returns the numeric code of this state.
    pub fn value(self) -> (r: u8)
        ensures
            r == self.spec_value(),
    {
        match self {
            OTRadioState::Disabled => 0,
            OTRadioState::Sleep => 1,
            OTRadioState::Receive => 2,
            OTRadioState::Transmit => 3,
            OTRadioState::Invalid => 255,
        }
    }
}

/// Radio coexistence metrics: counters describing radio/external-arbiter
/// contention.
#[derive(Clone, Copy, Debug, PartialEq, Eq, Structural)]
pub struct OTRadioCoexMetrics {
    /// Number of grant glitches
    pub num_grant_glitch: u32,
    /// Number of tx requests
    pub num_tx_request: u32,
    /// Number of tx requests while grant was active
    pub num_tx_grant_immediate: u32,
    /// Number of tx requests while grant was inactive
    pub num_tx_grant_wait: u32,
    /// Number of tx requests while grant was inactive that were ultimately granted
    pub num_tx_grant_wait_activated: u32,
    /// Number of tx requests while grant was inactive that timed out
    pub num_tx_grant_wait_timeout: u32,
    /// Number of tx that were in progress when grant was deactivated
    pub num_tx_grant_deactivated_during_request: u32,
    /// Number of tx requests that were not granted within 50us
    pub num_tx_delayed_grant: u32,
    /// Average time in usec from tx request to grant
    pub avg_tx_request_to_grant_time: u32,
    /// Number of rx requests
    pub num_rx_request: u32,
    /// Number of rx requests while grant was active
    pub num_rx_grant_immediate: u32,
    /// Number of rx requests while grant was inactive
    pub num_rx_grant_wait: u32,
    /// Number of rx requests while grant was inactive that were ultimately granted
    pub num_rx_grant_wait_activated: u32,
    /// Number of rx requests while grant was inactive that timed out
    pub num_rx_grant_wait_timeout: u32,
    /// Number of rx that were in progress when grant was deactivated
    pub num_rx_grant_deactivated_during_request: u32,
    /// Number of rx requests that were not granted within 50us
    pub num_rx_delayed_grant: u32,
    /// Average time in usec from rx request to grant
    pub avg_rx_request_to_grant_time: u32,
    /// Number of rx requests that completed without receiving grant
    pub num_rx_grant_none: u32,
    /// Stats collection stopped due to saturation
    pub stopped: bool,
}

/// Selection of the metrics an enhanced-ack probing initiator asks for.
#[derive(Clone, Copy, Debug, PartialEq, Eq, Structural)]
pub struct OTLinkMetrics {
    pub pdu_count: bool,
    pub lqi: bool,
    pub link_margin: bool,
    pub rssi: bool,
    pub reserved: bool,
}

/// Platform abstraction for radio configuration.
pub trait OTRadioConfiguration {
    type Error;

    /// Get the radio's capabilities.
    fn radio_capabilities(&mut self) -> Result<OTRadioCapabilities, Self::Error>;

    /// Get the radio's receive sensitivity value.
    fn radio_receive_sensitivity(&mut self) -> Result<u8, Self::Error>;

    /// Get the factory-assigned IEEE EUI-64 of the radio.
    fn radio_ieee_eui_64(&mut self) -> Result<[u8; 8], Self::Error>;

    /// Set the PAN ID for address filtering.
    fn set_pan_id(&mut self, pan_id: OTPanId) -> Result<(), Self::Error>;

    /// Set the extended address for address filtering.
    fn set_extended_address(&mut self, address: OTExtAddress) -> Result<(), Self::Error>;

    /// Set the short address for address filtering.
    fn set_short_address(&mut self, address: OTShortAddress) -> Result<(), Self::Error>;

    /// Get the radio's transmit power in dBm. The power returned is no larger
    /// than the power specified in the max power table for the current
    /// channel.
    fn get_transmit_power(&mut self) -> Result<i8, OTError<Self::Error>>;

    /// Set the radio's transmit power in dBm. The real transmit power is no
    /// larger than the power specified in the max power table for the current
    /// channel.
    fn set_transmit_power(&mut self, power: i8) -> Result<(), OTError<Self::Error>>;

    /// Get the radio's CCA ED threshold in dBm measured at the antenna
    /// connector (IEEE 802.15.4-2015, 10.1.4).
    fn get_cca_energy_detect_threshold(&mut self) -> Result<i8, OTError<Self::Error>>;

    /// Set the radio's CCA ED threshold in dBm measured at the antenna
    /// connector (IEEE 802.15.4-2015, 10.1.4).
    fn set_cca_energy_detect_threshold(&mut self, threshold: i8) -> Result<(), OTError<Self::Error>>;

    /// Get the external FEM's Rx LNA gain in dBm.
    fn get_fem_lna_gain(&mut self) -> Result<i8, OTError<Self::Error>>;

    /// Set the external FEM's Rx LNA gain in dBm.
    fn set_fem_lna_gain(&mut self, gain: i8) -> Result<(), OTError<Self::Error>>;

    /// Get the status of promiscuous mode.
    fn get_promiscuous(&mut self) -> Result<bool, Self::Error>;

    /// Enable or disable promiscuous mode.
    fn set_promiscuous(&mut self, enabled: bool) -> Result<(), Self::Error>;

    /// Set the rx-on-when-idle state. A platform supporting the
    /// rx-on-when-idle capability must also support CSMA backoff and handle
    /// idle periods after CCA on its own.
    fn set_rx_on_when_idle(&mut self, enabled: bool) -> Result<(), Self::Error>;

    /// Get the current time in microseconds on a continuous, monotonic,
    /// 64-bit local radio clock that never wraps during the device's uptime,
    /// has no defined epoch, makes no discontinuous adjustments, and
    /// compensates for the device's sleep times.
    fn get_now(&mut self) -> u64;

    /// Get the bus speed in bits/second between the host and the radio chip.
    fn get_bus_speed(&mut self) -> u32;
}

/// Configuration entry points a radio with transmit security provides.
pub trait OTRadioConfigurationCapTransmit {
    type Error;

    /// Update the MAC keys and key index; used when the radio handles
    /// transmit security itself.
    fn set_mac_key(
        &mut self,
        key_id_mode: u8,
        key_id: u8,
        previous_key: OTMacKeyMaterial,
        current_key: OTMacKeyMaterial,
        next_key: OTMacKeyMaterial,
        key_type: OTKeyType,
    ) -> Result<(), Self::Error>;

    /// Set the current MAC frame counter value.
    fn set_mac_frame_counter(&mut self, mac_frame_counter: u32) -> Result<(), Self::Error>;

    /// Set the current MAC frame counter value only if the new value is
    /// larger than the current one.
    fn set_mac_frame_counter_if_larger(&mut self, mac_frame_counter: u32) -> Result<
        (),
        Self::Error,
    >;
}

/// Optional radio configuration entry points.
pub trait OTRadioConfigurationOptional {
    /// Get the radio version string.
    fn get_version(&self) -> String;
}

/// Operational entry points of a radio.
pub trait OTRadioOperation {
    type Error;

    /// Enable the radio.
    fn enable(&mut self) -> Result<(), OTError<Self::Error>>;

    /// Disable the radio.
    fn disable(&mut self) -> Result<(), OTError<Self::Error>>;

    /// Check whether the radio is enabled or not.
    fn is_enabled(&mut self) -> Result<bool, Self::Error>;

    /// Transition the radio from Receive to Sleep (turn off the radio).
    fn sleep(&mut self) -> Result<(), OTError<Self::Error>>;

    /// Transition the radio from Sleep to Receive (turn on the radio).
    fn receive(&mut self, channel: u8) -> Result<(), OTError<Self::Error>>;

    /// Schedule a radio reception window at a specific time and duration.
    fn receive_at(&mut self, channel: u8, start: u32, duration: u32) -> Result<
        (),
        OTError<Self::Error>,
    >;

    /// Receive a frame from the radio.
    fn receive_frame(&mut self) -> Result<OTRadioFrame, OTError<Self::Error>>;

    /// Begin the transmit sequence: transition to Transmit from Receive (or
    /// from Sleep, when sleep-to-transmit is advertised and rx is off when
    /// idle), then transmit the PSDU on the frame's channel at the negotiated
    /// power.
    fn transmit(&mut self, frame: OTRadioFrame) -> Result<(), OTError<Self::Error>>;

    /// The transmission has started.
    fn tx_started(&mut self);

    /// The transmission has completed.
    fn tx_done(&mut self);

    /// The diagnostics transmission has completed.
    fn diag_tx_done(&mut self);

    /// Get the most recent RSSI measurement.
    fn get_rssi(&mut self) -> Result<i8, Self::Error>;

    /// Enable or disable the source address match feature, which decides the
    /// "frame pending" bit for acks sent in response to data request
    /// commands: always set when disabled, set iff the requester is in the
    /// match table when enabled.
    fn enable_src_match(&mut self, enabled: bool) -> Result<(), Self::Error>;

    /// Add a short address to the source address match table.
    fn add_src_match_short_entry(&mut self, address: OTShortAddress) -> Result<
        (),
        OTError<Self::Error>,
    >;

    /// Add an extended address to the source address match table.
    fn add_src_match_ext_entry(&mut self, address: OTExtAddress) -> Result<
        (),
        OTError<Self::Error>,
    >;

    /// Remove a short address from the source address match table.
    fn clear_src_match_short_entry(&mut self, address: OTShortAddress) -> Result<
        (),
        OTError<Self::Error>,
    >;

    /// Remove an extended address from the source address match table.
    fn clear_src_match_ext_entry(&mut self, address: OTExtAddress) -> Result<
        (),
        OTError<Self::Error>,
    >;

    /// Clear all short addresses from the source address match table.
    fn clear_src_match_short_entries(&mut self) -> Result<(), Self::Error>;

    /// Clear all extended addresses from the source address match table.
    fn clear_src_match_ext_entries(&mut self) -> Result<(), Self::Error>;

    /// Get the radio supported channel mask that the device is allowed to be on.
    fn get_supported_channel_mask(&mut self) -> Result<u32, Self::Error>;

    /// Get the radio preferred channel mask that the device prefers to form on.
    fn get_preferred_channel_mask(&mut self) -> Result<u32, Self::Error>;

    /// Set the max transmit power for a specific channel.
    fn set_channel_max_transmit_power(&mut self, channel: u8, max_power: u8) -> Result<
        (),
        Self::Error,
    >;

    /// Set the region code: the 2-byte ascii representation of the
    /// ISO 3166 alpha-2 code.
    fn set_region(&mut self, region_code: u16) -> Result<(), Self::Error>;

    /// Get the region code: the 2-byte ascii representation of the
    /// ISO 3166 alpha-2 code.
    fn get_region(&mut self) -> Result<u16, Self::Error>;

    /// Enable, disable or update enhanced-ack based probing for a specific
    /// initiator: the enhanced acks sent to that node then carry a
    /// vendor-specific IE with the selected link metrics data.
    fn configure_enh_ack_probing(
        &mut self,
        link_metrics: OTLinkMetrics,
        short_address: OTShortAddress,
        ext_address: OTExtAddress,
    ) -> Result<(), OTError<Self::Error>>;
}

/// Completion handles the radio driver calls back into.
pub trait OTRadioOperationHandles {
    type Error;

    /// The transmission of the frame has started.
    fn tx_started(&mut self, frame: OTRadioFrame) -> Result<(), Self::Error>;

    /// A transmission completed, with the transmitted frame, the received ack
    /// frame where applicable, and the terminal error kind.
    fn tx_done(
        &mut self,
        frame: OTRadioFrame,
        ack_frame: OTRadioFrame,
        error: OTError<Self::Error>,
    ) -> Result<(), Self::Error>;

    /// A diagnostics transmission completed.
    fn diag_tx_done(&mut self, frame: OTRadioFrame, error: OTError<Self::Error>) -> Result<
        (),
        Self::Error,
    >;

    /// Get the raw power setting for the given channel, in the
    /// platform-defined format.
    fn get_raw_power_setting(&mut self, channel: u8) -> Result<Vec<u8>, OTError<Self::Error>>;
}

/// Entry points of a radio capable of energy scans.
pub trait OTRadioOperationEnergyScan {
    type Error;

    /// Begin the energy scan sequence on the radio.
    fn energy_scan(&mut self, channel: u8, duration: i16) -> Result<(), OTError<Self::Error>>;

    /// Get the maximum energy scan result from a triggered energy scan.
    fn energy_scan_done(&mut self) -> Result<i8, Self::Error>;
}

/// Completion handles of an energy-scan-capable radio.
pub trait OTRadioOperationEnergyScanHandles {
    type Error;

    /// The energy scan is complete; `max_rssi` is the peak observed value.
    fn energy_scan_done(&mut self, max_rssi: i8) -> Result<(), Self::Error>;
}

/// Entry points of a radio with the coexistence feature.
pub trait OTRadioOperationCoex {
    type Error;

    /// Enable the radio coexistence feature.
    fn set_coex_enabled(&mut self, enabled: bool) -> Result<(), Self::Error>;

    /// Check whether radio coexistence is enabled or not.
    fn is_coex_enabled(&mut self) -> Result<bool, Self::Error>;

    /// Get the radio coexistence metrics.
    fn get_coex_metrics(&mut self) -> Result<OTRadioCoexMetrics, Self::Error>;
}

/// Entry points of a radio with CSL receiver functionality.
pub trait OTRadioOperationsCSL {
    type Error;

    /// Enable or disable the CSL receiver.
    fn enable_csl(
        &mut self,
        csl_period: u32,
        short_address: OTShortAddress,
        ext_address: OTExtAddress,
    ) -> Result<(), Self::Error>;

    /// Reset the CSL receiver in the platform.
    fn reset_csl(&mut self) -> Result<(), Self::Error>;

    /// Update the CSL sample time in the radio driver. The sample time marks
    /// the timestamp in the CSL sample window when a frame should be received
    /// under ideal conditions, with no inaccuracy or clock drift.
    fn update_csl_sample_time(&mut self, sample_time: u64) -> Result<(), Self::Error>;

    /// Get the current estimated worst-case accuracy (maximum deviation from
    /// the nominal frequency) of the local radio clock, in PPM. A fixed
    /// returned value must be the worst case over all foreseen operating
    /// conditions.
    fn get_csl_accuracy(&mut self) -> Result<u8, Self::Error>;

    /// Get the fixed uncertainty (random jitter) of the arrival time of CSL
    /// transmissions received by this device, in units of 10 microseconds.
    /// The receive window must be extended by twice this deviation beyond the
    /// drift accumulated over elapsed time.
    fn get_csl_uncertainty(&mut self) -> Result<u8, Self::Error>;
}

/// Optional operational entry points.
pub trait OTRadioOperationOptional {
    type Error;

    /// Get the current state of the radio.
    fn get_state(&mut self) -> Result<OTRadioState, Self::Error>;

    /// Add a calibrated power for a channel to the power calibration table:
    /// the measured output power when the radio hardware is set to the given
    /// platform-defined raw power setting.
    fn add_calibrated_power(
        &mut self,
        channel: u8,
        actual_power: i16,
        raw_power_setting: &[u8],
    ) -> Result<(), OTError<Self::Error>>;

    /// Clear all calibrated powers from the power calibration table.
    fn clear_calibrated_powers(&mut self) -> Result<(), OTError<Self::Error>>;

    /// Set the target power for the given channel; used in place of
    /// `set_transmit_power` where supported.
    fn set_channel_target_power(&mut self, channel: u8, target_power: i16) -> Result<
        (),
        OTError<Self::Error>,
    >;
}

} // verus!
