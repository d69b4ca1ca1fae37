//! Frame exchange controller.
//!
//! Orchestrates a single transmit attempt: clear channel assessment with
//! backoff when the platform does not own hardware CSMA, the transmission
//! itself, the acknowledgment wait, and hardware-assisted retries. The
//! controller is driven by events the driver context reports and settles on
//! exactly one terminal outcome per exchange: success, channel access
//! failure, or no acknowledgment. Security counters advance exactly once per
//! physically transmitted attempt unless the frame header carries a
//! previously assigned counter.

use vstd::prelude::*;
use crate::error::OTError;
use crate::radio::{
    spec_ack_requested, spec_has_cap, spec_valid_channel, ack_requested, has_cap, valid_channel,
    Capabilities, OTFrameInformation, OTRadioCapabilities, OTRadioFrame, OT_RADIO_FRAME_MAX_SIZE,
    OT_RADIO_FRAME_MIN_SIZE,
};

verus! {

/// Information taken from a received acknowledgment.
#[derive(Clone, Copy, Debug, PartialEq, Eq, Structural)]
pub struct AckInfo {
    /// Radio clock time in microseconds when the end of the ack's SFD was at
    /// the local antenna
    pub timestamp: u64,
    /// Ack security frame counter (valid only when `security_enhanced`)
    pub frame_counter: u32,
    /// Ack security key index (valid only when `security_enhanced`)
    pub key_id: u8,
    /// Received signal strength of the ack in dBm
    pub rssi: i8,
    /// Link quality indicator of the ack
    pub lqi: u8,
    /// Whether the ack has the frame-pending bit set
    pub frame_pending: bool,
    /// Whether the ack is an enhanced ack with security
    pub security_enhanced: bool,
}

impl AckInfo {
    /// The receive metadata a frame carrying this acknowledgment gets: the
    /// frame counter and key index are taken over when the ack was a security
    /// enhanced ack, and read as zero otherwise.
    pub fn to_rx_info(&self) -> (r: OTFrameInformation)
        ensures
            r == (OTFrameInformation::RxInfo {
                timestamp: self.timestamp,
                ack_frame_counter: if self.security_enhanced {
                    self.frame_counter
                } else {
                    0
                },
                ack_key_id: if self.security_enhanced {
                    self.key_id
                } else {
                    0
                },
                rssi: self.rssi,
                lqi: self.lqi,
                acked_with_frame_pending: self.frame_pending,
                acked_with_sec_enh_ack: self.security_enhanced,
            }),
    {
        OTFrameInformation::RxInfo {
            timestamp: self.timestamp,
            ack_frame_counter: if self.security_enhanced {
                self.frame_counter
            } else {
                0
            },
            ack_key_id: if self.security_enhanced {
                self.key_id
            } else {
                0
            },
            rssi: self.rssi,
            lqi: self.lqi,
            acked_with_frame_pending: self.frame_pending,
            acked_with_sec_enh_ack: self.security_enhanced,
        }
    }
}

/// Event reported by the driver context to advance an exchange.
#[derive(Clone, Copy, Debug, PartialEq, Eq, Structural)]
pub enum ExchangeEvent {
    /// A clear channel assessment finished
    CcaResult { busy: bool },
    /// The PSDU finished going out over the air
    TxCompleted,
    /// A valid acknowledgment arrived
    AckReceived(AckInfo),
    /// A frame arrived in the ack window but failed validation (bad FCS or
    /// not an ack); a retryable condition
    AckInvalid,
    /// No acknowledgment arrived within the fixed timeout
    AckTimeout,
}

/// Terminal outcome of one exchange.
#[derive(Clone, Copy, Debug, PartialEq, Eq, Structural)]
pub enum TxOutcome {
    /// The frame went out; the acknowledgment, if one was requested, is
    /// carried along
    Success(Option<AckInfo>),
    /// The CSMA backoff limit was exceeded
    ChannelAccessFailure,
    /// No acknowledgment within the timeout after the last retry
    NoAck,
}

/// The single completion delivered for an exchange: the original frame comes
/// back to its owner together with the terminal outcome.
pub struct TxDone {
    /// The frame that was handed to [`FrameExchange::new`]
    pub frame: OTRadioFrame,
    /// The terminal outcome
    pub outcome: TxOutcome,
}

impl TxDone {
    /// The terminal error kind: `None` on success.
    pub open spec fn spec_error(&self) -> Option<OTError<()>> {
        match self.outcome {
            TxOutcome::Success(_) => None,
            TxOutcome::ChannelAccessFailure => Some(OTError::ChannelAccessFailure),
            TxOutcome::NoAck => Some(OTError::NoAck),
        }
    }

    /// Returns the terminal error kind: `None` on success.
    pub fn error(&self) -> (r: Option<OTError<()>>)
        ensures
            r == self.spec_error(),
    {
        match self.outcome {
            TxOutcome::Success(_) => None,
            TxOutcome::ChannelAccessFailure => Some(OTError::ChannelAccessFailure),
            TxOutcome::NoAck => Some(OTError::NoAck),
        }
    }

    /// Returns the acknowledgment received for the frame, if any.
    pub fn ack(&self) -> (r: Option<AckInfo>)
        ensures
            r == (match self.outcome {
                TxOutcome::Success(ack) => ack,
                _ => None::<AckInfo>,
            }),
    {
        match self.outcome {
            TxOutcome::Success(ack) => ack,
            _ => None,
        }
    }
}

/// Where an in-flight exchange stands.
#[derive(Clone, Copy, Debug, PartialEq, Eq, Structural)]
pub enum ExchangePhase {
    /// Waiting for a clear channel assessment result (software CSMA)
    CcaWait,
    /// The frame is with the radio; waiting for the end of the PSDU on air
    TxWait,
    /// Waiting for an acknowledgment
    AckWait,
    /// The terminal outcome has been delivered
    Complete,
}

/// True for frames a transmit accepts: a PSDU of 3 to 127 octets, a legal
/// channel, and transmit metadata.
pub open spec fn spec_tx_frame_valid(frame: OTRadioFrame) -> bool {
    &&& OT_RADIO_FRAME_MIN_SIZE <= frame.psdu@.len() <= OT_RADIO_FRAME_MAX_SIZE
    &&& spec_valid_channel(frame.channel)
    &&& frame.frame_information is TxInfo
}

/// Decides whether `frame` may be handed to a transmit.
pub fn tx_frame_valid(frame: &OTRadioFrame) -> (r: bool)
    ensures
        r == spec_tx_frame_valid(*frame),
{
    OT_RADIO_FRAME_MIN_SIZE <= frame.psdu.len() && frame.psdu.len() <= OT_RADIO_FRAME_MAX_SIZE
        && valid_channel(frame.channel)
        && matches!(frame.frame_information, OTFrameInformation::TxInfo { .. })
}

/// One transmit attempt in flight: the frame, the parameters drawn from its
/// transmit metadata, and the progress counters.
pub struct FrameExchange {
    /// The capability mask of the platform running the exchange
    pub caps: OTRadioCapabilities,
    /// The frame being transmitted; handed back in the completion
    pub frame: OTRadioFrame,
    /// Whether the PSDU's frame control field requests an acknowledgment
    pub ack_requested: bool,
    /// Whether the controller runs CSMA in software: the frame asks for
    /// CSMA-CA and the platform does not own hardware CSMA backoff
    pub csma: bool,
    /// Maximum number of backoffs before declaring CCA failure
    pub max_csma_backoffs: u8,
    /// Maximum number of retries after a transmission failure
    pub max_frame_retries: u8,
    /// Whether the frame header already carries its assigned frame counter
    pub is_header_updated: bool,
    /// The RX channel to settle on once the exchange is done
    pub rx_channel_after_tx_done: u8,
    /// Where the exchange stands
    pub phase: ExchangePhase,
    /// Clear channel assessments performed so far
    pub cca_attempts: u16,
    /// Physical transmissions started so far
    pub tx_attempts: u16,
    /// Security counter advances so far: one per physical transmission
    /// unless the header carries a previously assigned counter
    pub counter_advances: u16,
}

/// The exchange state a fresh transmit of `frame` starts in.
pub open spec fn spec_new_exchange(caps: OTRadioCapabilities, frame: OTRadioFrame) -> FrameExchange {
    match frame.frame_information {
        OTFrameInformation::TxInfo {
            max_csma_backoffs,
            max_frame_retries,
            rx_channel_after_tx_done,
            is_header_updated,
            csma_ca_enabled,
            ..
        } => {
            let csma = csma_ca_enabled && !spec_has_cap(caps, Capabilities::CSMABackoff);
            let tx_attempts: u16 = if csma {
                0
            } else {
                1
            };
            FrameExchange {
                caps,
                frame,
                ack_requested: spec_ack_requested(frame.psdu@),
                csma,
                max_csma_backoffs,
                max_frame_retries,
                is_header_updated,
                rx_channel_after_tx_done,
                phase: if csma {
                    ExchangePhase::CcaWait
                } else {
                    ExchangePhase::TxWait
                },
                cca_attempts: 0,
                tx_attempts,
                counter_advances: if is_header_updated {
                    0
                } else {
                    tx_attempts
                },
            }
        },
        OTFrameInformation::RxInfo { .. } => arbitrary(),
    }
}

impl FrameExchange {
    /// The parameters mirror the frame's transmit metadata and the counters
    /// fit the phase.
    pub open spec fn wf(&self) -> bool {
        &&& spec_tx_frame_valid(self.frame)
        &&& match self.frame.frame_information {
            OTFrameInformation::TxInfo {
                max_csma_backoffs,
                max_frame_retries,
                rx_channel_after_tx_done,
                is_header_updated,
                csma_ca_enabled,
                ..
            } => {
                &&& self.max_csma_backoffs == max_csma_backoffs
                &&& self.max_frame_retries == max_frame_retries
                &&& self.rx_channel_after_tx_done == rx_channel_after_tx_done
                &&& self.is_header_updated == is_header_updated
                &&& self.csma == (csma_ca_enabled && !spec_has_cap(
                    self.caps,
                    Capabilities::CSMABackoff,
                ))
            },
            OTFrameInformation::RxInfo { .. } => false,
        }
        &&& self.ack_requested == spec_ack_requested(self.frame.psdu@)
        &&& (self.phase is CcaWait ==> self.csma && self.tx_attempts == 0 && self.cca_attempts
            <= self.max_csma_backoffs)
        &&& (self.phase is TxWait ==> 1 <= self.tx_attempts <= self.max_frame_retries + 1)
        &&& (self.phase is AckWait ==> self.ack_requested && 1 <= self.tx_attempts
            <= self.max_frame_retries + 1)
        &&& self.cca_attempts <= self.max_csma_backoffs + 1
        &&& self.tx_attempts <= self.max_frame_retries + 1
        &&& (!self.csma ==> self.cca_attempts == 0)
        &&& self.counter_advances == (if self.is_header_updated {
            0int
        } else {
            self.tx_attempts as int
        })
    }

    /// Starts an exchange for a valid transmit frame. With software CSMA the
    /// exchange first waits for a clear channel assessment; otherwise the
    /// frame goes straight to the radio and the first physical attempt is
    /// under way.
    pub fn new(caps: OTRadioCapabilities, frame: OTRadioFrame) -> (ex: Self)
        requires
            spec_tx_frame_valid(frame),
        ensures
            ex == spec_new_exchange(caps, frame),
            ex.wf(),
            !(ex.phase is Complete),
            ex.csma ==> ex.phase is CcaWait && ex.cca_attempts == 0 && ex.tx_attempts == 0,
            !ex.csma ==> ex.phase is TxWait && ex.tx_attempts == 1,
    {
        let ack_req = ack_requested(&frame.psdu);
        match frame.frame_information {
            OTFrameInformation::TxInfo {
                max_csma_backoffs,
                max_frame_retries,
                rx_channel_after_tx_done,
                is_header_updated,
                csma_ca_enabled,
                ..
            } => {
                let csma = csma_ca_enabled && !has_cap(caps, Capabilities::CSMABackoff);
                let phase = if csma {
                    ExchangePhase::CcaWait
                } else {
                    ExchangePhase::TxWait
                };
                let tx_attempts: u16 = if csma {
                    0
                } else {
                    1
                };
                let counter_advances: u16 = if is_header_updated {
                    0
                } else {
                    tx_attempts
                };
                FrameExchange {
                    caps,
                    frame,
                    ack_requested: ack_req,
                    csma,
                    max_csma_backoffs,
                    max_frame_retries,
                    is_header_updated,
                    rx_channel_after_tx_done,
                    phase,
                    cca_attempts: 0,
                    tx_attempts,
                    counter_advances,
                }
            },
            OTFrameInformation::RxInfo { .. } => {
                proof {
                    assert(false);
                }
                unreached()
            },
        }
    }

    /// True for the events the exchange can absorb in its current phase. A
    /// completed exchange absorbs nothing: the one terminal completion has
    /// already been delivered.
    pub open spec fn spec_expects(&self, event: ExchangeEvent) -> bool {
        match (self.phase, event) {
            (ExchangePhase::CcaWait, ExchangeEvent::CcaResult { .. }) => true,
            (ExchangePhase::TxWait, ExchangeEvent::TxCompleted) => true,
            (ExchangePhase::AckWait, ExchangeEvent::AckReceived(_)) => true,
            (ExchangePhase::AckWait, ExchangeEvent::AckInvalid) => true,
            (ExchangePhase::AckWait, ExchangeEvent::AckTimeout) => true,
            _ => false,
        }
    }

    /// Decides whether the exchange can absorb `event` now.
    pub fn expects(&self, event: &ExchangeEvent) -> (r: bool)
        ensures
            r == self.spec_expects(*event),
    {
        match (&self.phase, event) {
            (ExchangePhase::CcaWait, ExchangeEvent::CcaResult { .. }) => true,
            (ExchangePhase::TxWait, ExchangeEvent::TxCompleted) => true,
            (ExchangePhase::AckWait, ExchangeEvent::AckReceived(_)) => true,
            (ExchangePhase::AckWait, ExchangeEvent::AckInvalid) => true,
            (ExchangePhase::AckWait, ExchangeEvent::AckTimeout) => true,
            _ => false,
        }
    }

    /// Whether a failed attempt may still be retried: the platform must
    /// advertise hardware retries and the retry budget must not be spent.
    pub open spec fn spec_may_retry(&self) -> bool {
        spec_has_cap(self.caps, Capabilities::TransmitRetries) && self.tx_attempts
            <= self.max_frame_retries
    }

    /// Security counter advances one physical attempt adds.
    pub open spec fn spec_advance(&self) -> int {
        if self.is_header_updated {
            0
        } else {
            1
        }
    }

    /// The exchange state after absorbing `event`.
    pub open spec fn spec_step_state(self, event: ExchangeEvent) -> FrameExchange {
        match (self.phase, event) {
            (ExchangePhase::CcaWait, ExchangeEvent::CcaResult { busy }) => {
                if !busy {
                    // channel clear: the first physical transmission starts
                    FrameExchange {
                        phase: ExchangePhase::TxWait,
                        cca_attempts: (self.cca_attempts + 1) as u16,
                        tx_attempts: (self.tx_attempts + 1) as u16,
                        counter_advances: (self.counter_advances + self.spec_advance()) as u16,
                        ..self
                    }
                } else if self.cca_attempts == self.max_csma_backoffs {
                    // the backoff limit is exceeded
                    FrameExchange {
                        phase: ExchangePhase::Complete,
                        cca_attempts: (self.cca_attempts + 1) as u16,
                        ..self
                    }
                } else {
                    // back off and assess again
                    FrameExchange { cca_attempts: (self.cca_attempts + 1) as u16, ..self }
                }
            },
            (ExchangePhase::TxWait, ExchangeEvent::TxCompleted) => {
                if self.ack_requested {
                    FrameExchange { phase: ExchangePhase::AckWait, ..self }
                } else {
                    FrameExchange { phase: ExchangePhase::Complete, ..self }
                }
            },
            (ExchangePhase::AckWait, ExchangeEvent::AckReceived(_)) => FrameExchange {
                phase: ExchangePhase::Complete,
                ..self
            },
            (ExchangePhase::AckWait, ExchangeEvent::AckInvalid)
            | (ExchangePhase::AckWait, ExchangeEvent::AckTimeout) => {
                if self.spec_may_retry() {
                    // repeat the transmission and ack wait, marking the frame
                    // as a retransmission; CSMA is not repeated
                    FrameExchange {
                        phase: ExchangePhase::TxWait,
                        tx_attempts: (self.tx_attempts + 1) as u16,
                        counter_advances: (self.counter_advances + self.spec_advance()) as u16,
                        ..self
                    }
                } else {
                    FrameExchange { phase: ExchangePhase::Complete, ..self }
                }
            },
            _ => self,
        }
    }

    /// The terminal outcome absorbing `event` delivers, if any.
    pub open spec fn spec_step_outcome(self, event: ExchangeEvent) -> Option<TxOutcome> {
        match (self.phase, event) {
            (ExchangePhase::CcaWait, ExchangeEvent::CcaResult { busy }) => {
                if busy && self.cca_attempts == self.max_csma_backoffs {
                    Some(TxOutcome::ChannelAccessFailure)
                } else {
                    None
                }
            },
            (ExchangePhase::TxWait, ExchangeEvent::TxCompleted) => {
                if self.ack_requested {
                    None
                } else {
                    Some(TxOutcome::Success(None))
                }
            },
            (ExchangePhase::AckWait, ExchangeEvent::AckReceived(info)) => Some(
                TxOutcome::Success(Some(info)),
            ),
            (ExchangePhase::AckWait, ExchangeEvent::AckInvalid)
            | (ExchangePhase::AckWait, ExchangeEvent::AckTimeout) => {
                if self.spec_may_retry() {
                    None
                } else {
                    Some(TxOutcome::NoAck)
                }
            },
            _ => None,
        }
    }

    /// Absorbs one driver event and returns the terminal outcome when the
    /// exchange has settled. At most one call ever returns `Some`.
    pub fn step(&mut self, event: ExchangeEvent) -> (out: Option<TxOutcome>)
        requires
            old(self).wf(),
            old(self).spec_expects(event),
        ensures
            final(self).wf(),
            *final(self) == old(self).spec_step_state(event),
            out == old(self).spec_step_outcome(event),
            out is Some <==> final(self).phase is Complete,
    {
        match event {
            ExchangeEvent::CcaResult { busy } => {
                self.cca_attempts += 1;
                if !busy {
                    self.phase = ExchangePhase::TxWait;
                    self.tx_attempts += 1;
                    if !self.is_header_updated {
                        self.counter_advances += 1;
                    }
                    None
                } else if self.cca_attempts > self.max_csma_backoffs as u16 {
                    self.phase = ExchangePhase::Complete;
                    Some(TxOutcome::ChannelAccessFailure)
                } else {
                    None
                }
            },
            ExchangeEvent::TxCompleted => {
                if self.ack_requested {
                    self.phase = ExchangePhase::AckWait;
                    None
                } else {
                    self.phase = ExchangePhase::Complete;
                    Some(TxOutcome::Success(None))
                }
            },
            ExchangeEvent::AckReceived(info) => {
                self.phase = ExchangePhase::Complete;
                Some(TxOutcome::Success(Some(info)))
            },
            ExchangeEvent::AckInvalid | ExchangeEvent::AckTimeout => {
                if has_cap(self.caps, Capabilities::TransmitRetries)
                    && self.tx_attempts <= self.max_frame_retries as u16 {
                    self.phase = ExchangePhase::TxWait;
                    self.tx_attempts += 1;
                    if !self.is_header_updated {
                        self.counter_advances += 1;
                    }
                    None
                } else {
                    self.phase = ExchangePhase::Complete;
                    Some(TxOutcome::NoAck)
                }
            },
        }
    }

    /// Whether the attempt under way is a repetition: every physical
    /// transmission after the first is marked as a retransmission.
    pub fn is_retransmission(&self) -> (r: bool)
        ensures
            r == (self.tx_attempts > 1),
    {
        self.tx_attempts > 1
    }

    /// The channel the radio settles on once the exchange is done: the
    /// configured post-exchange channel when the platform advertises hardware
    /// retries and the channel is legal, else the channel configured last.
    pub open spec fn spec_post_channel(&self, last_channel: u8) -> u8 {
        if spec_has_cap(self.caps, Capabilities::TransmitRetries) && spec_valid_channel(
            self.rx_channel_after_tx_done,
        ) {
            self.rx_channel_after_tx_done
        } else {
            last_channel
        }
    }

    /// Computes the channel the radio settles on once the exchange is done.
    pub fn post_channel(&self, last_channel: u8) -> (r: u8)
        ensures
            r == self.spec_post_channel(last_channel),
    {
        if has_cap(self.caps, Capabilities::TransmitRetries)
            && valid_channel(self.rx_channel_after_tx_done) {
            self.rx_channel_after_tx_done
        } else {
            last_channel
        }
    }
}

/// A transmit with no CSMA backoff budget and a busy channel fails with
/// channel access failure after exactly one assessment.
pub proof fn lemma_csma_exhausted_after_one_assessment(ex: FrameExchange)
    requires
        ex.wf(),
        ex.phase is CcaWait,
        ex.max_csma_backoffs == 0,
    ensures
        ex.spec_step_outcome(ExchangeEvent::CcaResult { busy: true }) == Some(
            TxOutcome::ChannelAccessFailure,
        ),
        ex.spec_step_state(ExchangeEvent::CcaResult { busy: true }).cca_attempts == 1,
        ex.spec_step_state(ExchangeEvent::CcaResult { busy: true }).tx_attempts == 0,
{
}

/// An acknowledgment that never arrives settles the exchange with `NoAck`
/// once the retry budget is spent, and with the platform's last retry when
/// hardware retries are advertised that takes `max_frame_retries + 1`
/// physical attempts in all.
pub proof fn lemma_no_ack_after_last_retry(ex: FrameExchange)
    requires
        ex.wf(),
        ex.phase is AckWait,
        !ex.spec_may_retry(),
    ensures
        ex.spec_step_outcome(ExchangeEvent::AckTimeout) == Some(TxOutcome::NoAck),
        ex.spec_step_state(ExchangeEvent::AckTimeout).phase is Complete,
        spec_has_cap(ex.caps, Capabilities::TransmitRetries) ==> ex.tx_attempts
            == ex.max_frame_retries + 1,
{
}

/// For a given in-flight exchange exactly one terminal completion is ever
/// delivered, and after the final attempt, never before: an event yields an
/// outcome exactly when it settles the exchange, and a settled exchange
/// absorbs no further event.
pub proof fn lemma_one_terminal_completion(ex: FrameExchange, event: ExchangeEvent)
    ensures
        ex.spec_step_outcome(event) is Some <==> ex.spec_expects(event)
            && ex.spec_step_state(event).phase is Complete,
        ex.phase is Complete ==> !ex.spec_expects(event),
{
}

/// Security counters advance exactly once per physical transmission, and not
/// at all when the header carries a previously assigned counter.
pub proof fn lemma_counter_advances_once_per_attempt(ex: FrameExchange)
    requires
        ex.wf(),
    ensures
        !ex.is_header_updated ==> ex.counter_advances == ex.tx_attempts,
        ex.is_header_updated ==> ex.counter_advances == 0,
{
}

} // verus!
