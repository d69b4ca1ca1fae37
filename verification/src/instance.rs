//! The radio state machine.
//!
//! [`OTInstance`] owns the operational radio state and mediates every other
//! component: it is the single serialization point between the control loop
//! (which issues transitions and operations) and the driver context (which
//! reports completions). Exactly one operation — a transmit, an energy scan
//! or a scheduled receive window — may be outstanding at a time; a second one
//! is refused with `Busy`. A transition requested from a state that does not
//! permit it fails with `InvalidState` and leaves no partial state change
//! observable.
//!
//! Cancellation policy: there is no cancel primitive. `disable()` transitions
//! to `Disabled` at once and guarantees that no further completion is
//! delivered for the cancelled operation; a pending energy scan is marked
//! aborted so its result reads back as `Abort`, and a pending transmit frame
//! is dropped.

use vstd::prelude::*;
use crate::coex::{CoexEvent, CoexMonitor, spec_record, spec_zero_metrics};
use crate::csl::CslState;
use crate::error::OTError;
use crate::exchange::{
    spec_new_exchange, ExchangeEvent, FrameExchange, TxDone, tx_frame_valid, spec_tx_frame_valid,
};
use crate::match_table::SourceAddressMatchTable;
use crate::radio::{
    spec_has_cap, spec_valid_channel, has_cap, valid_channel, Capabilities, OTExtAddress, OTPanId,
    OTRadioCapabilities, OTRadioCoexMetrics, OTRadioFrame, OTRadioState, OTShortAddress,
};

verus! {

/// The one operation that may be outstanding.
#[derive(Clone, Copy, Debug, PartialEq, Eq, Structural)]
pub enum PendingOp {
    /// Nothing outstanding
    Idle,
    /// A frame exchange is in flight
    Transmit,
    /// An energy scan is running
    EnergyScan,
    /// A receive window is scheduled
    ScheduledReceive,
}

/// Result of the most recent energy scan.
#[derive(Clone, Copy, Debug, PartialEq, Eq, Structural)]
pub enum EnergyScanResult {
    /// No result yet: no scan ran, or one is still running
    NoResult,
    /// The peak RSSI observed during the last completed scan window
    Ready(i8),
    /// The last scan was forced out of `Receive`/`Sleep` before completing
    Aborted,
}

/// A scheduled receive window.
#[derive(Clone, Copy, Debug, PartialEq, Eq, Structural)]
pub struct ScheduledReceive {
    /// Channel to receive on
    pub channel: u8,
    /// Window start, in radio-clock microseconds
    pub start: u32,
    /// Window duration in microseconds
    pub duration: u32,
}

/// A state transition request, as the transition law sees it.
#[derive(Clone, Copy, Debug, PartialEq, Eq, Structural)]
pub enum TransitionCall {
    Enable,
    Disable,
    Sleep,
    Receive(u8),
    /// A transmit request; the flag tells whether the platform advertises
    /// the sleep-to-transmit capability
    Transmit { sleep_to_tx: bool },
}

/// Whether the radio state `s` permits the transition `c`.
pub open spec fn spec_transition_permitted(s: OTRadioState, c: TransitionCall) -> bool {
    match c {
        TransitionCall::Enable => s is Disabled,
        TransitionCall::Disable => s is Sleep || s is Receive || s is Transmit,
        TransitionCall::Sleep => s is Receive,
        TransitionCall::Receive(_) => s is Sleep || s is Receive,
        TransitionCall::Transmit { sleep_to_tx } => s is Receive || (s is Sleep && sleep_to_tx),
    }
}

/// The state a permitted transition `c` commits.
pub open spec fn spec_transition_target(s: OTRadioState, c: TransitionCall) -> OTRadioState {
    match c {
        TransitionCall::Enable => OTRadioState::Sleep,
        TransitionCall::Disable => OTRadioState::Disabled,
        TransitionCall::Sleep => OTRadioState::Sleep,
        TransitionCall::Receive(_) => OTRadioState::Receive,
        TransitionCall::Transmit { .. } => OTRadioState::Transmit,
    }
}

/// The edges of the radio state diagram: the cycle
/// Disabled <-> Sleep <-> Receive <-> Transmit, the sleep-to-transmit
/// shortcut, the completion edge Transmit -> Receive, a channel change within
/// Receive, and the abort edges into Disabled.
pub open spec fn spec_valid_edge(from: OTRadioState, to: OTRadioState) -> bool {
    ||| (from is Disabled && to is Sleep)
    ||| (from is Sleep && to is Disabled)
    ||| (from is Sleep && to is Receive)
    ||| (from is Receive && to is Sleep)
    ||| (from is Receive && to is Receive)
    ||| (from is Receive && to is Transmit)
    ||| (from is Sleep && to is Transmit)
    ||| (from is Transmit && to is Receive)
    ||| (from is Receive && to is Disabled)
    ||| (from is Transmit && to is Disabled)
}

/// The transition law: from any reachable state, a transition call either
/// commits a state on a valid edge of the diagram — never `Invalid`, never an
/// undefined third state — or is refused and commits nothing.
pub proof fn lemma_transitions_follow_diagram(s: OTRadioState, c: TransitionCall)
    requires
        !(s is Invalid),
    ensures
        spec_transition_permitted(s, c) ==> spec_valid_edge(s, spec_transition_target(s, c)),
        !(spec_transition_target(s, c) is Invalid),
{
}

/// The state one transition call leaves the radio in: the valid target when
/// the call is permitted, the unchanged state (with `InvalidState` reported)
/// when it is not.
pub open spec fn spec_apply_transition(s: OTRadioState, c: TransitionCall) -> OTRadioState {
    if spec_transition_permitted(s, c) {
        spec_transition_target(s, c)
    } else {
        s
    }
}

/// The state a whole sequence of transition calls leaves the radio in.
pub open spec fn spec_run_transitions(s: OTRadioState, calls: Seq<TransitionCall>) -> OTRadioState
    decreases calls.len(),
{
    if calls.len() == 0 {
        s
    } else {
        spec_run_transitions(spec_apply_transition(s, calls[0]), calls.skip(1))
    }
}

/// Over any sequence of transition calls, the observed state after each call
/// is exactly the valid transition applied or the unchanged state — never an
/// undefined third state, and never `Invalid`.
pub proof fn lemma_no_undefined_state(s: OTRadioState, calls: Seq<TransitionCall>)
    requires
        !(s is Invalid),
    ensures
        !(spec_run_transitions(s, calls) is Invalid),
    decreases calls.len(),
{
    if calls.len() > 0 {
        lemma_transitions_follow_diagram(s, calls[0]);
        lemma_no_undefined_state(spec_apply_transition(s, calls[0]), calls.skip(1));
    }
}

/// The radio state machine: the top-level component owning the current
/// operational state, the in-flight operation, and the match table, CSL,
/// scan and coexistence state.
pub struct OTInstance {
    /// Capability mask queried from the platform once at initialization
    pub caps: OTRadioCapabilities,
    /// The last fully-committed operational state
    pub state: OTRadioState,
    /// The channel configured last
    pub channel: u8,
    /// The operation outstanding now
    pub pending: PendingOp,
    /// The frame exchange in flight, when `pending` is `Transmit`
    pub exchange: Option<FrameExchange>,
    /// The receive window scheduled, when `pending` is `ScheduledReceive`
    pub scheduled: Option<ScheduledReceive>,
    /// Channel of the running or last energy scan
    pub scan_channel: u8,
    /// Result of the most recent energy scan
    pub scan_result: EnergyScanResult,
    /// Source address match table deciding frame-pending bits
    pub src_match: SourceAddressMatchTable,
    /// CSL receiver state
    pub csl: CslState,
    /// Coexistence monitor
    pub coex: CoexMonitor,
    /// PAN ID used for address filtering
    pub pan_id: OTPanId,
    /// Short address used for address filtering
    pub short_address: OTShortAddress,
    /// Extended address used for address filtering
    pub ext_address: OTExtAddress,
    /// Transmit power in dBm
    pub transmit_power: i8,
    /// Whether promiscuous mode is on
    pub promiscuous: bool,
    /// The rx-on-when-idle configuration
    pub rx_on_when_idle: bool,
}

impl OTInstance {
    /// The machine's invariant: the pending operation, the stored operation
    /// data and the operational state agree, and every component is
    /// well-formed.
    pub open spec fn wf(&self) -> bool {
        &&& !(self.state is Invalid)
        &&& (self.pending is Transmit <==> self.state is Transmit)
        &&& (self.pending is Transmit <==> self.exchange is Some)
        &&& (self.exchange matches Some(ex) ==> ex.wf() && !(ex.phase is Complete) && ex.caps
            == self.caps)
        &&& (self.pending is ScheduledReceive <==> self.scheduled is Some)
        &&& (self.pending is ScheduledReceive ==> self.state is Sleep || self.state is Receive)
        &&& (self.pending is EnergyScan ==> (self.state is Sleep || self.state is Receive)
            && self.scan_result is NoResult)
        &&& (self.state is Disabled ==> self.pending is Idle)
        &&& self.src_match.wf()
    }

    /// Creates a radio in the `Disabled` state with the given capability
    /// mask and the CSL accuracy and uncertainty the driver reports.
    pub fn new(caps: OTRadioCapabilities, csl_accuracy_ppm: u8, csl_uncertainty: u8) -> (r: Self)
        ensures
            r.wf(),
            r.caps == caps,
            r.state is Disabled,
            r.pending is Idle,
            r.scan_result is NoResult,
            !r.src_match.enabled,
            r.src_match.short_set() == Set::<u16>::empty(),
            r.src_match.ext_set() == Set::<Seq<u8>>::empty(),
            !r.csl.enabled,
            r.csl.accuracy_ppm == csl_accuracy_ppm,
            r.csl.uncertainty == csl_uncertainty,
            !r.coex.enabled,
            r.coex.metrics == spec_zero_metrics(),
    {
        OTInstance {
            caps,
            state: OTRadioState::Disabled,
            channel: 0,
            pending: PendingOp::Idle,
            exchange: None,
            scheduled: None,
            scan_channel: 0,
            scan_result: EnergyScanResult::NoResult,
            src_match: SourceAddressMatchTable::new(),
            csl: CslState::new(csl_accuracy_ppm, csl_uncertainty),
            coex: CoexMonitor::new(),
            pan_id: 0,
            short_address: 0,
            ext_address: [0, 0, 0, 0, 0, 0, 0, 0],
            transmit_power: 0,
            promiscuous: false,
            rx_on_when_idle: false,
        }
    }

    /// The last fully-committed state. Never blocks, and reports `Transmit`
    /// for the whole attempt, from submission to completion.
    pub fn get_state(&self) -> (r: OTRadioState)
        ensures
            r == self.state,
    {
        self.state
    }

    /// Whether the radio is enabled (in any state but `Disabled`).
    pub fn is_enabled(&self) -> (r: bool)
        ensures
            r == !(self.state is Disabled),
    {
        !matches!(self.state, OTRadioState::Disabled)
    }

    /// The capability mask queried at initialization.
    pub fn radio_capabilities(&self) -> (r: OTRadioCapabilities)
        ensures
            r == self.caps,
    {
        self.caps
    }

    /// Enables the radio: `Disabled` -> `Sleep`. From any other state the
    /// call fails with `InvalidState` and commits nothing.
    pub fn enable(&mut self) -> (r: Result<(), OTError<()>>)
        requires
            old(self).wf(),
        ensures
            final(self).wf(),
            r is Ok <==> spec_transition_permitted(old(self).state, TransitionCall::Enable),
            final(self).state == spec_apply_transition(old(self).state, TransitionCall::Enable),
            r is Ok ==> *final(self) == (Self {
                state: spec_transition_target(old(self).state, TransitionCall::Enable),
                ..*old(self)
            }),
            r is Err ==> r == Err::<(), OTError<()>>(OTError::InvalidState) && *final(self)
                == *old(self),
    {
        match self.state {
            OTRadioState::Disabled => {
                self.state = OTRadioState::Sleep;
                Ok(())
            },
            _ => Err(OTError::InvalidState),
        }
    }

    /// Disables the radio from any enabled state. The pending operation, if
    /// one is outstanding, is cancelled: no completion will be delivered for
    /// it, a running energy scan is marked aborted, and an in-flight frame is
    /// dropped. Calling `disable` on a disabled radio fails with
    /// `InvalidState`.
    pub fn disable(&mut self) -> (r: Result<(), OTError<()>>)
        requires
            old(self).wf(),
        ensures
            final(self).wf(),
            r is Ok <==> spec_transition_permitted(old(self).state, TransitionCall::Disable),
            final(self).state == spec_apply_transition(old(self).state, TransitionCall::Disable),
            r is Ok ==> *final(self) == (Self {
                state: OTRadioState::Disabled,
                pending: PendingOp::Idle,
                exchange: None,
                scheduled: None,
                scan_result: if old(self).pending is EnergyScan {
                    EnergyScanResult::Aborted
                } else {
                    old(self).scan_result
                },
                ..*old(self)
            }),
            r is Err ==> r == Err::<(), OTError<()>>(OTError::InvalidState) && *final(self)
                == *old(self),
    {
        match self.state {
            OTRadioState::Disabled => Err(OTError::InvalidState),
            _ => {
                if matches!(self.pending, PendingOp::EnergyScan) {
                    self.scan_result = EnergyScanResult::Aborted;
                }
                self.state = OTRadioState::Disabled;
                self.pending = PendingOp::Idle;
                self.exchange = None;
                self.scheduled = None;
                Ok(())
            },
        }
    }

    /// Turns the radio off: `Receive` -> `Sleep`. From any other state the
    /// call fails with `InvalidState` and commits nothing.
    pub fn sleep(&mut self) -> (r: Result<(), OTError<()>>)
        requires
            old(self).wf(),
        ensures
            final(self).wf(),
            r is Ok <==> spec_transition_permitted(old(self).state, TransitionCall::Sleep),
            final(self).state == spec_apply_transition(old(self).state, TransitionCall::Sleep),
            r is Ok ==> *final(self) == (Self { state: OTRadioState::Sleep, ..*old(self) }),
            r is Err ==> r == Err::<(), OTError<()>>(OTError::InvalidState) && *final(self)
                == *old(self),
    {
        match self.state {
            OTRadioState::Receive => {
                self.state = OTRadioState::Sleep;
                Ok(())
            },
            _ => Err(OTError::InvalidState),
        }
    }

    /// Turns the radio on: `Sleep` -> `Receive` on `channel`, or a channel
    /// change within `Receive`. From any other state the call fails with
    /// `InvalidState`; an illegal channel is refused with `InvalidArgs`.
    /// Either refusal commits nothing.
    pub fn receive(&mut self, channel: u8) -> (r: Result<(), OTError<()>>)
        requires
            old(self).wf(),
        ensures
            final(self).wf(),
            r is Ok <==> spec_transition_permitted(old(self).state, TransitionCall::Receive(channel))
                && spec_valid_channel(channel),
            spec_valid_channel(channel) ==> final(self).state == spec_apply_transition(
                old(self).state,
                TransitionCall::Receive(channel),
            ),
            r is Ok ==> *final(self) == (Self {
                state: OTRadioState::Receive,
                channel,
                ..*old(self)
            }),
            !spec_transition_permitted(old(self).state, TransitionCall::Receive(channel)) ==> r
                == Err::<(), OTError<()>>(OTError::InvalidState),
            spec_transition_permitted(old(self).state, TransitionCall::Receive(channel))
                && !spec_valid_channel(channel) ==> r == Err::<(), OTError<()>>(
                OTError::InvalidArgs,
            ),
            r is Err ==> *final(self) == *old(self),
    {
        match self.state {
            OTRadioState::Sleep | OTRadioState::Receive => {
                if !valid_channel(channel) {
                    return Err(OTError::InvalidArgs);
                }
                self.state = OTRadioState::Receive;
                self.channel = channel;
                Ok(())
            },
            _ => Err(OTError::InvalidState),
        }
    }

    /// Begins the transmit sequence for `frame`.
    ///
    /// A second operation while one is outstanding is refused with `Busy`.
    /// The transition is permitted from `Receive`, and from `Sleep` when the
    /// platform advertises sleep-to-transmit; any other state — transmitting
    /// from `Disabled` in particular — fails with `InvalidState`. A malformed
    /// frame (PSDU length outside 3..=127, illegal channel, or receive
    /// metadata) is refused with `InvalidArgs`. Any refusal commits nothing.
    ///
    /// On success the radio is in `Transmit` for the whole attempt and the
    /// frame exchange controller takes over; the driver advances it through
    /// [`Self::on_exchange_event`].
    pub fn transmit(&mut self, frame: OTRadioFrame) -> (r: Result<(), OTError<()>>)
        requires
            old(self).wf(),
        ensures
            final(self).wf(),
            r is Ok <==> old(self).pending is Idle && spec_transition_permitted(
                old(self).state,
                TransitionCall::Transmit {
                    sleep_to_tx: spec_has_cap(old(self).caps, Capabilities::SleepToTx),
                },
            ) && spec_tx_frame_valid(frame),
            !(old(self).pending is Idle) ==> r == Err::<(), OTError<()>>(OTError::Busy),
            old(self).pending is Idle && !spec_transition_permitted(
                old(self).state,
                TransitionCall::Transmit {
                    sleep_to_tx: spec_has_cap(old(self).caps, Capabilities::SleepToTx),
                },
            ) ==> r == Err::<(), OTError<()>>(OTError::InvalidState),
            old(self).pending is Idle && spec_transition_permitted(
                old(self).state,
                TransitionCall::Transmit {
                    sleep_to_tx: spec_has_cap(old(self).caps, Capabilities::SleepToTx),
                },
            ) && !spec_tx_frame_valid(frame) ==> r == Err::<(), OTError<()>>(OTError::InvalidArgs),
            old(self).state is Disabled ==> r == Err::<(), OTError<()>>(OTError::InvalidState)
                && *final(self) == *old(self),
            old(self).pending is Idle && spec_tx_frame_valid(frame) ==> final(self).state
                == spec_apply_transition(
                old(self).state,
                TransitionCall::Transmit {
                    sleep_to_tx: spec_has_cap(old(self).caps, Capabilities::SleepToTx),
                },
            ),
            r is Err ==> *final(self) == *old(self),
            r is Ok ==> *final(self) == (Self {
                state: OTRadioState::Transmit,
                pending: PendingOp::Transmit,
                exchange: Some(spec_new_exchange(old(self).caps, frame)),
                ..*old(self)
            }),
    {
        if !matches!(self.pending, PendingOp::Idle) {
            return Err(OTError::Busy);
        }
        let permitted = match self.state {
            OTRadioState::Receive => true,
            OTRadioState::Sleep => has_cap(self.caps, Capabilities::SleepToTx),
            _ => false,
        };
        if !permitted {
            return Err(OTError::InvalidState);
        }
        if !tx_frame_valid(&frame) {
            return Err(OTError::InvalidArgs);
        }
        self.exchange = Some(FrameExchange::new(self.caps, frame));
        self.pending = PendingOp::Transmit;
        self.state = OTRadioState::Transmit;
        Ok(())
    }

    /// Advances the in-flight exchange by one driver event.
    ///
    /// With no exchange in flight, or with an event the exchange cannot
    /// absorb in its phase, the call fails with `InvalidState` and commits
    /// nothing. Otherwise the exchange steps; when it settles, the one
    /// terminal completion comes back — carrying the original frame and the
    /// outcome — the radio commits `Transmit` -> `Receive`, and the channel
    /// settles on the configured post-exchange channel when the platform
    /// advertises hardware retries, else on the channel configured last. The
    /// completion is delivered exactly once, after the last retry and never
    /// before: a settled exchange absorbs no further event.
    pub fn on_exchange_event(&mut self, event: ExchangeEvent) -> (r: Result<
        Option<TxDone>,
        OTError<()>,
    >)
        requires
            old(self).wf(),
        ensures
            final(self).wf(),
            !(old(self).pending is Transmit) ==> r == Err::<Option<TxDone>, OTError<()>>(
                OTError::InvalidState,
            ) && *final(self) == *old(self),
            old(self).exchange matches Some(ex) ==> {
                &&& !ex.spec_expects(event) ==> r == Err::<Option<TxDone>, OTError<()>>(
                    OTError::InvalidState,
                ) && *final(self) == *old(self)
                &&& ex.spec_expects(event) && ex.spec_step_outcome(event) is None ==> r == Ok::<
                    _,
                    OTError<()>,
                >(None::<TxDone>) && *final(self) == (Self {
                    exchange: Some(ex.spec_step_state(event)),
                    ..*old(self)
                })
                &&& ex.spec_expects(event) ==> (ex.spec_step_outcome(event) matches Some(outcome)
                    ==> (r == Ok::<_, OTError<()>>(Some(TxDone { frame: ex.frame, outcome }))
                    && *final(self) == (Self {
                    state: OTRadioState::Receive,
                    channel: ex.spec_post_channel(old(self).channel),
                    pending: PendingOp::Idle,
                    exchange: None,
                    ..*old(self)
                })))
            },
    {
        if !matches!(self.pending, PendingOp::Transmit) {
            return Err(OTError::InvalidState);
        }
        match self.exchange.take() {
            Some(mut ex) => {
                if !ex.expects(&event) {
                    self.exchange = Some(ex);
                    return Err(OTError::InvalidState);
                }
                match ex.step(event) {
                    None => {
                        self.exchange = Some(ex);
                        Ok(None)
                    },
                    Some(outcome) => {
                        self.channel = ex.post_channel(self.channel);
                        self.state = OTRadioState::Receive;
                        self.pending = PendingOp::Idle;
                        Ok(Some(TxDone { frame: ex.frame, outcome }))
                    },
                }
            },
            None => {
                proof {
                    assert(false);
                }
                unreached()
            },
        }
    }

    /// Schedules a receive window at `start` for `duration` microseconds on
    /// `channel`.
    ///
    /// Refusals, in the order checked: `Busy` with an operation outstanding,
    /// `InvalidState` outside `Sleep`/`Receive`, `NotImplemented` without the
    /// receive-timing capability, `InvalidArgs` for an illegal channel or an
    /// empty window. A refusal commits nothing.
    pub fn receive_at(&mut self, channel: u8, start: u32, duration: u32) -> (r: Result<
        (),
        OTError<()>,
    >)
        requires
            old(self).wf(),
        ensures
            final(self).wf(),
            r is Ok <==> old(self).pending is Idle && (old(self).state is Sleep || old(self).state
                is Receive) && spec_has_cap(old(self).caps, Capabilities::ReceiveTiming)
                && spec_valid_channel(channel) && duration > 0,
            !(old(self).pending is Idle) ==> r == Err::<(), OTError<()>>(OTError::Busy),
            old(self).pending is Idle && !(old(self).state is Sleep || old(self).state is Receive)
                ==> r == Err::<(), OTError<()>>(OTError::InvalidState),
            old(self).pending is Idle && (old(self).state is Sleep || old(self).state is Receive)
                && !spec_has_cap(old(self).caps, Capabilities::ReceiveTiming) ==> r == Err::<
                (),
                OTError<()>,
            >(OTError::NotImplemented),
            old(self).pending is Idle && (old(self).state is Sleep || old(self).state is Receive)
                && spec_has_cap(old(self).caps, Capabilities::ReceiveTiming)
                && !(spec_valid_channel(channel) && duration > 0) ==> r == Err::<(), OTError<()>>(
                OTError::InvalidArgs,
            ),
            r is Err ==> *final(self) == *old(self),
            r is Ok ==> *final(self) == (Self {
                pending: PendingOp::ScheduledReceive,
                scheduled: Some(ScheduledReceive { channel, start, duration }),
                ..*old(self)
            }),
    {
        if !matches!(self.pending, PendingOp::Idle) {
            return Err(OTError::Busy);
        }
        if !matches!(self.state, OTRadioState::Sleep | OTRadioState::Receive) {
            return Err(OTError::InvalidState);
        }
        if !has_cap(self.caps, Capabilities::ReceiveTiming) {
            return Err(OTError::NotImplemented);
        }
        if !valid_channel(channel) || duration == 0 {
            return Err(OTError::InvalidArgs);
        }
        self.scheduled = Some(ScheduledReceive { channel, start, duration });
        self.pending = PendingOp::ScheduledReceive;
        Ok(())
    }

    /// Reports that the scheduled receive window has elapsed: the radio
    /// settles in `Receive` on the window's channel. With no window scheduled
    /// the call fails with `InvalidState` and commits nothing.
    pub fn on_receive_at_done(&mut self) -> (r: Result<(), OTError<()>>)
        requires
            old(self).wf(),
        ensures
            final(self).wf(),
            r is Ok <==> old(self).pending is ScheduledReceive,
            r is Err ==> r == Err::<(), OTError<()>>(OTError::InvalidState) && *final(self)
                == *old(self),
            old(self).pending is ScheduledReceive ==> (old(self).scheduled matches Some(win)
                ==> (r is Ok && *final(self) == (Self {
                state: OTRadioState::Receive,
                channel: win.channel,
                pending: PendingOp::Idle,
                scheduled: None,
                ..*old(self)
            }))),
    {
        if !matches!(self.pending, PendingOp::ScheduledReceive) {
            return Err(OTError::InvalidState);
        }
        match self.scheduled.take() {
            Some(win) => {
                self.state = OTRadioState::Receive;
                self.channel = win.channel;
                self.pending = PendingOp::Idle;
                Ok(())
            },
            None => {
                proof {
                    assert(false);
                }
                unreached()
            },
        }
    }

    /// Begins an asynchronous energy scan of `channel` for `duration`
    /// milliseconds.
    ///
    /// Refusals, in the order checked: `Busy` with an operation outstanding,
    /// `InvalidState` outside `Sleep`/`Receive`, `NotImplemented` without the
    /// energy-scan capability, `InvalidArgs` for an illegal channel or an
    /// empty duration. A refusal commits nothing.
    pub fn energy_scan(&mut self, channel: u8, duration: i16) -> (r: Result<(), OTError<()>>)
        requires
            old(self).wf(),
        ensures
            final(self).wf(),
            r is Ok <==> old(self).pending is Idle && (old(self).state is Sleep || old(self).state
                is Receive) && spec_has_cap(old(self).caps, Capabilities::EnergyScan)
                && spec_valid_channel(channel) && duration > 0,
            !(old(self).pending is Idle) ==> r == Err::<(), OTError<()>>(OTError::Busy),
            old(self).pending is Idle && !(old(self).state is Sleep || old(self).state is Receive)
                ==> r == Err::<(), OTError<()>>(OTError::InvalidState),
            old(self).pending is Idle && (old(self).state is Sleep || old(self).state is Receive)
                && !spec_has_cap(old(self).caps, Capabilities::EnergyScan) ==> r == Err::<
                (),
                OTError<()>,
            >(OTError::NotImplemented),
            old(self).pending is Idle && (old(self).state is Sleep || old(self).state is Receive)
                && spec_has_cap(old(self).caps, Capabilities::EnergyScan)
                && !(spec_valid_channel(channel) && duration > 0) ==> r == Err::<(), OTError<()>>(
                OTError::InvalidArgs,
            ),
            r is Err ==> *final(self) == *old(self),
            r is Ok ==> *final(self) == (Self {
                pending: PendingOp::EnergyScan,
                scan_channel: channel,
                scan_result: EnergyScanResult::NoResult,
                ..*old(self)
            }),
    {
        if !matches!(self.pending, PendingOp::Idle) {
            return Err(OTError::Busy);
        }
        if !matches!(self.state, OTRadioState::Sleep | OTRadioState::Receive) {
            return Err(OTError::InvalidState);
        }
        if !has_cap(self.caps, Capabilities::EnergyScan) {
            return Err(OTError::NotImplemented);
        }
        if !valid_channel(channel) || duration <= 0 {
            return Err(OTError::InvalidArgs);
        }
        self.scan_channel = channel;
        self.scan_result = EnergyScanResult::NoResult;
        self.pending = PendingOp::EnergyScan;
        Ok(())
    }

    /// Reports the peak RSSI the finished scan observed. With no scan running
    /// the call fails with `InvalidState` and commits nothing.
    pub fn on_energy_scan_result(&mut self, max_rssi: i8) -> (r: Result<i8, OTError<()>>)
        requires
            old(self).wf(),
        ensures
            final(self).wf(),
            r is Ok <==> old(self).pending is EnergyScan,
            old(self).pending is EnergyScan ==> r == Ok::<i8, OTError<()>>(max_rssi)
                && *final(self) == (Self {
                pending: PendingOp::Idle,
                scan_result: EnergyScanResult::Ready(max_rssi),
                ..*old(self)
            }),
            r is Err ==> r == Err::<i8, OTError<()>>(OTError::InvalidState) && *final(self)
                == *old(self),
    {
        if !matches!(self.pending, PendingOp::EnergyScan) {
            return Err(OTError::InvalidState);
        }
        self.scan_result = EnergyScanResult::Ready(max_rssi);
        self.pending = PendingOp::Idle;
        Ok(max_rssi)
    }

    /// Reads out the most recent energy scan result: the peak RSSI once the
    /// scan completed, `Abort` when the scan was cancelled by `disable()`,
    /// `Pending` while one is still running, and `InvalidState` when no scan
    /// ever ran.
    pub fn energy_scan_done(&mut self) -> (r: Result<i8, OTError<()>>)
        requires
            old(self).wf(),
        ensures
            final(self).wf(),
            *final(self) == *old(self),
            old(self).scan_result matches EnergyScanResult::Ready(rssi) ==> r == Ok::<
                i8,
                OTError<()>,
            >(rssi),
            old(self).scan_result is Aborted ==> r == Err::<i8, OTError<()>>(OTError::Abort),
            old(self).scan_result is NoResult && old(self).pending is EnergyScan ==> r == Err::<
                i8,
                OTError<()>,
            >(OTError::Pending),
            old(self).scan_result is NoResult && !(old(self).pending is EnergyScan) ==> r == Err::<
                i8,
                OTError<()>,
            >(OTError::InvalidState),
    {
        match self.scan_result {
            EnergyScanResult::Ready(rssi) => Ok(rssi),
            EnergyScanResult::Aborted => Err(OTError::Abort),
            EnergyScanResult::NoResult => {
                if matches!(self.pending, PendingOp::EnergyScan) {
                    Err(OTError::Pending)
                } else {
                    Err(OTError::InvalidState)
                }
            },
        }
    }

    // --- Source address match table entry points (control loop only) ---

    /// Enables or disables the source address match feature.
    pub fn enable_src_match(&mut self, enabled: bool) -> (r: Result<(), OTError<()>>)
        requires
            old(self).wf(),
        ensures
            final(self).wf(),
            r is Ok,
            *final(self) == (Self {
                src_match: SourceAddressMatchTable { enabled, ..old(self).src_match },
                ..*old(self)
            }),
    {
        self.src_match.enable(enabled);
        Ok(())
    }

    /// Adds a short address to the match table; idempotent, never fails.
    pub fn add_src_match_short_entry(&mut self, address: OTShortAddress) -> (r: Result<
        (),
        OTError<()>,
    >)
        requires
            old(self).wf(),
        ensures
            final(self).wf(),
            r is Ok,
            final(self).src_match.short_set() == old(self).src_match.short_set().insert(address),
            final(self).src_match.ext_set() == old(self).src_match.ext_set(),
            final(self).src_match.enabled == old(self).src_match.enabled,
            *final(self) == (Self { src_match: final(self).src_match, ..*old(self) }),
    {
        self.src_match.add_short(address);
        proof {
            assert(self.src_match.ext_set() =~= old(self).src_match.ext_set());
        }
        Ok(())
    }

    /// Adds an extended address to the match table; idempotent, never fails.
    pub fn add_src_match_ext_entry(&mut self, address: OTExtAddress) -> (r: Result<(), OTError<()>>)
        requires
            old(self).wf(),
        ensures
            final(self).wf(),
            r is Ok,
            final(self).src_match.ext_set() == old(self).src_match.ext_set().insert(address@),
            final(self).src_match.short_set() == old(self).src_match.short_set(),
            final(self).src_match.enabled == old(self).src_match.enabled,
            *final(self) == (Self { src_match: final(self).src_match, ..*old(self) }),
    {
        self.src_match.add_ext(address);
        proof {
            assert(self.src_match.short_set() =~= old(self).src_match.short_set());
        }
        Ok(())
    }

    /// Removes a short address from the match table; removing a non-member
    /// is a no-op, never an error.
    pub fn clear_src_match_short_entry(&mut self, address: OTShortAddress) -> (r: Result<
        (),
        OTError<()>,
    >)
        requires
            old(self).wf(),
        ensures
            final(self).wf(),
            r is Ok,
            final(self).src_match.short_set() == old(self).src_match.short_set().remove(address),
            final(self).src_match.ext_set() == old(self).src_match.ext_set(),
            final(self).src_match.enabled == old(self).src_match.enabled,
            *final(self) == (Self { src_match: final(self).src_match, ..*old(self) }),
    {
        self.src_match.clear_short(address);
        proof {
            assert(self.src_match.ext_set() =~= old(self).src_match.ext_set());
        }
        Ok(())
    }

    /// Removes an extended address from the match table; removing a
    /// non-member is a no-op, never an error.
    pub fn clear_src_match_ext_entry(&mut self, address: OTExtAddress) -> (r: Result<
        (),
        OTError<()>,
    >)
        requires
            old(self).wf(),
        ensures
            final(self).wf(),
            r is Ok,
            final(self).src_match.ext_set() == old(self).src_match.ext_set().remove(address@),
            final(self).src_match.short_set() == old(self).src_match.short_set(),
            final(self).src_match.enabled == old(self).src_match.enabled,
            *final(self) == (Self { src_match: final(self).src_match, ..*old(self) }),
    {
        self.src_match.clear_ext(&address);
        proof {
            assert(self.src_match.short_set() =~= old(self).src_match.short_set());
        }
        Ok(())
    }

    /// Empties the short address set of the match table.
    pub fn clear_src_match_short_entries(&mut self) -> (r: Result<(), OTError<()>>)
        requires
            old(self).wf(),
        ensures
            final(self).wf(),
            r is Ok,
            final(self).src_match.short_set() == Set::<u16>::empty(),
            final(self).src_match.ext_set() == old(self).src_match.ext_set(),
            final(self).src_match.enabled == old(self).src_match.enabled,
            *final(self) == (Self { src_match: final(self).src_match, ..*old(self) }),
    {
        self.src_match.clear_all_short();
        proof {
            assert(self.src_match.ext_set() =~= old(self).src_match.ext_set());
        }
        Ok(())
    }

    /// Empties the extended address set of the match table.
    pub fn clear_src_match_ext_entries(&mut self) -> (r: Result<(), OTError<()>>)
        requires
            old(self).wf(),
        ensures
            final(self).wf(),
            r is Ok,
            final(self).src_match.ext_set() == Set::<Seq<u8>>::empty(),
            final(self).src_match.short_set() == old(self).src_match.short_set(),
            final(self).src_match.enabled == old(self).src_match.enabled,
            *final(self) == (Self { src_match: final(self).src_match, ..*old(self) }),
    {
        self.src_match.clear_all_ext();
        proof {
            assert(self.src_match.short_set() =~= old(self).src_match.short_set());
        }
        Ok(())
    }

    /// Decides the frame-pending bit for an ack to a data request command
    /// from the child with short address `address`: always set while the
    /// match feature is disabled, otherwise set iff the address is in the
    /// table. Read by the driver context while constructing the ack.
    pub fn ack_frame_pending_short(&self, address: OTShortAddress) -> (r: bool)
        ensures
            r == (!self.src_match.enabled || self.src_match.short_set().contains(address)),
    {
        self.src_match.frame_pending_short(address)
    }

    /// Decides the frame-pending bit for an ack to a data request command
    /// from the child with extended address `address`.
    pub fn ack_frame_pending_ext(&self, address: &OTExtAddress) -> (r: bool)
        ensures
            r == (!self.src_match.enabled || self.src_match.ext_set().contains(address@)),
    {
        self.src_match.frame_pending_ext(address)
    }

    // --- CSL entry points ---

    /// Enables the CSL receiver for a peer, or disables it with a period of
    /// zero. Never triggers a radio state transition.
    pub fn enable_csl(
        &mut self,
        csl_period: u32,
        short_address: OTShortAddress,
        ext_address: OTExtAddress,
    ) -> (r: Result<(), OTError<()>>)
        requires
            old(self).wf(),
        ensures
            final(self).wf(),
            r is Ok,
            final(self).csl.enabled == (csl_period != 0),
            final(self).csl.period == csl_period,
            final(self).csl.short_address == short_address,
            final(self).csl.ext_address == ext_address,
            final(self).csl.sample_time == old(self).csl.sample_time,
            final(self).state == old(self).state,
            *final(self) == (Self { csl: final(self).csl, ..*old(self) }),
    {
        self.csl.enable(csl_period, short_address, ext_address);
        Ok(())
    }

    /// Resets the CSL receiver. Never triggers a radio state transition.
    pub fn reset_csl(&mut self) -> (r: Result<(), OTError<()>>)
        requires
            old(self).wf(),
        ensures
            final(self).wf(),
            r is Ok,
            !final(self).csl.enabled,
            final(self).csl.period == 0,
            final(self).csl.sample_time == 0,
            final(self).state == old(self).state,
            *final(self) == (Self { csl: final(self).csl, ..*old(self) }),
    {
        self.csl.reset();
        Ok(())
    }

    /// Stores a new CSL sample time. Only the stored reference time changes;
    /// in particular no radio state transition is triggered.
    pub fn update_csl_sample_time(&mut self, sample_time: u64)
        requires
            old(self).wf(),
        ensures
            final(self).wf(),
            *final(self) == (Self {
                csl: CslState { sample_time, ..old(self).csl },
                ..*old(self)
            }),
    {
        self.csl.update_sample_time(sample_time);
    }

    /// Computes the CSL receive window around the stored sample time, given
    /// the microseconds elapsed since the peer's timing was last
    /// synchronized. Consulted synchronously during frame preparation; reads
    /// only the CSL state.
    pub fn csl_receive_window(&self, elapsed_since_sync: u64) -> (w: crate::csl::CslWindow)
        requires
            crate::csl::spec_csl_margin(
                self.csl.uncertainty,
                self.csl.accuracy_ppm,
                elapsed_since_sync,
            ) <= self.csl.sample_time,
            self.csl.sample_time + crate::csl::spec_csl_margin(
                self.csl.uncertainty,
                self.csl.accuracy_ppm,
                elapsed_since_sync,
            ) <= u64::MAX,
        ensures
            w.start <= self.csl.sample_time <= w.end,
            w.end - w.start >= 2 * (self.csl.uncertainty * 10),
            self.csl.sample_time - w.start == crate::csl::spec_csl_margin(
                self.csl.uncertainty,
                self.csl.accuracy_ppm,
                elapsed_since_sync,
            ),
            w.end - self.csl.sample_time == crate::csl::spec_csl_margin(
                self.csl.uncertainty,
                self.csl.accuracy_ppm,
                elapsed_since_sync,
            ),
    {
        self.csl.receive_window(elapsed_since_sync)
    }

    /// The worst-case accuracy of the radio clock in parts per million.
    pub fn get_csl_accuracy(&self) -> (r: u8)
        ensures
            r == self.csl.accuracy_ppm,
    {
        self.csl.accuracy()
    }

    /// The fixed uncertainty of CSL arrival times, in 10-microsecond units.
    pub fn get_csl_uncertainty(&self) -> (r: u8)
        ensures
            r == self.csl.uncertainty,
    {
        self.csl.uncertainty()
    }

    // --- Coexistence entry points ---

    /// Enables or disables radio coexistence.
    pub fn set_coex_enabled(&mut self, enabled: bool) -> (r: Result<(), OTError<()>>)
        requires
            old(self).wf(),
        ensures
            final(self).wf(),
            r is Ok,
            *final(self) == (Self {
                coex: CoexMonitor { enabled, ..old(self).coex },
                ..*old(self)
            }),
    {
        self.coex.set_enabled(enabled);
        Ok(())
    }

    /// Whether radio coexistence is enabled.
    pub fn is_coex_enabled(&self) -> (r: bool)
        ensures
            r == self.coex.enabled,
    {
        self.coex.is_enabled()
    }

    /// A read-only copy of the coexistence metrics.
    pub fn get_coex_metrics(&self) -> (m: OTRadioCoexMetrics)
        ensures
            m == self.coex.metrics,
    {
        self.coex.metrics()
    }

    /// Accounts one driver-contributed coexistence event.
    pub fn record_coex_event(&mut self, event: CoexEvent)
        requires
            old(self).wf(),
        ensures
            final(self).wf(),
            old(self).coex.enabled ==> final(self).coex.metrics == spec_record(
                old(self).coex.metrics,
                event,
            ),
            !old(self).coex.enabled ==> final(self).coex.metrics == old(self).coex.metrics,
            *final(self) == (Self {
                coex: CoexMonitor {
                    metrics: final(self).coex.metrics,
                    ..old(self).coex
                },
                ..*old(self)
            }),
    {
        self.coex.record(event);
    }

    // --- Address filtering and radio configuration ---

    /// Sets the PAN ID used for address filtering.
    pub fn set_pan_id(&mut self, pan_id: OTPanId) -> (r: Result<(), OTError<()>>)
        requires
            old(self).wf(),
        ensures
            final(self).wf(),
            r is Ok,
            *final(self) == (Self { pan_id, ..*old(self) }),
    {
        self.pan_id = pan_id;
        Ok(())
    }

    /// Sets the extended address used for address filtering.
    pub fn set_extended_address(&mut self, address: OTExtAddress) -> (r: Result<(), OTError<()>>)
        requires
            old(self).wf(),
        ensures
            final(self).wf(),
            r is Ok,
            *final(self) == (Self { ext_address: address, ..*old(self) }),
    {
        self.ext_address = address;
        Ok(())
    }

    /// Sets the short address used for address filtering.
    pub fn set_short_address(&mut self, address: OTShortAddress) -> (r: Result<(), OTError<()>>)
        requires
            old(self).wf(),
        ensures
            final(self).wf(),
            r is Ok,
            *final(self) == (Self { short_address: address, ..*old(self) }),
    {
        self.short_address = address;
        Ok(())
    }

    /// The configured transmit power in dBm.
    pub fn get_transmit_power(&self) -> (r: i8)
        ensures
            r == self.transmit_power,
    {
        self.transmit_power
    }

    /// Sets the transmit power in dBm.
    pub fn set_transmit_power(&mut self, power: i8) -> (r: Result<(), OTError<()>>)
        requires
            old(self).wf(),
        ensures
            final(self).wf(),
            r is Ok,
            *final(self) == (Self { transmit_power: power, ..*old(self) }),
    {
        self.transmit_power = power;
        Ok(())
    }

    /// Whether promiscuous mode is on.
    pub fn get_promiscuous(&self) -> (r: bool)
        ensures
            r == self.promiscuous,
    {
        self.promiscuous
    }

    /// Enables or disables promiscuous mode.
    pub fn set_promiscuous(&mut self, enabled: bool) -> (r: Result<(), OTError<()>>)
        requires
            old(self).wf(),
        ensures
            final(self).wf(),
            r is Ok,
            *final(self) == (Self { promiscuous: enabled, ..*old(self) }),
    {
        self.promiscuous = enabled;
        Ok(())
    }

    /// Sets the rx-on-when-idle configuration.
    pub fn set_rx_on_when_idle(&mut self, enabled: bool) -> (r: Result<(), OTError<()>>)
        requires
            old(self).wf(),
        ensures
            final(self).wf(),
            r is Ok,
            *final(self) == (Self { rx_on_when_idle: enabled, ..*old(self) }),
    {
        self.rx_on_when_idle = enabled;
        Ok(())
    }

    /// Zeroes the coexistence counters and resumes collection.
    pub fn reset_coex_metrics(&mut self)
        requires
            old(self).wf(),
        ensures
            final(self).wf(),
            *final(self) == (Self {
                coex: CoexMonitor { metrics: spec_zero_metrics(), ..old(self).coex },
                ..*old(self)
            }),
    {
        self.coex.reset_metrics();
    }
}

} // verus!
