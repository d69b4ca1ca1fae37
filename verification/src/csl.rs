//! CSL (coordinated sampled listening) receive-window scheduler.
//!
//! Tracks the CSL period, the nominal sample time and the driver-reported
//! clock accuracy and arrival-time uncertainty, and computes the receive
//! window around a sample time. The window is the nominal sample time widened
//! on each side by the fixed uncertainty and by the worst-case clock drift
//! accumulated since the last synchronization, so a transmission referenced
//! to the nominal sample time that stays within the declared bounds is never
//! missed.

use vstd::prelude::*;
use crate::radio::{OTExtAddress, OTShortAddress};

verus! {

/// One CSL receive window on the radio clock, in microseconds.
#[derive(Clone, Copy, Debug, PartialEq, Eq, Structural)]
pub struct CslWindow {
    /// First instant covered by the window
    pub start: u64,
    /// Last instant covered by the window
    pub end: u64,
}

/// Worst-case clock drift in microseconds accumulated over `elapsed`
/// microseconds at `accuracy_ppm` parts per million, rounded up.
pub open spec fn spec_csl_drift(elapsed: u64, accuracy_ppm: u8) -> int {
    (elapsed * accuracy_ppm + 999_999) / 1_000_000
}

/// Half-width of the receive window: the fixed uncertainty (10-microsecond
/// units) plus the accumulated drift.
pub open spec fn spec_csl_margin(uncertainty: u8, accuracy_ppm: u8, elapsed: u64) -> int {
    uncertainty * 10 + spec_csl_drift(elapsed, accuracy_ppm)
}

/// CSL receiver state. The period and sample time are writer-controlled by
/// the core; accuracy and uncertainty are read-only outputs of the driver.
pub struct CslState {
    /// Whether CSL reception is enabled (a period of zero disables it)
    pub enabled: bool,
    /// CSL period in microseconds
    pub period: u32,
    /// Nominal sample time on the radio clock, in microseconds
    pub sample_time: u64,
    /// Short address of the synchronized peer
    pub short_address: OTShortAddress,
    /// Extended address of the synchronized peer
    pub ext_address: OTExtAddress,
    /// Worst-case accuracy of the radio clock in parts per million
    pub accuracy_ppm: u8,
    /// Fixed uncertainty (random jitter) of the arrival time of received CSL
    /// transmissions, in units of 10 microseconds
    pub uncertainty: u8,
}

impl CslState {
    /// Creates a disabled receiver with the accuracy and uncertainty the
    /// driver reports for its clock.
    pub fn new(accuracy_ppm: u8, uncertainty: u8) -> (s: Self)
        ensures
            !s.enabled,
            s.period == 0,
            s.sample_time == 0,
            s.accuracy_ppm == accuracy_ppm,
            s.uncertainty == uncertainty,
    {
        CslState {
            enabled: false,
            period: 0,
            sample_time: 0,
            short_address: 0,
            ext_address: [0, 0, 0, 0, 0, 0, 0, 0],
            accuracy_ppm,
            uncertainty,
        }
    }

    /// Enables the CSL receiver for the given peer, or disables it when the
    /// period is zero.
    pub fn enable(&mut self, csl_period: u32, short_address: OTShortAddress, ext_address: OTExtAddress)
        ensures
            final(self).enabled == (csl_period != 0),
            final(self).period == csl_period,
            final(self).short_address == short_address,
            final(self).ext_address == ext_address,
            final(self).sample_time == old(self).sample_time,
            final(self).accuracy_ppm == old(self).accuracy_ppm,
            final(self).uncertainty == old(self).uncertainty,
    {
        self.enabled = csl_period != 0;
        self.period = csl_period;
        self.short_address = short_address;
        self.ext_address = ext_address;
    }

    /// Disables the receiver and clears the writer-controlled fields. The
    /// driver-reported accuracy and uncertainty are kept.
    pub fn reset(&mut self)
        ensures
            !final(self).enabled,
            final(self).period == 0,
            final(self).sample_time == 0,
            final(self).accuracy_ppm == old(self).accuracy_ppm,
            final(self).uncertainty == old(self).uncertainty,
    {
        self.enabled = false;
        self.period = 0;
        self.sample_time = 0;
    }

    /// Stores a new nominal sample time. Only the stored reference time
    /// changes; no radio state transition is triggered by this call.
    pub fn update_sample_time(&mut self, sample_time: u64)
        ensures
            *final(self) == (Self { sample_time, ..*old(self) }),
    {
        self.sample_time = sample_time;
    }

    /// The worst-case accuracy of the clock used to schedule CSL operations,
    /// in parts per million.
    pub fn accuracy(&self) -> (r: u8)
        ensures
            r == self.accuracy_ppm,
    {
        self.accuracy_ppm
    }

    /// The fixed uncertainty of the arrival time of CSL transmissions, in
    /// units of 10 microseconds.
    pub fn uncertainty(&self) -> (r: u8)
        ensures
            r == self.uncertainty,
    {
        self.uncertainty
    }

    /// Computes the receive window around the stored sample time, given the
    /// microseconds elapsed since the peer's timing was last synchronized.
    ///
    /// The window always brackets the sample time, extends at least the fixed
    /// uncertainty plus the accumulated worst-case drift on each side, and is
    /// therefore at least twice the uncertainty wide.
    pub fn receive_window(&self, elapsed_since_sync: u64) -> (w: CslWindow)
        requires
            spec_csl_margin(self.uncertainty, self.accuracy_ppm, elapsed_since_sync)
                <= self.sample_time,
            self.sample_time + spec_csl_margin(self.uncertainty, self.accuracy_ppm, elapsed_since_sync)
                <= u64::MAX,
        ensures
            w.start <= self.sample_time <= w.end,
            w.end - w.start >= 2 * (self.uncertainty * 10),
            self.sample_time - w.start
                == spec_csl_margin(self.uncertainty, self.accuracy_ppm, elapsed_since_sync),
            w.end - self.sample_time
                == spec_csl_margin(self.uncertainty, self.accuracy_ppm, elapsed_since_sync),
    {
        let margin = csl_margin(self.uncertainty, self.accuracy_ppm, elapsed_since_sync);
        CslWindow { start: self.sample_time - margin, end: self.sample_time + margin }
    }
}

/// Computes the worst-case drift over `elapsed` microseconds at
/// `accuracy_ppm` parts per million, rounded up.
pub fn csl_drift(elapsed: u64, accuracy_ppm: u8) -> (r: u64)
    ensures
        r == spec_csl_drift(elapsed, accuracy_ppm),
{
    proof {
        assert(elapsed * accuracy_ppm <= u64::MAX * 255) by (nonlinear_arith)
            requires
                elapsed <= u64::MAX,
                accuracy_ppm <= 255,
        ;
    }
    let prod: u128 = (elapsed as u128) * (accuracy_ppm as u128);
    let d: u128 = (prod + 999_999) / 1_000_000;
    proof {
        assert(d <= u64::MAX);
    }
    d as u64
}

/// Computes the receive-window half-width: the fixed uncertainty plus the
/// accumulated drift.
pub fn csl_margin(uncertainty: u8, accuracy_ppm: u8, elapsed: u64) -> (r: u64)
    requires
        spec_csl_margin(uncertainty, accuracy_ppm, elapsed) <= u64::MAX,
    ensures
        r == spec_csl_margin(uncertainty, accuracy_ppm, elapsed),
{
    let drift = csl_drift(elapsed, accuracy_ppm);
    uncertainty as u64 * 10 + drift
}

/// The window around any admissible sample time brackets it and is at least
/// twice the uncertainty wide, whatever drift has accumulated.
pub proof fn lemma_csl_window_bounds(s: CslState, elapsed: u64, w: CslWindow)
    requires
        spec_csl_margin(s.uncertainty, s.accuracy_ppm, elapsed) <= s.sample_time,
        s.sample_time + spec_csl_margin(s.uncertainty, s.accuracy_ppm, elapsed) <= u64::MAX,
        w.start == s.sample_time - spec_csl_margin(s.uncertainty, s.accuracy_ppm, elapsed),
        w.end == s.sample_time + spec_csl_margin(s.uncertainty, s.accuracy_ppm, elapsed),
    ensures
        w.start <= s.sample_time <= w.end,
        w.end - w.start >= 2 * (s.uncertainty * 10),
{
}

} // verus!
