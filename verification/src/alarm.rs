//! Alarm abstraction.

use vstd::prelude::*;

verus! {

/// A millisecond alarm with its diagnostics hooks.
pub trait OTAlarm {
    /// Signal that the alarm has fired.
    fn alarm_fired(&mut self) -> bool;

    /// Signal the diagnostics module that the alarm has fired.
    fn alarm_fired_diagnostics(&mut self) -> bool;

    /// Set the alarm to fire `dt` milliseconds after the reference time `t0`.
    fn start_alarm_at(&mut self, t0: u32, dt: u32);

    /// Stop the alarm.
    fn stop_alarm(&mut self);

    /// Get the current time (in ms).
    fn get_now(&mut self) -> u32;
}

} // verus!
