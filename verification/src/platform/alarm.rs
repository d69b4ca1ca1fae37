//! Platform abstractions for alarms.

use vstd::prelude::*;

verus! {

/// Millisecond alarm.
pub trait OTAlarmMS {
    /// Set the alarm to fire `dt` milliseconds after the reference time `t0`.
    fn start_alarm_at_ms(&mut self, t0: u32, dt: u32);

    /// Stop the alarm.
    fn stop_alarm_ms(&mut self);

    /// Get the current time (in ms).
    fn get_now_ms(&mut self) -> u32;
}

/// Millisecond alarm handler.
pub trait OTAlarmMSHandler {
    type Error;

    /// Handle a fired alarm.
    fn alarm_fired_ms(&mut self) -> Result<(), Self::Error>;
}

/// Millisecond alarm diagnostics handler.
pub trait OTAlarmMSDiagnosticsHandler {
    type Error;

    /// Diagnostics module handler for a fired alarm.
    fn handle_fired_diagnostics_ms(&mut self) -> Result<(), Self::Error>;
}

/// Microsecond alarm.
pub trait OTAlarmUS {
    /// Set the alarm to fire `dt` microseconds after the reference time `t0`.
    fn start_alarm_at_us(&mut self, t0: u32, dt: u32);

    /// Stop the alarm.
    fn stop_alarm_us(&mut self);

    /// Get the current time (in us).
    fn get_now_us(&mut self) -> u32;
}

/// Microsecond alarm handler.
pub trait OTAlarmUSHandler {
    type Error;

    /// Handle a fired alarm.
    fn alarm_fired_us(&mut self) -> Result<(), Self::Error>;
}

} // verus!
