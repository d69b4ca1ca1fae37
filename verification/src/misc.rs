//! Platform abstractions for miscellaneous behaviors.

use vstd::prelude::*;

verus! {

/// The possible reset reasons of the device.
#[derive(Clone, Copy, Debug, PartialEq, Eq, Structural)]
pub enum OTResetReason {
    PowerOn,
    External,
    Software,
    Fault,
    Crash,
    Assert,
    Other,
    Unknown,
    Watchdog,
}

/// Desired power state of an NCP's micro-controller when the underlying
/// platform enters idle mode. After a reset the MCU power state must be `On`.
#[derive(Clone, Copy, Debug, PartialEq, Eq, Structural)]
pub enum OTMcuPowerState {
    /// The MCU stays on and active all the time; the host needs no "poke"
    /// before communicating
    On,
    /// The MCU may enter an energy-saving state; the host must poke it
    /// (e.g. with an external interrupt) before communicating
    LowPower,
    /// The MCU is fully off; a hardware reset brings it back, and RAM is not
    /// retained
    Off,
}

/// Miscellaneous platform behaviors.
pub trait OTMiscellaneous {
    type Error;

    /// Performs a software reset on the platform, if supported.
    fn reset(&mut self) -> Result<(), Self::Error>;

    /// Returns the reason for the last platform reset.
    fn get_reset_reason(&mut self) -> Result<OTResetReason, Self::Error>;

    /// Provides a platform-specific implementation for assert.
    fn assert_fail(&mut self, filename: &'static str, line: isize);

    /// Performs a platform-specific operation to wake the host MCU. Used
    /// only for NCP configurations.
    fn wake_host() -> Result<(), Self::Error>;
}

/// Bootloader control, where the platform has one.
pub trait OTMiscellaneousBootloaderEnabled {
    type Error;

    /// Performs a hardware reset into bootloader mode, if supported.
    fn reset_to_bootloader(&mut self) -> Result<(), Self::Error>;
}

/// MCU power state control for NCP configurations.
pub trait OTMiscellaneousPowerStateControl {
    type Error;

    /// Sets the desired MCU power state.
    fn set_mcu_power_state(&mut self, state: OTMcuPowerState) -> Result<(), Self::Error>;

    /// Gets the current desired MCU power state.
    fn get_mcu_power_state(&mut self) -> Result<OTMcuPowerState, Self::Error>;
}

} // verus!
