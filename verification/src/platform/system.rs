//! Platform-specific functions needed by example applications. None of these
//! is called by the stack itself; the system/RTOS calls them where
//! appropriate.

use vstd::prelude::*;

verus! {

/// System hooks for example applications.
pub trait OTSystem {
    /// Performs all platform-specific initialization of the drivers.
    fn ot_sys_init(&mut self, args: &[&str]);

    /// Performs all platform-specific deinitialization of the drivers.
    fn ot_sys_deinit(&mut self);

    /// Returns true if a pseudo-reset was requested; the main loop should
    /// then shut down and re-initialize the instance.
    fn reset_was_requested(&mut self) -> bool;

    /// Performs all platform-specific processing for example applications.
    fn process_drivers(&mut self);

    /// Called whenever platform drivers need processing.
    fn event_signal_pending(&mut self);
}

} // verus!
