//! Logging platform abstraction.

use vstd::prelude::*;

verus! {

/// Log levels.
#[derive(Clone, Copy, Debug, PartialEq, Eq, Structural)]
pub enum OTLogLevel {
    No,
    Critical,
    Warn,
    Note,
    Info,
    Debug,
}

/// Log sink.
pub trait OTLogger {
    /// Output one log line.
    fn log(&mut self, log_level: OTLogLevel, message: String);
}

} // verus!
