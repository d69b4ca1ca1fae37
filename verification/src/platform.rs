//! Platform driver abstractions grouped by subsystem.

pub mod alarm;
pub mod ble;
pub mod border_routing;
pub mod flash;
pub mod logging;
pub mod system;
