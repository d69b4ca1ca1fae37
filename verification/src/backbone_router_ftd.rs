//! Backbone router API for a Thread 1.2 FTD with backbone routing enabled.

use vstd::prelude::*;
use crate::backbone_router::OTBackboneRouterConfig;
use crate::instance::OTInstance;
use crate::netdata::OTBorderRouterConfig;

verus! {

/// Backbone router states.
#[derive(Clone, Copy, Debug, PartialEq, Eq, Structural)]
pub enum OTBackboneRouterState {
    Disabled,
    Secondary,
    Primary,
}

/// Backbone border router FTD API.
pub trait OTBackboneRouterFTE {
    type Error;

    /// Enables or disables backbone functionality.
    ///
    /// If enabled, a server data request message `SRV_DATA.ntf` is triggered
    /// for the attached device if there is no backbone router service in the
    /// Thread network data. If disabled, `SRV_DATA.ntf` is triggered if the
    /// backbone router is in the primary state.
    fn enable_backbone_router(&mut self, openthread: &mut OTInstance, enable: bool) -> Result<
        (),
        Self::Error,
    >;

    /// Gets the backbone router state.
    fn get_backbone_router_state(&mut self, openthread: &mut OTInstance) -> Result<
        OTBackboneRouterState,
        Self::Error,
    >;

    /// Gets the local backbone router configuration.
    fn get_backbone_router_config(&mut self, openthread: &mut OTInstance) -> Result<
        OTBackboneRouterConfig,
        Self::Error,
    >;

    /// Sets the local backbone router configuration. A server data request
    /// message `SRV_DATA.ntf` is initiated automatically if the BBR dataset
    /// changes for the primary backbone router.
    fn set_backbone_router_config(
        &mut self,
        openthread: &mut OTInstance,
        config: OTBackboneRouterConfig,
    ) -> Result<(), Self::Error>;

    /// Explicitly registers the local backbone router configuration. A server
    /// data request message `SRV_DATA.ntf` is triggered for the attached
    /// device.
    fn register_backbone_router(&mut self, openthread: &mut OTInstance) -> Result<(), Self::Error>;

    /// Returns the backbone router registration jitter value.
    fn get_backbone_router_jitter(&mut self, openthread: &mut OTInstance) -> Result<
        u8,
        Self::Error,
    >;

    /// Sets the backbone router registration jitter value.
    fn set_backbone_router_jitter(&mut self, openthread: &mut OTInstance, jitter: u8) -> Result<
        (),
        Self::Error,
    >;

    /// Gets the local domain prefix configuration.
    fn get_backbone_router_domain_prefix(
        &mut self,
        openthread: &mut OTInstance,
        config: &mut OTBorderRouterConfig,
    ) -> Result<(), Self::Error>;
}

} // verus!
