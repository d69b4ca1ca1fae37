//! Backbone router API (Thread 1.2).

use vstd::prelude::*;
use crate::instance::OTInstance;

verus! {

/// Backbone router configuration.
#[derive(Clone, Copy, Debug, PartialEq, Eq, Structural)]
pub struct OTBackboneRouterConfig {
    /// Only used when getting the primary backbone router information in the
    /// Thread network
    pub server_16: u16,
    /// Reregistration delay (in seconds)
    pub registration_delay: u16,
    /// Multicast listener registration timeout (in seconds)
    pub mlr_timeout: u32,
    /// Sequence number
    pub sequence_number: u8,
}

/// Backbone router API.
pub trait OTBackboneRouter {
    type Error;

    /// Gets the primary backbone router information in the Thread network.
    fn get_primary_backbone_router_config(&mut self, openthread: &mut OTInstance) -> Result<
        OTBackboneRouterConfig,
        Self::Error,
    >;
}

} // verus!
