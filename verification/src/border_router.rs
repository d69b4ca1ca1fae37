//! Border router API.

use vstd::prelude::*;
use crate::instance::OTInstance;
use crate::netdata::OTBorderRouterConfig;

verus! {

/// Manages local network data on a border router.
pub trait OTBorderRouter {
    type Error;

    /// Provides a full or stable copy of the local Thread network data.
    fn get_network_data(&mut self, openthread: &mut OTInstance, stable: bool) -> Result<
        Vec<u8>,
        Self::Error,
    >;

    /// Adds a border router configuration to the local network data.
    fn add_on_mesh_prefix(
        &mut self,
        openthread: &mut OTInstance,
        config: &OTBorderRouterConfig,
    ) -> Result<(), Self::Error>;
}

} // verus!
