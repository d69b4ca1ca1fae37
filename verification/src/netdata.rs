//! Network data types.

use vstd::prelude::*;
use crate::ip6::OTIp6Prefix;

verus! {

pub const OT_NETWORK_DATA_ITERATOR_INIT: u32 = 0;

/// Used to iterate through network data information.
pub type OTNetworkDataIterator = u32;

/// Border router configuration carried in the network data.
pub struct OTBorderRouterConfig {
    pub prefix: OTIp6Prefix,
}

} // verus!
