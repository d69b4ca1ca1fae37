//! Platform abstraction for the border routing manager.

use vstd::prelude::*;

verus! {

/// Border routing manager.
pub trait OTBorderRouting {
    type Error;

    /// Handles an ICMPv6 router advertisement message received on the Thread
    /// interface: a buffer holding a valid ICMPv6 message without IP headers
    /// whose type field is router advertisement. When DHCPv6 prefix
    /// delegation is disabled the message is dropped silently; such messages
    /// are never forwarded into Thread networks.
    fn border_routing_process_icmp6_ra(&mut self, message: &[u8]) -> Result<(), Self::Error>;
}

} // verus!
