//! IPv6 address types and interface.

use vstd::prelude::*;

verus! {

// Size of an IPv6 prefix (bytes)
pub const OT_IP6_PREFIX_SIZE: usize = 8;
// Size of an IPv6 prefix (bits)
pub const OT_IP6_PREFIX_BITSIZE: usize = OT_IP6_PREFIX_SIZE * 8;
// Size of an IPv6 interface identifier (bytes)
pub const OT_IP6_IID_SIZE: usize = 8;
// Size of an IPv6 address (bytes)
pub const OT_IP6_ADDRESS_SIZE: usize = 16;
// Size of an IPv6 address (bits)
pub const OT_IP6_ADDRESS_BITSIZE: usize = OT_IP6_ADDRESS_SIZE * 8;
// Size of an IPv6 header (bytes)
pub const OT_IP6_HEADER_SIZE: usize = 40;
// Offset of the proto field in the IPv6 header (bytes)
pub const OT_IP6_HEADER_PROTO_OFFSET: usize = 6;

/// Interface identifier of an IPv6 address.
pub enum OTIp6InterfaceIdentifier {
    M8([u8; 8]),
    M16([u16; 4]),
    M32([u8; 2]),
}

/// Network prefix of an IPv6 address (most significant 64 bits).
pub type OTIp6NetworkPrefix = [u8; 8];

/// IPv6 address components.
pub struct OTIp6AddressComponents {
    pub network_prefix: OTIp6NetworkPrefix,
    pub iid: OTIp6InterfaceIdentifier,
}

/// IPv6 address.
pub enum OTIp6Address {
    M8([u8; 16]),
    M16([u16; 8]),
    M32([u32; 4]),
    Components(OTIp6AddressComponents),
}

/// IPv6 prefix.
pub struct OTIp6Prefix {
    pub prefix: OTIp6Address,
    pub length: u8,
}

/// IPv6 address origins.
#[derive(Clone, Copy, Debug, PartialEq, Eq, Structural)]
pub enum OTAddressOrigin {
    Thread,
    Slaac,
    DHCPv6,
    Manual,
}

/// IPv6 network interface unicast address.
pub struct OTNetworkInterfaceAddress {
    pub address: OTIp6Address,
    pub prefix_length: u8,
    pub address_origin: u8,
    pub preferred: bool,
    pub valie: bool,
    pub scope_override_valid: bool,
    pub scope_override: u8,
    pub rloc: bool,
    pub mesh_local: bool,
    pub src_registered: bool,
    pub next: Option<Box<OTNetworkInterfaceAddress>>,
}

/// IPv6 network interface multicast address.
pub struct OTNetworkInterfaceMulticastAddress {
    pub address: OTIp6Address,
    pub next: Option<Box<OTNetworkInterfaceMulticastAddress>>,
}

/// IPv6 socket address.
pub struct OTSocketAddress {
    pub address: OTIp6Address,
    pub port: u16,
}

/// ECN statuses, represented as in the IP header.
#[derive(Clone, Copy, Debug, PartialEq, Eq, Structural)]
pub enum OTECNStatus {
    NotCapable,
    Capable0,
    Capable1,
    Marked,
}

impl OTECNStatus {
    /// The two ECN bits as they stand in the IP header.
    pub open spec fn spec_value(self) -> u8 {
        match self {
            OTECNStatus::NotCapable => 0x0,
            OTECNStatus::Capable0 => 0x2,
            OTECNStatus::Capable1 => 0x1,
            OTECNStatus::Marked => 0x3,
        }
    }

    /// Returns the two ECN bits as they stand in the IP header.
    pub fn value(self) -> (r: u8)
        ensures
            r == self.spec_value(),
    {
        match self {
            OTECNStatus::NotCapable => 0x0,
            OTECNStatus::Capable0 => 0x2,
            OTECNStatus::Capable1 => 0x1,
            OTECNStatus::Marked => 0x3,
        }
    }
}

/// Local and peer IPv6 socket addresses of a message.
pub struct OTMessageInfo {
    pub socket_address: OTIp6Address,
    pub peer_address: OTIp6Address,
    pub socket_port: u16,
    pub peer_port: u16,
    pub hop_limi: u8,
    pub ecn: u8,
    pub is_host_interface: bool,
    pub allow_zero_hop_limit: bool,
    pub multicast_loop: bool,
}

/// Internet protocol numbers.
#[derive(Clone, Copy, Debug, PartialEq, Eq, Structural)]
pub enum OTIp6Protocol {
    /// IPv6 hop-by-hop option
    HopOpts,
    TCP,
    UDP,
    IP6,
    Routing,
    Fragment,
    ICMP6,
    NONE,
    DestinationOptions,
}

impl OTIp6Protocol {
    /// The protocol number as it stands on the wire.
    pub open spec fn spec_value(self) -> u8 {
        match self {
            OTIp6Protocol::HopOpts => 0,
            OTIp6Protocol::TCP => 6,
            OTIp6Protocol::UDP => 17,
            OTIp6Protocol::IP6 => 41,
            OTIp6Protocol::Routing => 43,
            OTIp6Protocol::Fragment => 44,
            OTIp6Protocol::ICMP6 => 58,
            OTIp6Protocol::NONE => 59,
            OTIp6Protocol::DestinationOptions => 60,
        }
    }

    /// Returns the protocol number as it stands on the wire.
    pub fn value(self) -> (r: u8)
        ensures
            r == self.spec_value(),
    {
        match self {
            OTIp6Protocol::HopOpts => 0,
            OTIp6Protocol::TCP => 6,
            OTIp6Protocol::UDP => 17,
            OTIp6Protocol::IP6 => 41,
            OTIp6Protocol::Routing => 43,
            OTIp6Protocol::Fragment => 44,
            OTIp6Protocol::ICMP6 => 58,
            OTIp6Protocol::NONE => 59,
            OTIp6Protocol::DestinationOptions => 60,
        }
    }
}

/// IPv6 module interface.
pub trait OTIPv6 {
    type Error;

    /// Brings the IPv6 interface up or down.
    fn set_ipv6_enabled(&mut self, enabled: bool) -> Result<(), Self::Error>;

    /// Indicates whether or not the IPv6 interface is up.
    fn is_ipv6_enabled(&mut self) -> Result<bool, Self::Error>;

    /// Adds a network interface address to the Thread interface. The
    /// passed-in address is copied; only a fixed number of externally added
    /// unicast addresses is supported.
    fn add_unicast_address(&mut self, address: &OTNetworkInterfaceAddress) -> Result<
        (),
        Self::Error,
    >;

    fn remove_unicast_address(&mut self, address: OTIp6Address) -> Result<(), Self::Error>;

    fn get_unicast_addresses(&mut self) -> Result<Vec<OTIp6Address>, Self::Error>;

    fn has_unicast_address(&mut self, address: OTIp6Address) -> Result<bool, Self::Error>;

    fn subscribe_multicast_address(&mut self, address: OTIp6Address) -> Result<(), Self::Error>;

    fn unsubscribe_multicast_address(&mut self, address: OTIp6Address) -> Result<(), Self::Error>;
}

} // verus!
