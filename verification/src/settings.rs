//! Platform abstraction for non-volatile storage of settings.

use vstd::prelude::*;
use crate::error::OTError;

verus! {

/// The well-known settings keys. Keys in the range 0x8000..=0xFFFF are
/// reserved for vendor-specific use.
#[derive(Clone, Copy, Debug, PartialEq, Eq, Structural)]
pub enum OTSettingsKeys {
    /// Active operational dataset
    ActiveDataset,
    /// Pending operational dataset
    PendingDataset,
    /// Thread network information
    NetworkInfo,
    /// Parent information
    ParentInfo,
    /// Child information
    ChildInfo,
    /// SLAAC key to generate a semantically opaque IID
    SlaacIIDSecretKey,
    /// Duplicate address detection (DAD) information
    DADInfo,
    /// SRP client ECDSA public/private key pair
    SRPECDSAKey,
    /// The SRP client info (selected SRP server address)
    SRPClientInfo,
    /// The SRP server info (UDP port)
    SRPServerInfo,
    /// BR ULA prefix
    BRULAPrefix,
    /// BR local on-link prefixes
    BROnLinkPrefixes,
    /// Unique border agent/router id
    BorderAgentId,
    /// First key value reserved for vendor-specific use
    VendorReservedMin,
    /// Last key value reserved for vendor-specific use
    VendorReservedMax,
}

impl OTSettingsKeys {
    /// The key code this setting is stored under.
    pub open spec fn spec_value(self) -> u16 {
        match self {
            OTSettingsKeys::ActiveDataset => 0x0001,
            OTSettingsKeys::PendingDataset => 0x0002,
            OTSettingsKeys::NetworkInfo => 0x0003,
            OTSettingsKeys::ParentInfo => 0x0004,
            OTSettingsKeys::ChildInfo => 0x0005,
            OTSettingsKeys::SlaacIIDSecretKey => 0x0007,
            OTSettingsKeys::DADInfo => 0x0008,
            OTSettingsKeys::SRPECDSAKey => 0x000B,
            OTSettingsKeys::SRPClientInfo => 0x000C,
            OTSettingsKeys::SRPServerInfo => 0x000D,
            OTSettingsKeys::BRULAPrefix => 0x000F,
            OTSettingsKeys::BROnLinkPrefixes => 0x0010,
            OTSettingsKeys::BorderAgentId => 0x0011,
            OTSettingsKeys::VendorReservedMin => 0x8000,
            OTSettingsKeys::VendorReservedMax => 0xFFFF,
        }
    }

    /// Returns the key code this setting is stored under.
    pub fn value(self) -> (r: u16)
        ensures
            r == self.spec_value(),
    {
        match self {
            OTSettingsKeys::ActiveDataset => 0x0001,
            OTSettingsKeys::PendingDataset => 0x0002,
            OTSettingsKeys::NetworkInfo => 0x0003,
            OTSettingsKeys::ParentInfo => 0x0004,
            OTSettingsKeys::ChildInfo => 0x0005,
            OTSettingsKeys::SlaacIIDSecretKey => 0x0007,
            OTSettingsKeys::DADInfo => 0x0008,
            OTSettingsKeys::SRPECDSAKey => 0x000B,
            OTSettingsKeys::SRPClientInfo => 0x000C,
            OTSettingsKeys::SRPServerInfo => 0x000D,
            OTSettingsKeys::BRULAPrefix => 0x000F,
            OTSettingsKeys::BROnLinkPrefixes => 0x0010,
            OTSettingsKeys::BorderAgentId => 0x0011,
            OTSettingsKeys::VendorReservedMin => 0x8000,
            OTSettingsKeys::VendorReservedMax => 0xFFFF,
        }
    }
}

/// Non-volatile settings store. The underlying storage is not required to
/// maintain the order of settings with multiple values; any write may reorder
/// them.
pub trait OTSettings {
    type Error;

    /// Performs any initialization for the settings subsystem and names the
    /// sensitive keys that should be stored in the secure area.
    fn init(&mut self, sensitive_keys: &[u16]) -> Result<(), Self::Error>;

    /// Performs any de-initialization for the settings subsystem.
    fn de_init(&mut self) -> Result<(), Self::Error>;

    /// Fetches the value at `index` of the setting identified by `key`.
    fn get(&mut self, key: u16, index: usize) -> Result<Vec<u8>, OTError<Self::Error>>;

    /// Sets or replaces the value of the setting identified by `key`. Used
    /// only for keys that hold a single value or none.
    fn set(&mut self, key: u16, value: &[u8]) -> Result<(), OTError<Self::Error>>;

    /// Adds a value to the setting identified by `key` without replacing
    /// existing values; where the value lands among them is not specified.
    fn add(&mut self, key: u16, value: &[u8]) -> Result<(), OTError<Self::Error>>;

    /// Removes the value at `index` of the setting identified by `key`.
    fn delete(&mut self, key: u16, index: usize) -> Result<(), OTError<Self::Error>>;

    /// Removes all settings, resetting the store to its factory state.
    fn wipe(&mut self) -> Result<(), Self::Error>;
}

} // verus!
