//! Platform abstraction for BLE host communication (Bluetooth LE 4.2 or
//! higher).

use vstd::prelude::*;

verus! {

/// Time slot duration on the PHY layer in microseconds (0.625 ms)
pub const OT_BLE_TIMESLOT_UNIT: u32 = 625;
/// Minimum allowed interval for an advertising packet in OT_BLE_ADV_INTERVAL_UNIT units (20 ms)
pub const OT_BLE_ADV_INTERVAL_MIN: u32 = 0x0020;
/// Maximum allowed interval for an advertising packet in OT_BLE_ADV_INTERVAL_UNIT units (10.24 s)
pub const OT_BLE_ADV_INTERVAL_MAX: u32 = 0x4000;
/// Default interval for an advertising packet (ms)
pub const OT_BLE_ADV_INTERVAL_DEFAULT: u32 = 100;
/// Maximum allowed ATT MTU size (must be at least 23)
pub const OT_BLE_ATT_MTU_MAX: u32 = 67;
/// Default power value for BLE
pub const OT_BLUE_DEFAULT_POWER: u8 = 0;

/// BLE packet.
pub struct OTBLERadioPacket {
    pub value: Vec<u8>,
    pub power: u8,
}

/// Bluetooth Low Energy radio.
pub trait OTBLERadio {
    type Error;

    /// Enable the BLE radio. The device should use the highest supported
    /// ATT_MTU not exceeding `OT_BLE_ATT_MTU_MAX` octets.
    fn ble_enable(&mut self) -> Result<(), Self::Error>;

    /// Disable the BLE radio: event queues are flushed, no new events are
    /// generated, and the peripheral is turned off or put to sleep.
    fn ble_disable(&mut self) -> Result<(), Self::Error>;

    /// Start undirected advertising with no filter on all advertising
    /// channels (37, 38 and 39).
    fn ble_start_advertising(&mut self, interval: u16) -> Result<(), Self::Error>;

    /// Stop advertising. Only for the BLE peripheral role.
    fn ble_stop_advertising(&mut self) -> Result<(), Self::Error>;

    /// Disconnect the BLE connection, using the Remote User Terminated
    /// Connection (0x13) reason code.
    fn ble_disconnect(&mut self) -> Result<(), Self::Error>;

    /// Read the currently used value of ATT_MTU.
    fn ble_get_att(&mut self) -> Result<u16, Self::Error>;

    /// Send an ATT handle indication. Only for the GATT server role.
    fn ble_server_indicate(&mut self, handle: u16, packet: &OTBLERadioPacket) -> Result<
        (),
        Self::Error,
    >;
}

/// Handlers the BLE driver calls back into.
pub trait OTBLERadioHandler {
    type Error;

    /// A BLE central device has connected.
    fn ble_on_connected(&mut self, connection_id: u16) -> Result<(), Self::Error>;

    /// The BLE central device has disconnected.
    fn ble_on_disconnected(&mut self, connection_id: u16) -> Result<(), Self::Error>;

    /// ATT_MTU has been updated.
    fn ble_mtu_update(&mut self, mtu: u16) -> Result<(), Self::Error>;

    /// An ATT write request packet has been received.
    fn ble_server_on_write_request(&mut self, handle: u16, packet: &OTBLERadioPacket) -> Result<
        (),
        Self::Error,
    >;
}

} // verus!
