//! How the bootloader presents itself on the bus.

use vstd::prelude::*;

verus! {

/// What the device descriptor says of the bootloader.
#[derive(Clone, Copy, Debug, PartialEq, Eq)]
pub struct DeviceIdentity {
    pub vendor_id: u16,
    pub product_id: u16,
    pub manufacturer: &'static str,
    pub product: &'static str,
    pub serial_number: &'static str,
    /// Device class, subclass and protocol.
    pub device_class: u8,
    pub device_sub_class: u8,
    pub device_protocol: u8,
    /// Whether the functions of the device are grouped by interface
    /// association descriptors.
    pub composite_with_iads: bool,
    /// Largest packet of the serial interface, in bytes.
    pub max_packet_size: u16,
}

impl DeviceIdentity {
    /// Whether the class triple fits the grouping: a device that groups its
    /// functions by interface association descriptors has to announce the
    /// class `0xEF`, the subclass `0x02` and the protocol `0x01`.
    pub open spec fn consistent(self) -> bool {
        self.composite_with_iads ==> self.device_class == 0xEF && self.device_sub_class == 0x02
            && self.device_protocol == 0x01
    }
}

/// The identity of the bootloader: a composite device whose class triple
/// announces interface association descriptors, which some hosts need to
/// group the interfaces of the serial function, with one serial interface
/// that moves packets of 64 bytes.
pub fn identity() -> (id: DeviceIdentity)
    ensures
        id.vendor_id == 0xc0de,
        id.product_id == 0xcafe,
        id.manufacturer@ == "lab"@,
        id.product@ == "IBOOT"@,
        id.serial_number@ == "24022022"@,
        id.device_class == 0xEF,
        id.device_sub_class == 0x02,
        id.device_protocol == 0x01,
        id.composite_with_iads,
        id.max_packet_size == 64,
        id.consistent(),
{
    DeviceIdentity {
        vendor_id: 0xc0de,
        product_id: 0xcafe,
        manufacturer: "lab",
        product: "IBOOT",
        serial_number: "24022022",
        device_class: 0xEF,
        device_sub_class: 0x02,
        device_protocol: 0x01,
        composite_with_iads: true,
        max_packet_size: 64,
    }
}

} // verus!
