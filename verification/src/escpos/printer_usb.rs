//! USB printer selection. Enumeration, opening and bulk writes are OS work
//! performed outside the crate; picking the printer out of the enumerated
//! snapshot is verified here.

use vstd::prelude::*;

use crate::{EcoPrintError, EcoPrintResult};

verus! {

/// What the USB enumeration reports about one attached device.
#[derive(Debug, Clone, Copy, PartialEq, Eq, Structural)]
pub struct USBDeviceInfo {
    /// The vendor id from the device descriptor.
    pub vendor_id: u16,
    /// The product id from the device descriptor.
    pub product_id: u16,
    /// The port the device is attached to; doubles as the bulk-out endpoint
    /// address for the printers this crate targets.
    pub port_number: u8,
}

/// Whether some enumerated device carries the wanted vendor id.
pub open spec fn spec_has_vendor(devices: Seq<USBDeviceInfo>, vendor_id: u16) -> bool {
    exists|i: int| 0 <= i < devices.len() && (#[trigger] devices[i]).vendor_id == vendor_id
}

/// Select the printer out of an enumeration snapshot: the first device
/// whose vendor id matches. Fails with `DeviceNotFound` if and only if no
/// attached device matches.
pub fn find_device(vendor_id: u16, devices: &Vec<USBDeviceInfo>) -> (r: EcoPrintResult<usize>)
    ensures
        r matches Ok(i) ==> i < devices@.len() && devices@[i as int].vendor_id == vendor_id
            && (forall|j: int| 0 <= j < i ==> (#[trigger] devices@[j]).vendor_id != vendor_id),
        r is Ok <==> spec_has_vendor(devices@, vendor_id),
        r matches Err(e) ==> e matches EcoPrintError::DeviceNotFound(_),
{
    let n = devices.len();
    for i in 0..n
        invariant
            n == devices@.len(),
            forall|j: int| 0 <= j < i ==> (#[trigger] devices@[j]).vendor_id != vendor_id,
    {
        if devices[i].vendor_id == vendor_id {
            return Ok(i);
        }
    }
    Err(EcoPrintError::DeviceNotFound(String::from_str("no attached USB device has the requested vendor id")))
}

} // verus!
