//! Device finders. Enumerating attached USB devices and scanning for BLE
//! peripherals is operating-system work that lives outside this crate; the
//! snapshots those calls produce are handed to the verified selection
//! functions as plain descriptor values (see `printer_usb` and `ble`).

use vstd::prelude::*;

verus! {

/// Finder for USB printers. Enumeration itself is a blocking call into the
/// OS USB stack; its result is consumed as a list of descriptor snapshots.
pub struct FinderUSB;

/// Finder for BLE printers. Scanning runs as a background task against the
/// OS Bluetooth stack; its result is consumed as a device-set snapshot.
pub struct FinderBLE;

} // verus!
