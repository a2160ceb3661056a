//! ESC/POS thermal-printer driving: command encoding, raster image
//! preparation, job building, and the decision core of the USB / BLE /
//! classic-Bluetooth transport lifecycle.

pub mod ble;
pub mod commands;
pub mod escpos;

use vstd::prelude::*;

verus! {

/// Result type used throughout the crate.
pub type EcoPrintResult<T> = Result<T, EcoPrintError>;

/// Errors surfaced by the transports, the printer facade and the encoders.
#[derive(Debug)]
pub enum EcoPrintError {
    // USB
    USBFeatureNotEnabled,
    USBScan(String),
    USBUnknown(String),
    // BLE
    BLEFeatureNotEnabled,
    BLEAdapter(String),
    BLENotEnabled,
    BLEScan(String),
    BLEConnect(String),
    BLEServices(String),
    BLEUnknown(String),
    BLEPeripheral(String),
    // Printer
    Printer(String),
    Printing(String),
    Send(String),
    Runtime(String),
    // Selection and encoding
    DeviceNotFound(String),
    UnsupportedFeature(String),
    Decode(String),
}

/// A device that consumes an already-formatted ESC/POS command stream.
/// Implementors forward `data` to their transport unchanged; use the job
/// builder to produce it.
pub trait PrinterTrait {
    fn print(&mut self, data: String) -> EcoPrintResult<()>;
}

/// A finder for nearby printable devices — USB, Bluetooth, BLE and the
/// like. Discovery hands back a snapshot of what the transport currently
/// sees.
pub trait FinderTrait<Device> {
    /// Start the finder; by default there is nothing to start.
    fn start(&mut self) -> EcoPrintResult<()> {
        Ok(())
    }

    /// The devices found so far.
    fn get_devices(&self) -> Vec<Device>;

    /// Ask the transport to scan for devices.
    fn scan(&mut self) -> EcoPrintResult<()>;

    /// Connect to a device and keep the connection.
    fn connect(&mut self, device: Device) -> EcoPrintResult<()>;

    /// Drop the kept connection, if any.
    fn disconnect(&mut self) -> EcoPrintResult<()>;
}

} // verus!
