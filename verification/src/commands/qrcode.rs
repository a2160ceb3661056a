//! QR code job items: a placeholder surface.
//!
//! QR rendering is deliberately not implemented; constructing a QR code
//! fails fast with an explicit error instead of silently producing an
//! incomplete job.

use vstd::prelude::*;

use crate::{EcoPrintError, EcoPrintResult};

verus! {

/// A QR code print item. No value of this type can currently be built:
/// [`ESCPOSQRCode::new`] always reports the feature as unsupported.
pub struct ESCPOSQRCode {
    /// The payload the QR symbol would encode.
    pub qrcode: String,
}

impl ESCPOSQRCode {
    /// QR rendering is a stub: every call fails with `UnsupportedFeature`,
    /// whatever the payload.
    pub fn new(data: String) -> (r: EcoPrintResult<Self>)
        ensures
            r matches Err(e) && e matches EcoPrintError::UnsupportedFeature(_),
    {
        let _ = data;
        Err(EcoPrintError::UnsupportedFeature(String::from_str("QR code rendering is not implemented")))
    }
}

} // verus!
