//! Print-job building: the fixed ESC/POS directive table, typed job items,
//! and the builder that serializes a job to one command stream.

pub mod command;
pub mod qrcode;
