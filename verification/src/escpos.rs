//! The ESC/POS layer: the directive table, command lists, raster image
//! preparation, device finders and the printer fronts.

pub mod basic;
pub mod command;
pub mod finder;
pub mod image;
pub mod printer_terminal;
pub mod printer_usb;
pub mod printers;
