//! A diagnostic printer that writes the command stream to the terminal
//! instead of a device; useful together with the ASCII-art renderer when no
//! hardware is attached.

use std::io::Write;

use vstd::prelude::*;

use super::printers::PrinterTrait;
use crate::EcoPrintResult;

verus! {

/// Relies on `std::io::Stdout`'s `Write` impl: prints the line to standard
/// output.
#[verifier::external_body]
fn write_line_stdout(data: &str) {
    let _ = writeln!(std::io::stdout(), "{}", data);
}

/// A printer that prints to the terminal.
pub struct PrinterESCPOSTerminal;

impl PrinterTrait for PrinterESCPOSTerminal {
    /// Write the stream to standard output; never fails.
    fn print(&mut self, data: String) -> (r: EcoPrintResult<()>)
        ensures
            r is Ok,
    {
        write_line_stdout(data.as_str());
        Ok(())
    }
}

} // verus!
