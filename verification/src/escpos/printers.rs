//! The common printer capability: send an already-formatted ESC/POS stream.

use vstd::prelude::*;

use crate::EcoPrintResult;

verus! {

/// A printer front. `data` is a fully formatted ESC/POS command stream,
/// typically produced by a command list or job builder; the implementor
/// forwards it to its device unchanged.
pub trait PrinterTrait {
    fn print(&mut self, data: String) -> EcoPrintResult<()>;
}

} // verus!
