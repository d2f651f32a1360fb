//! Errors returned by driver operations.

use vstd::prelude::*;

verus! {

/// All errors in this crate.
///
/// Every operation fails with a communication error of the underlying bus
/// transport, or — on the dedicated-bus realization only — with a failure to
/// drive a chip-select line. Errors are never retried internally; they
/// propagate unchanged to the caller.
#[derive(Debug, PartialEq, Eq)]
pub enum Error<CommE, PinE> {
    /// Communication error at or below the bus-transaction boundary.
    Comm(CommE),
    /// Failure to assert or deassert a chip-select line.
    Pin(PinE),
}

} // verus!
