//! Bus transports supplied by the caller.
//!
//! The driver owns no hardware access of its own: the caller hands the
//! constructors an object that moves bytes over the physical bus. These
//! traits are the whole surface the driver asks of such an object. Retry
//! policy, timeouts and cancellation are the transport's concern; the driver
//! neither imposes nor inspects any.

use vstd::prelude::*;

verus! {

/// A shared multi-device bus transport: transactions address a chip by its
/// seven-bit device address.
pub trait I2cTransport {
    /// The transport's own communication error type.
    type BusError;

    /// Write two bytes (a register address byte, then a data byte) to the
    /// chip at device address `dev`.
    fn write_byte_pair(&mut self, dev: u8, first: u8, second: u8) -> Result<(), Self::BusError>;

    /// Write one byte (a register address byte) to the chip at device
    /// address `dev`, then read back exactly `count` bytes.
    ///
    /// An implementation must hand back one byte per byte requested; a
    /// transfer that cannot do so must fail instead.
    fn write_then_read(&mut self, dev: u8, first: u8, count: usize) -> (r: Result<
        Vec<u8>,
        Self::BusError,
    >)
        ensures
            r matches Ok(bytes) ==> bytes@.len() == count,
    ;
}

/// A dedicated synchronous bus transport: transactions reach whichever chip
/// has its select line asserted, so no device address is carried.
pub trait SpiTransport {
    /// The transport's own communication error type.
    type BusError;

    /// Shift out two bytes (a register address byte, then a data byte).
    fn write_byte_pair(&mut self, first: u8, second: u8) -> Result<(), Self::BusError>;

    /// Shift out one byte (a register address byte), then read back exactly
    /// `count` bytes.
    ///
    /// An implementation must hand back one byte per byte requested; a
    /// transfer that cannot do so must fail instead.
    fn write_then_read(&mut self, first: u8, count: usize) -> (r: Result<Vec<u8>, Self::BusError>)
        ensures
            r matches Ok(bytes) ==> bytes@.len() == count,
    ;
}

/// One chip-select output line of the dedicated bus.
pub trait SelectPin {
    /// The line driver's own error type.
    type PinError;

    /// Drive the line low (assert the selection).
    fn set_low(&mut self) -> Result<(), Self::PinError>;

    /// Drive the line high (release the selection).
    fn set_high(&mut self) -> Result<(), Self::PinError>;
}

} // verus!
