//! Bus interface abstraction: one register-level contract, two wire formats.
//!
//! [`BusInterface`] is what the device handle talks to. Its two realizations
//! hide the divergent wire-level addressing completely: the shared-bus
//! realization addresses one chip and selects the sub-device by a bit of the
//! register address byte, while the dedicated-bus realization selects the
//! sub-device by asserting one of two chip-select lines and encodes read and
//! auto-increment requests in the high bits of the address byte.
//!
//! Every interface keeps a ghost log of the transactions that completed, so
//! contracts further up can state exactly which reads and writes an operation
//! issued. A failed operation leaves the log unchanged.

use crate::error::Error;
use crate::registers::{DEVICE_ADDRESS, SHARED_MAG_SELECT, SHARED_MULTI, SPI_MULTI, SPI_READ};
use crate::transaction::Transaction;
use crate::transport::{I2cTransport, SelectPin, SpiTransport};
use vstd::prelude::*;

verus! {

/// The value encoded by the little-endian byte pair `(lo, hi)`, read as a
/// two's-complement signed 16-bit number.
pub open spec fn i16_le_spec(lo: u8, hi: u8) -> int {
    if lo + 256 * hi >= 32768 {
        lo + 256 * hi - 65536
    } else {
        lo + 256 * hi
    }
}

/// Reassemble one signed 16-bit value from its little-endian byte pair.
pub fn i16_from_le_pair(lo: u8, hi: u8) -> (r: i16)
    ensures
        r == i16_le_spec(lo, hi),
{
    let v: i32 = (lo as i32) + 256 * (hi as i32);
    let s: i32 = if v >= 32768 {
        v - 65536
    } else {
        v
    };
    s as i16
}

/// The address byte sent on the shared bus: the register's six-bit address,
/// the sub-device select bit when the register belongs to the magnetometer,
/// and the auto-increment bit for a multi-byte transaction.
pub open spec fn shared_addr_spec(addr: u8, mag: bool, multi: bool) -> u8 {
    let selected = if mag {
        addr | SHARED_MAG_SELECT
    } else {
        addr
    };
    if multi {
        selected | SHARED_MULTI
    } else {
        selected
    }
}

/// Build the shared-bus address byte.
pub fn shared_addr(addr: u8, mag: bool, multi: bool) -> (r: u8)
    ensures
        r == shared_addr_spec(addr, mag, multi),
{
    let selected: u8 = if mag {
        addr | SHARED_MAG_SELECT
    } else {
        addr
    };
    if multi {
        selected | SHARED_MULTI
    } else {
        selected
    }
}

/// The address byte sent on the dedicated bus: the register's six-bit
/// address, the top bit set for a read and clear for a write, and the second
/// high bit set for a multi-byte transaction.
pub open spec fn spi_addr_spec(addr: u8, read: bool, multi: bool) -> u8 {
    let framed = if read {
        addr | SPI_READ
    } else {
        addr
    };
    if multi {
        framed | SPI_MULTI
    } else {
        framed
    }
}

/// Build the dedicated-bus address byte.
pub fn spi_addr(addr: u8, read: bool, multi: bool) -> (r: u8)
    ensures
        r == spi_addr_spec(addr, read, multi),
{
    let framed: u8 = if read {
        addr | SPI_READ
    } else {
        addr
    };
    if multi {
        framed | SPI_MULTI
    } else {
        framed
    }
}

/// Register-level access to the two sub-devices, polymorphic over the wire
/// format. The ghost transaction log records, newest last, every transaction
/// that completed; an operation that fails appends nothing.
pub trait BusInterface: Sized {
    /// The error type of the concrete realization.
    type Error;

    /// The transactions completed so far, newest last.
    spec fn issued(&self) -> Seq<Transaction>;

    /// Write one byte to an accelerometer register.
    fn write_accel_register(&mut self, addr: u8, value: u8) -> (r: Result<(), Self::Error>)
        ensures
            r is Ok ==> final(self).issued() == old(self).issued().push(
                Transaction::WriteAccel { addr, value },
            ),
            r is Err ==> final(self).issued() == old(self).issued(),
    ;

    /// Write one byte to a magnetometer register.
    fn write_mag_register(&mut self, addr: u8, value: u8) -> (r: Result<(), Self::Error>)
        ensures
            r is Ok ==> final(self).issued() == old(self).issued().push(
                Transaction::WriteMag { addr, value },
            ),
            r is Err ==> final(self).issued() == old(self).issued(),
    ;

    /// Read one byte from an accelerometer register.
    fn read_accel_register(&mut self, addr: u8) -> (r: Result<u8, Self::Error>)
        ensures
            r matches Ok(value) ==> final(self).issued() == old(self).issued().push(
                Transaction::ReadAccel { addr, value },
            ),
            r is Err ==> final(self).issued() == old(self).issued(),
    ;

    /// Read one byte from a magnetometer register.
    fn read_mag_register(&mut self, addr: u8) -> (r: Result<u8, Self::Error>)
        ensures
            r matches Ok(value) ==> final(self).issued() == old(self).issued().push(
                Transaction::ReadMag { addr, value },
            ),
            r is Err ==> final(self).issued() == old(self).issued(),
    ;

    /// Burst-read two consecutive accelerometer registers starting at `addr`
    /// and reassemble them as one little-endian signed 16-bit value.
    fn read_accel_double_register(&mut self, addr: u8) -> (r: Result<i16, Self::Error>)
        ensures
            r matches Ok(value) ==> final(self).issued() == old(self).issued().push(
                Transaction::ReadAccelDouble { addr, raw: value },
            ),
            r is Err ==> final(self).issued() == old(self).issued(),
    ;

    /// Burst-read six consecutive accelerometer registers starting at `addr`
    /// and reassemble them as three little-endian signed 16-bit values.
    fn read_accel_3_double_registers(&mut self, addr: u8) -> (r: Result<
        (i16, i16, i16),
        Self::Error,
    >)
        ensures
            r matches Ok(v) ==> final(self).issued() == old(self).issued().push(
                Transaction::ReadAccelTriple { addr, x: v.0, y: v.1, z: v.2 },
            ),
            r is Err ==> final(self).issued() == old(self).issued(),
    ;
}

/// Shared-bus realization: one chip address for both sub-devices, the
/// magnetometer's registers selected by a bit of the address byte.
pub struct I2cInterface<I2C> {
    /// The caller-supplied shared-bus transport.
    pub i2c: I2C,
    /// Ghost log of completed transactions, newest last.
    pub log: Ghost<Seq<Transaction>>,
}

impl<I2C: I2cTransport> BusInterface for I2cInterface<I2C> {
    type Error = Error<I2C::BusError, ()>;

    open spec fn issued(&self) -> Seq<Transaction> {
        self.log@
    }

    fn write_accel_register(&mut self, addr: u8, value: u8) -> (r: Result<(), Self::Error>) {
        let framed: u8 = shared_addr(addr, false, false);
        match self.i2c.write_byte_pair(DEVICE_ADDRESS, framed, value) {
            Ok(()) => {
                self.log = Ghost(self.log@.push(Transaction::WriteAccel { addr, value }));
                Ok(())
            },
            Err(e) => Err(Error::Comm(e)),
        }
    }

    fn write_mag_register(&mut self, addr: u8, value: u8) -> (r: Result<(), Self::Error>) {
        let framed: u8 = shared_addr(addr, true, false);
        match self.i2c.write_byte_pair(DEVICE_ADDRESS, framed, value) {
            Ok(()) => {
                self.log = Ghost(self.log@.push(Transaction::WriteMag { addr, value }));
                Ok(())
            },
            Err(e) => Err(Error::Comm(e)),
        }
    }

    fn read_accel_register(&mut self, addr: u8) -> (r: Result<u8, Self::Error>) {
        let framed: u8 = shared_addr(addr, false, false);
        match self.i2c.write_then_read(DEVICE_ADDRESS, framed, 1) {
            Ok(bytes) => {
                let value: u8 = bytes[0];
                self.log = Ghost(self.log@.push(Transaction::ReadAccel { addr, value }));
                Ok(value)
            },
            Err(e) => Err(Error::Comm(e)),
        }
    }

    fn read_mag_register(&mut self, addr: u8) -> (r: Result<u8, Self::Error>) {
        let framed: u8 = shared_addr(addr, true, false);
        match self.i2c.write_then_read(DEVICE_ADDRESS, framed, 1) {
            Ok(bytes) => {
                let value: u8 = bytes[0];
                self.log = Ghost(self.log@.push(Transaction::ReadMag { addr, value }));
                Ok(value)
            },
            Err(e) => Err(Error::Comm(e)),
        }
    }

    fn read_accel_double_register(&mut self, addr: u8) -> (r: Result<i16, Self::Error>) {
        let framed: u8 = shared_addr(addr, false, true);
        match self.i2c.write_then_read(DEVICE_ADDRESS, framed, 2) {
            Ok(bytes) => {
                let value: i16 = i16_from_le_pair(bytes[0], bytes[1]);
                self.log = Ghost(self.log@.push(Transaction::ReadAccelDouble { addr, raw: value }));
                Ok(value)
            },
            Err(e) => Err(Error::Comm(e)),
        }
    }

    fn read_accel_3_double_registers(&mut self, addr: u8) -> (r: Result<
        (i16, i16, i16),
        Self::Error,
    >) {
        let framed: u8 = shared_addr(addr, false, true);
        match self.i2c.write_then_read(DEVICE_ADDRESS, framed, 6) {
            Ok(bytes) => {
                let x: i16 = i16_from_le_pair(bytes[0], bytes[1]);
                let y: i16 = i16_from_le_pair(bytes[2], bytes[3]);
                let z: i16 = i16_from_le_pair(bytes[4], bytes[5]);
                self.log = Ghost(self.log@.push(Transaction::ReadAccelTriple { addr, x, y, z }));
                Ok((x, y, z))
            },
            Err(e) => Err(Error::Comm(e)),
        }
    }
}

/// Dedicated-bus realization: one synchronous bus shared by both sub-devices,
/// each reached through its own chip-select line.
pub struct SpiInterface<SPI, CSXL, CSMAG> {
    /// The caller-supplied synchronous bus transport.
    pub spi: SPI,
    /// Chip-select line of the accelerometer sub-device.
    pub cs_xl: CSXL,
    /// Chip-select line of the magnetometer sub-device.
    pub cs_mag: CSMAG,
    /// Ghost log of completed transactions, newest last.
    pub log: Ghost<Seq<Transaction>>,
}

impl<SPI, CSXL, CSMAG> BusInterface for SpiInterface<SPI, CSXL, CSMAG> where
    SPI: SpiTransport,
    CSXL: SelectPin,
    CSMAG: SelectPin<PinError = CSXL::PinError>,
 {
    type Error = Error<SPI::BusError, CSXL::PinError>;

    open spec fn issued(&self) -> Seq<Transaction> {
        self.log@
    }

    fn write_accel_register(&mut self, addr: u8, value: u8) -> (r: Result<(), Self::Error>) {
        let framed: u8 = spi_addr(addr, false, false);
        match self.cs_xl.set_low() {
            Ok(()) => {},
            Err(e) => {
                return Err(Error::Pin(e));
            },
        }
        let result = self.spi.write_byte_pair(framed, value);
        match self.cs_xl.set_high() {
            Ok(()) => {},
            Err(e) => {
                return Err(Error::Pin(e));
            },
        }
        match result {
            Ok(()) => {
                self.log = Ghost(self.log@.push(Transaction::WriteAccel { addr, value }));
                Ok(())
            },
            Err(e) => Err(Error::Comm(e)),
        }
    }

    fn write_mag_register(&mut self, addr: u8, value: u8) -> (r: Result<(), Self::Error>) {
        let framed: u8 = spi_addr(addr, false, false);
        match self.cs_mag.set_low() {
            Ok(()) => {},
            Err(e) => {
                return Err(Error::Pin(e));
            },
        }
        let result = self.spi.write_byte_pair(framed, value);
        match self.cs_mag.set_high() {
            Ok(()) => {},
            Err(e) => {
                return Err(Error::Pin(e));
            },
        }
        match result {
            Ok(()) => {
                self.log = Ghost(self.log@.push(Transaction::WriteMag { addr, value }));
                Ok(())
            },
            Err(e) => Err(Error::Comm(e)),
        }
    }

    fn read_accel_register(&mut self, addr: u8) -> (r: Result<u8, Self::Error>) {
        let framed: u8 = spi_addr(addr, true, false);
        match self.cs_xl.set_low() {
            Ok(()) => {},
            Err(e) => {
                return Err(Error::Pin(e));
            },
        }
        let result = self.spi.write_then_read(framed, 1);
        match self.cs_xl.set_high() {
            Ok(()) => {},
            Err(e) => {
                return Err(Error::Pin(e));
            },
        }
        match result {
            Ok(bytes) => {
                let value: u8 = bytes[0];
                self.log = Ghost(self.log@.push(Transaction::ReadAccel { addr, value }));
                Ok(value)
            },
            Err(e) => Err(Error::Comm(e)),
        }
    }

    fn read_mag_register(&mut self, addr: u8) -> (r: Result<u8, Self::Error>) {
        let framed: u8 = spi_addr(addr, true, false);
        match self.cs_mag.set_low() {
            Ok(()) => {},
            Err(e) => {
                return Err(Error::Pin(e));
            },
        }
        let result = self.spi.write_then_read(framed, 1);
        match self.cs_mag.set_high() {
            Ok(()) => {},
            Err(e) => {
                return Err(Error::Pin(e));
            },
        }
        match result {
            Ok(bytes) => {
                let value: u8 = bytes[0];
                self.log = Ghost(self.log@.push(Transaction::ReadMag { addr, value }));
                Ok(value)
            },
            Err(e) => Err(Error::Comm(e)),
        }
    }

    fn read_accel_double_register(&mut self, addr: u8) -> (r: Result<i16, Self::Error>) {
        let framed: u8 = spi_addr(addr, true, true);
        match self.cs_xl.set_low() {
            Ok(()) => {},
            Err(e) => {
                return Err(Error::Pin(e));
            },
        }
        let result = self.spi.write_then_read(framed, 2);
        match self.cs_xl.set_high() {
            Ok(()) => {},
            Err(e) => {
                return Err(Error::Pin(e));
            },
        }
        match result {
            Ok(bytes) => {
                let value: i16 = i16_from_le_pair(bytes[0], bytes[1]);
                self.log = Ghost(self.log@.push(Transaction::ReadAccelDouble { addr, raw: value }));
                Ok(value)
            },
            Err(e) => Err(Error::Comm(e)),
        }
    }

    fn read_accel_3_double_registers(&mut self, addr: u8) -> (r: Result<
        (i16, i16, i16),
        Self::Error,
    >) {
        let framed: u8 = spi_addr(addr, true, true);
        match self.cs_xl.set_low() {
            Ok(()) => {},
            Err(e) => {
                return Err(Error::Pin(e));
            },
        }
        let result = self.spi.write_then_read(framed, 6);
        match self.cs_xl.set_high() {
            Ok(()) => {},
            Err(e) => {
                return Err(Error::Pin(e));
            },
        }
        match result {
            Ok(bytes) => {
                let x: i16 = i16_from_le_pair(bytes[0], bytes[1]);
                let y: i16 = i16_from_le_pair(bytes[2], bytes[3]);
                let z: i16 = i16_from_le_pair(bytes[4], bytes[5]);
                self.log = Ghost(self.log@.push(Transaction::ReadAccelTriple { addr, x, y, z }));
                Ok((x, y, z))
            },
            Err(e) => Err(Error::Comm(e)),
        }
    }
}

} // verus!
