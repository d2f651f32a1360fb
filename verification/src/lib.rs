//! Register-level driver for a combined accelerometer/magnetometer sensor
//! chip, usable over either of two physical buses: a shared multi-device bus
//! (one chip address, sub-device selected by a bit of the register address) or
//! a dedicated synchronous bus with one chip-select line per sub-device.
//!
//! The driver translates typed operations ("read acceleration", "check
//! magnetometer status", "initialize device") into fixed sequences of register
//! reads and writes, and caches the bit patterns last written to the
//! write-only configuration registers. Every operation's contract states the
//! exact bus transactions it completes and how the cache changes; the cache is
//! updated only after the corresponding physical write succeeded.

pub mod config;
pub mod device;
pub mod error;
pub mod interface;
pub mod registers;
pub mod transaction;
pub mod transport;
pub mod types;

pub use config::Config;
pub use device::Lsm303agr;
pub use error::Error;
pub use interface::{BusInterface, I2cInterface, SpiInterface};
pub use transaction::Transaction;
pub use types::{AccelMode, AccelScale, Acceleration, MagOneShot, Status, Temperature, TemperatureStatus};
