//! Ghost model of completed bus transactions.

use vstd::prelude::*;

verus! {

/// One completed register-level bus transaction, as recorded in the ghost
/// transaction log of a bus interface.
///
/// Reads carry the value the device returned; multi-byte reads carry the
/// decoded little-endian signed values. Only transactions that completed
/// successfully are recorded: a failed operation leaves the log unchanged.
pub enum Transaction {
    /// A single-byte write to an accelerometer register.
    WriteAccel { addr: u8, value: u8 },
    /// A single-byte write to a magnetometer register.
    WriteMag { addr: u8, value: u8 },
    /// A single-byte read of an accelerometer register.
    ReadAccel { addr: u8, value: u8 },
    /// A single-byte read of a magnetometer register.
    ReadMag { addr: u8, value: u8 },
    /// A two-byte burst read of an accelerometer register pair, decoded as
    /// one little-endian signed 16-bit value.
    ReadAccelDouble { addr: u8, raw: i16 },
    /// A six-byte burst read of three accelerometer register pairs, decoded
    /// as three little-endian signed 16-bit values.
    ReadAccelTriple { addr: u8, x: i16, y: i16, z: i16 },
}

} // verus!
