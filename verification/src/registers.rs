//! Register map and wire-level addressing constants.
//!
//! Every register has a six-bit on-chip address, local to its sub-device.
//! On the shared bus the magnetometer's registers are distinguished by the
//! sub-device select bit of the address byte; on the dedicated bus the active
//! chip-select line picks the sub-device instead.

use vstd::prelude::*;

verus! {

/// Seven-bit chip address used by the shared-bus realization.
pub const DEVICE_ADDRESS: u8 = 0x19;

// Accelerometer sub-device registers.
pub const STATUS_REG_AUX_A: u8 = 0x07;
pub const OUT_TEMP_L_A: u8 = 0x0C;
pub const WHO_AM_I_A: u8 = 0x0F;
pub const TEMP_CFG_REG_A: u8 = 0x1F;
pub const CTRL_REG1_A: u8 = 0x20;
pub const CTRL_REG4_A: u8 = 0x23;
pub const STATUS_REG_A: u8 = 0x27;
pub const OUT_X_L_A: u8 = 0x28;

// Magnetometer sub-device registers (sub-device-local addresses).
pub const WHO_AM_I_M: u8 = 0x0F;
pub const CFG_REG_A_M: u8 = 0x20;
pub const CFG_REG_B_M: u8 = 0x21;
pub const CFG_REG_C_M: u8 = 0x22;
pub const STATUS_REG_M: u8 = 0x27;

/// Expected content of the accelerometer identity register.
pub const WHO_AM_I_A_VAL: u8 = 0x33;
/// Expected content of the magnetometer identity register.
pub const WHO_AM_I_M_VAL: u8 = 0x40;

// Configuration register flags.
/// Block-data-update bit of `CTRL_REG4_A`.
pub const ACCEL_BDU: u8 = 0x80;
/// High-resolution mode bit of `CTRL_REG4_A`.
pub const ACCEL_HR: u8 = 0x08;
/// Full-scale selection field of `CTRL_REG4_A` (two bits).
pub const ACCEL_FS_MASK: u8 = 0x30;
/// Low-power mode bit of `CTRL_REG1_A`.
pub const ACCEL_LP_EN: u8 = 0x08;
/// Block-data-update bit of `CFG_REG_C_M`.
pub const MAG_BDU: u8 = 0x10;
/// Temperature sensor enable field of `TEMP_CFG_REG_A` (two bits).
pub const TEMP_EN: u8 = 0xC0;

// Status register flags.
/// New data is ready on all three axes.
pub const XYZ_NEW_DATA: u8 = 0x08;
/// Data was overrun on all three axes.
pub const XYZ_OVERRUN: u8 = 0x80;
/// New temperature data is ready.
pub const TEMP_NEW_DATA: u8 = 0x04;
/// Temperature data was overrun.
pub const TEMP_OVERRUN: u8 = 0x40;

// Wire-level address-byte bits.
/// Shared bus: set in the address byte to request auto-increment for a
/// multi-byte transaction.
pub const SHARED_MULTI: u8 = 0x80;
/// Shared bus: sub-device select bit; set for magnetometer registers.
pub const SHARED_MAG_SELECT: u8 = 0x40;
/// Dedicated bus: top bit of the address byte; set for a read, clear for a
/// write.
pub const SPI_READ: u8 = 0x80;
/// Dedicated bus: second high bit of the address byte; set to request
/// auto-increment for a multi-byte transaction.
pub const SPI_MULTI: u8 = 0x40;

} // verus!
