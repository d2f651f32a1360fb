//! Typed values decoded from raw register bytes.

use crate::registers::{TEMP_NEW_DATA, TEMP_OVERRUN, XYZ_NEW_DATA, XYZ_OVERRUN};
use vstd::prelude::*;

verus! {

/// Marker for the magnetometer's one-shot acquisition mode: the magnetometer
/// produces a single reading per request rather than sampling continuously.
/// One-shot is the only acquisition mode this driver drives.
#[derive(Clone, Copy, Debug, PartialEq, Eq, Structural)]
pub struct MagOneShot;

/// Accelerometer operating mode, as cached in the control registers.
#[derive(Clone, Copy, Debug, PartialEq, Eq, Structural)]
pub enum AccelMode {
    /// Low-power mode.
    LowPower,
    /// Normal mode.
    Normal,
    /// High-resolution mode.
    HighResolution,
}

/// Accelerometer full-scale range, as cached in the control registers.
#[derive(Clone, Copy, Debug, PartialEq, Eq, Structural)]
pub enum AccelScale {
    /// +/- 2 g.
    G2,
    /// +/- 4 g.
    G4,
    /// +/- 8 g.
    G8,
    /// +/- 16 g.
    G16,
}

/// Data-ready and overrun flags of one sub-device, decoded from a single
/// status-register byte at the instant of the read. Not cached; re-read on
/// every query.
#[derive(Clone, Copy, Debug, PartialEq, Eq, Structural)]
pub struct Status {
    /// The raw status-register byte.
    pub raw: u8,
}

impl Status {
    /// Wrap a raw status-register byte.
    pub fn new(raw: u8) -> (r: Status)
        ensures
            r.raw == raw,
    {
        Status { raw }
    }

    /// New data is ready on all three axes.
    pub fn xyz_new_data(self) -> (r: bool)
        ensures
            r == (self.raw & XYZ_NEW_DATA == XYZ_NEW_DATA),
    {
        self.raw & XYZ_NEW_DATA == XYZ_NEW_DATA
    }

    /// Data was overrun on all three axes.
    pub fn xyz_overrun(self) -> (r: bool)
        ensures
            r == (self.raw & XYZ_OVERRUN == XYZ_OVERRUN),
    {
        self.raw & XYZ_OVERRUN == XYZ_OVERRUN
    }
}

/// Temperature sensor data-ready and overrun flags, decoded from the
/// auxiliary status-register byte at the instant of the read.
#[derive(Clone, Copy, Debug, PartialEq, Eq, Structural)]
pub struct TemperatureStatus {
    /// The raw auxiliary status-register byte.
    pub raw: u8,
}

impl TemperatureStatus {
    /// Wrap a raw auxiliary status-register byte.
    pub fn new(raw: u8) -> (r: TemperatureStatus)
        ensures
            r.raw == raw,
    {
        TemperatureStatus { raw }
    }

    /// New temperature data is ready.
    pub fn new_data(self) -> (r: bool)
        ensures
            r == (self.raw & TEMP_NEW_DATA == TEMP_NEW_DATA),
    {
        self.raw & TEMP_NEW_DATA == TEMP_NEW_DATA
    }

    /// Temperature data was overrun.
    pub fn overrun(self) -> (r: bool)
        ensures
            r == (self.raw & TEMP_OVERRUN == TEMP_OVERRUN),
    {
        self.raw & TEMP_OVERRUN == TEMP_OVERRUN
    }
}

/// One acceleration measurement: raw signed axis counts together with the
/// operating mode and full-scale range that were cached when the measurement
/// was read, so the counts are self-describing to downstream conversion code.
#[derive(Clone, Copy, Debug, PartialEq, Eq, Structural)]
pub struct Acceleration {
    /// Raw signed count of the X axis.
    pub x: i16,
    /// Raw signed count of the Y axis.
    pub y: i16,
    /// Raw signed count of the Z axis.
    pub z: i16,
    /// Operating mode cached at the time of the read.
    pub mode: AccelMode,
    /// Full-scale range cached at the time of the read.
    pub scale: AccelScale,
}

/// One temperature measurement: the raw signed value, unconverted.
#[derive(Clone, Copy, Debug, PartialEq, Eq, Structural)]
pub struct Temperature {
    /// Raw signed temperature count.
    pub raw: i16,
}

} // verus!
