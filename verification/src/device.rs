//! The device handle: cached configuration, initialization and queries.
//!
//! A handle owns exactly one bus interface and the cached values of the
//! write-only configuration registers. The cache is updated if and only if
//! the corresponding physical write succeeded, in that order: physical write
//! first, cache second, so a failed write never leaves the cache believing a
//! change reached hardware. If a caller bypasses the handle and writes a
//! register through another path the cache becomes stale; the handle must be
//! the sole owner of the bus resource.

use crate::config::{
    lemma_or_reads_high, lemma_with_high_idempotent, lemma_with_high_noop_when_high, Config,
};
use crate::error::Error;
use crate::interface::{BusInterface, I2cInterface, SpiInterface};
use crate::registers::{
    ACCEL_BDU, ACCEL_FS_MASK, ACCEL_HR, ACCEL_LP_EN, CFG_REG_C_M, CTRL_REG4_A, MAG_BDU,
    OUT_TEMP_L_A, OUT_X_L_A, STATUS_REG_A, STATUS_REG_AUX_A, STATUS_REG_M, TEMP_CFG_REG_A, TEMP_EN,
    WHO_AM_I_A, WHO_AM_I_A_VAL, WHO_AM_I_M, WHO_AM_I_M_VAL,
};
use crate::transaction::Transaction;
use crate::types::{
    Acceleration, AccelMode, AccelScale, MagOneShot, Status, Temperature, TemperatureStatus,
};
use vstd::prelude::*;

verus! {

/// Power-on-reset default of the accelerometer control register 1.
pub const CTRL_REG1_A_DEFAULT: u8 = 0x07;

/// Power-on-reset default of the magnetometer configuration register A.
pub const CFG_REG_A_M_DEFAULT: u8 = 0x03;

/// The device handle. Owns the bus interface and the full set of cached
/// configuration register values, plus the marker of the magnetometer
/// acquisition mode (only one-shot mode is in scope).
pub struct Lsm303agr<DI> {
    /// The bus interface the handle owns.
    pub iface: DI,
    /// Cached accelerometer control register 1.
    pub ctrl_reg1_a: Config,
    /// Cached accelerometer control register 4.
    pub ctrl_reg4_a: Config,
    /// Cached magnetometer configuration register A.
    pub cfg_reg_a_m: Config,
    /// Cached magnetometer configuration register B.
    pub cfg_reg_b_m: Config,
    /// Cached magnetometer configuration register C.
    pub cfg_reg_c_m: Config,
    /// Cached temperature-enable register.
    pub temp_cfg_reg_a: Config,
    /// Magnetometer acquisition mode marker.
    pub mag_mode: MagOneShot,
}

/// Relates the transaction logs before and after one identity check: exactly
/// one identity-register read was completed, and `detected` holds exactly
/// when the byte it returned equals the documented expected value.
pub open spec fn id_check_post(
    pre: Seq<Transaction>,
    post: Seq<Transaction>,
    mag: bool,
    detected: bool,
) -> bool {
    &&& post.len() == pre.len() + 1
    &&& post.drop_last() == pre
    &&& if mag {
        post.last() matches Transaction::ReadMag { addr, value } && addr == WHO_AM_I_M
            && detected == (value == WHO_AM_I_M_VAL)
    } else {
        post.last() matches Transaction::ReadAccel { addr, value } && addr == WHO_AM_I_A
            && detected == (value == WHO_AM_I_A_VAL)
    }
}

impl<DI> Lsm303agr<DI> {
    /// The full cached configuration, as one value, for stating what an
    /// operation leaves untouched.
    pub open spec fn cached(self) -> (Config, Config, Config, Config, Config, Config) {
        (
            self.ctrl_reg1_a,
            self.ctrl_reg4_a,
            self.cfg_reg_a_m,
            self.cfg_reg_b_m,
            self.cfg_reg_c_m,
            self.temp_cfg_reg_a,
        )
    }

    /// The cache holds the chip's documented power-on-reset defaults.
    pub open spec fn has_power_on_defaults(self) -> bool {
        &&& self.ctrl_reg1_a.bits == CTRL_REG1_A_DEFAULT
        &&& self.ctrl_reg4_a.bits == 0x00
        &&& self.cfg_reg_a_m.bits == CFG_REG_A_M_DEFAULT
        &&& self.cfg_reg_b_m.bits == 0x00
        &&& self.cfg_reg_c_m.bits == 0x00
        &&& self.temp_cfg_reg_a.bits == 0x00
    }

    /// The operating mode encoded by the cached control registers.
    pub open spec fn accel_mode_spec(self) -> AccelMode {
        if self.ctrl_reg1_a.is_high_spec(ACCEL_LP_EN) {
            AccelMode::LowPower
        } else if self.ctrl_reg4_a.is_high_spec(ACCEL_HR) {
            AccelMode::HighResolution
        } else {
            AccelMode::Normal
        }
    }

    /// The full-scale range encoded by the cached control registers.
    pub open spec fn accel_scale_spec(self) -> AccelScale {
        let fs = self.ctrl_reg4_a.bits & ACCEL_FS_MASK;
        if fs == 0x00 {
            AccelScale::G2
        } else if fs == 0x10 {
            AccelScale::G4
        } else if fs == 0x20 {
            AccelScale::G8
        } else {
            AccelScale::G16
        }
    }

    /// Decode the cached operating mode.
    fn get_accel_mode(&self) -> (r: AccelMode)
        ensures
            r == self.accel_mode_spec(),
    {
        if self.ctrl_reg1_a.is_high(ACCEL_LP_EN) {
            AccelMode::LowPower
        } else if self.ctrl_reg4_a.is_high(ACCEL_HR) {
            AccelMode::HighResolution
        } else {
            AccelMode::Normal
        }
    }

    /// Decode the cached full-scale range.
    fn get_accel_scale(&self) -> (r: AccelScale)
        ensures
            r == self.accel_scale_spec(),
    {
        let fs: u8 = self.ctrl_reg4_a.bits & ACCEL_FS_MASK;
        if fs == 0x00 {
            AccelScale::G2
        } else if fs == 0x10 {
            AccelScale::G4
        } else if fs == 0x20 {
            AccelScale::G8
        } else {
            AccelScale::G16
        }
    }
}

impl<I2C> Lsm303agr<I2cInterface<I2C>> {
    /// Create a new device handle communicating through the shared bus.
    /// The cache holds the power-on-reset defaults and no transaction has
    /// been completed yet.
    pub fn new_with_i2c(i2c: I2C) -> (r: Self)
        ensures
            r.iface.i2c == i2c,
            r.iface.log@ == Seq::<Transaction>::empty(),
            r.has_power_on_defaults(),
    {
        Lsm303agr {
            iface: I2cInterface { i2c, log: Ghost(Seq::empty()) },
            ctrl_reg1_a: Config { bits: CTRL_REG1_A_DEFAULT },
            ctrl_reg4_a: Config { bits: 0x00 },
            cfg_reg_a_m: Config { bits: CFG_REG_A_M_DEFAULT },
            cfg_reg_b_m: Config { bits: 0x00 },
            cfg_reg_c_m: Config { bits: 0x00 },
            temp_cfg_reg_a: Config { bits: 0x00 },
            mag_mode: MagOneShot,
        }
    }

    /// Destroy the handle and hand back exactly the bus object supplied to
    /// the constructor.
    pub fn destroy(self) -> (r: I2C)
        ensures
            r == self.iface.i2c,
    {
        self.iface.i2c
    }
}

impl<SPI, CSXL, CSMAG> Lsm303agr<SpiInterface<SPI, CSXL, CSMAG>> {
    /// Create a new device handle communicating through the dedicated bus,
    /// with one chip-select line per sub-device. The cache holds the
    /// power-on-reset defaults and no transaction has been completed yet.
    pub fn new_with_spi(spi: SPI, chip_select_accel: CSXL, chip_select_mag: CSMAG) -> (r: Self)
        ensures
            r.iface.spi == spi,
            r.iface.cs_xl == chip_select_accel,
            r.iface.cs_mag == chip_select_mag,
            r.iface.log@ == Seq::<Transaction>::empty(),
            r.has_power_on_defaults(),
    {
        Lsm303agr {
            iface: SpiInterface {
                spi,
                cs_xl: chip_select_accel,
                cs_mag: chip_select_mag,
                log: Ghost(Seq::empty()),
            },
            ctrl_reg1_a: Config { bits: CTRL_REG1_A_DEFAULT },
            ctrl_reg4_a: Config { bits: 0x00 },
            cfg_reg_a_m: Config { bits: CFG_REG_A_M_DEFAULT },
            cfg_reg_b_m: Config { bits: 0x00 },
            cfg_reg_c_m: Config { bits: 0x00 },
            temp_cfg_reg_a: Config { bits: 0x00 },
            mag_mode: MagOneShot,
        }
    }

    /// Destroy the handle and hand back exactly the bus object and the two
    /// chip-select lines supplied to the constructor.
    pub fn destroy(self) -> (r: (SPI, CSXL, CSMAG))
        ensures
            r.0 == self.iface.spi,
            r.1 == self.iface.cs_xl,
            r.2 == self.iface.cs_mag,
    {
        (self.iface.spi, self.iface.cs_xl, self.iface.cs_mag)
    }
}

impl<DI, CommE, PinE> Lsm303agr<DI> where DI: BusInterface<Error = Error<CommE, PinE>> {
    /// The transactions this handle's interface has completed, newest last.
    pub open spec fn issued(self) -> Seq<Transaction> {
        self.iface.issued()
    }

    /// The two writes a successful `init` completes, computed from the
    /// cached register values at the time of the call.
    pub open spec fn init_writes(self) -> Seq<Transaction> {
        seq![
            Transaction::WriteAccel {
                addr: CTRL_REG4_A,
                value: self.ctrl_reg4_a.with_high_spec(ACCEL_BDU).bits,
            },
            Transaction::WriteMag {
                addr: CFG_REG_C_M,
                value: self.cfg_reg_c_m.with_high_spec(MAG_BDU).bits,
            },
        ]
    }

    /// What a successful `init` did: both block-data-update writes
    /// completed, the two caches updated accordingly, everything else
    /// untouched.
    pub open spec fn init_ok_post(pre: Self, post: Self) -> bool {
        &&& post.ctrl_reg4_a == pre.ctrl_reg4_a.with_high_spec(ACCEL_BDU)
        &&& post.cfg_reg_c_m == pre.cfg_reg_c_m.with_high_spec(MAG_BDU)
        &&& post.ctrl_reg1_a == pre.ctrl_reg1_a
        &&& post.cfg_reg_a_m == pre.cfg_reg_a_m
        &&& post.cfg_reg_b_m == pre.cfg_reg_b_m
        &&& post.temp_cfg_reg_a == pre.temp_cfg_reg_a
        &&& post.issued() == pre.issued() + pre.init_writes()
    }

    /// What a failed `init` left behind: either the first write already
    /// failed and nothing changed, or the first write completed (its cache
    /// updated) and the second failed, leaving its cache unchanged.
    pub open spec fn init_err_post(pre: Self, post: Self) -> bool {
        ||| {
            &&& post.cached() == pre.cached()
            &&& post.issued() == pre.issued()
        }
        ||| {
            &&& post.ctrl_reg4_a == pre.ctrl_reg4_a.with_high_spec(ACCEL_BDU)
            &&& post.cfg_reg_c_m == pre.cfg_reg_c_m
            &&& post.ctrl_reg1_a == pre.ctrl_reg1_a
            &&& post.cfg_reg_a_m == pre.cfg_reg_a_m
            &&& post.cfg_reg_b_m == pre.cfg_reg_b_m
            &&& post.temp_cfg_reg_a == pre.temp_cfg_reg_a
            &&& post.issued() == pre.issued().push(pre.init_writes()[0])
        }
    }

    /// Initialize the device: force the block-data-update bit high in the
    /// accelerometer control register and in the magnetometer configuration
    /// register, one write each, updating each cache only after its write
    /// succeeded. Not memoized: every call issues both writes again.
    pub fn init(&mut self) -> (r: Result<(), Error<CommE, PinE>>)
        ensures
            r is Ok ==> Self::init_ok_post(*old(self), *final(self)),
            r is Ok ==> final(self).ctrl_reg4_a.is_high_spec(ACCEL_BDU),
            r is Ok ==> final(self).cfg_reg_c_m.is_high_spec(MAG_BDU),
            r is Err ==> Self::init_err_post(*old(self), *final(self)),
    {
        let reg4 = self.ctrl_reg4_a.with_high(ACCEL_BDU);
        self.iface.write_accel_register(CTRL_REG4_A, reg4.bits)?;
        self.ctrl_reg4_a = reg4;

        let regc = self.cfg_reg_c_m.with_high(MAG_BDU);
        self.iface.write_mag_register(CFG_REG_C_M, regc.bits)?;
        self.cfg_reg_c_m = regc;

        proof {
            assert(self.issued() =~= old(self).issued() + old(self).init_writes());
        }
        Ok(())
    }

    /// The write a successful temperature-sensor enable completes: nothing
    /// when the cached enable field already reads high, else exactly one
    /// write of the cached pattern with the enable field set.
    pub open spec fn temp_enable_writes(self) -> Seq<Transaction> {
        if self.temp_cfg_reg_a.is_high_spec(TEMP_EN) {
            Seq::<Transaction>::empty()
        } else {
            seq![
                Transaction::WriteAccel {
                    addr: TEMP_CFG_REG_A,
                    value: self.temp_cfg_reg_a.with_high_spec(TEMP_EN).bits,
                },
            ]
        }
    }

    /// What a successful temperature-sensor enable did.
    pub open spec fn temp_enable_ok_post(pre: Self, post: Self) -> bool {
        &&& post.temp_cfg_reg_a == pre.temp_cfg_reg_a.with_high_spec(TEMP_EN)
        &&& post.temp_cfg_reg_a.is_high_spec(TEMP_EN)
        &&& post.ctrl_reg1_a == pre.ctrl_reg1_a
        &&& post.ctrl_reg4_a == pre.ctrl_reg4_a
        &&& post.cfg_reg_a_m == pre.cfg_reg_a_m
        &&& post.cfg_reg_b_m == pre.cfg_reg_b_m
        &&& post.cfg_reg_c_m == pre.cfg_reg_c_m
        &&& post.issued() == pre.issued() + pre.temp_enable_writes()
    }

    /// What a failed temperature-sensor enable left behind: nothing — the
    /// cache and the transaction log are exactly as before.
    pub open spec fn temp_enable_err_post(pre: Self, post: Self) -> bool {
        &&& post.cached() == pre.cached()
        &&& post.issued() == pre.issued()
    }

    /// Enable the temperature sensor if the cached enable field does not
    /// already read high; memoized through the cache, so the write is issued
    /// on first use only. When the field is already high no bus transaction
    /// happens at all and the call cannot fail.
    fn enable_temperature_sensor(&mut self) -> (r: Result<(), Error<CommE, PinE>>)
        ensures
            r is Ok ==> Self::temp_enable_ok_post(*old(self), *final(self)),
            r is Err ==> Self::temp_enable_err_post(*old(self), *final(self)),
            old(self).temp_cfg_reg_a.is_high_spec(TEMP_EN) ==> r is Ok,
    {
        if self.temp_cfg_reg_a.is_high(TEMP_EN) {
            proof {
                lemma_with_high_noop_when_high(self.temp_cfg_reg_a, TEMP_EN);
                assert(self.issued() =~= old(self).issued() + old(self).temp_enable_writes());
            }
            return Ok(());
        }

        let temp_cfg = self.temp_cfg_reg_a.with_high(TEMP_EN);
        self.iface.write_accel_register(TEMP_CFG_REG_A, temp_cfg.bits)?;
        self.temp_cfg_reg_a = temp_cfg;

        proof {
            assert(self.issued() =~= old(self).issued() + old(self).temp_enable_writes());
        }
        Ok(())
    }

    /// Accelerometer status: one read of the accelerometer status register,
    /// wrapped uninterpreted. The cache is untouched.
    pub fn accel_status(&mut self) -> (r: Result<Status, Error<CommE, PinE>>)
        ensures
            r matches Ok(st) ==> final(self).issued() == old(self).issued().push(
                Transaction::ReadAccel { addr: STATUS_REG_A, value: st.raw },
            ),
            r is Err ==> final(self).issued() == old(self).issued(),
            final(self).cached() == old(self).cached(),
    {
        match self.iface.read_accel_register(STATUS_REG_A) {
            Ok(raw) => Ok(Status::new(raw)),
            Err(e) => Err(e),
        }
    }

    /// Magnetometer status: one read of the magnetometer status register,
    /// wrapped uninterpreted. The cache is untouched.
    pub fn mag_status(&mut self) -> (r: Result<Status, Error<CommE, PinE>>)
        ensures
            r matches Ok(st) ==> final(self).issued() == old(self).issued().push(
                Transaction::ReadMag { addr: STATUS_REG_M, value: st.raw },
            ),
            r is Err ==> final(self).issued() == old(self).issued(),
            final(self).cached() == old(self).cached(),
    {
        match self.iface.read_mag_register(STATUS_REG_M) {
            Ok(raw) => Ok(Status::new(raw)),
            Err(e) => Err(e),
        }
    }

    /// Get one acceleration measurement: a single six-byte burst read of the
    /// three axis register pairs, reassembled little-endian per axis and
    /// tagged with the operating mode and full-scale range cached at the
    /// time of the call. The cache is untouched.
    pub fn acceleration(&mut self) -> (r: Result<Acceleration, Error<CommE, PinE>>)
        ensures
            r matches Ok(a) ==> final(self).issued() == old(self).issued().push(
                Transaction::ReadAccelTriple { addr: OUT_X_L_A, x: a.x, y: a.y, z: a.z },
            ) && a.mode == old(self).accel_mode_spec() && a.scale == old(self).accel_scale_spec(),
            r is Err ==> final(self).issued() == old(self).issued(),
            final(self).cached() == old(self).cached(),
    {
        match self.iface.read_accel_3_double_registers(OUT_X_L_A) {
            Ok(xyz) => {
                let mode = self.get_accel_mode();
                let scale = self.get_accel_scale();
                Ok(Acceleration { x: xyz.0, y: xyz.1, z: xyz.2, mode, scale })
            },
            Err(e) => Err(e),
        }
    }

    /// Get the accelerometer device identity byte: one read of the identity
    /// register, returned raw for diagnostics. The cache is untouched.
    pub fn accelerometer_id(&mut self) -> (r: Result<u8, Error<CommE, PinE>>)
        ensures
            r matches Ok(value) ==> final(self).issued() == old(self).issued().push(
                Transaction::ReadAccel { addr: WHO_AM_I_A, value },
            ),
            r is Err ==> final(self).issued() == old(self).issued(),
            final(self).cached() == old(self).cached(),
    {
        self.iface.read_accel_register(WHO_AM_I_A)
    }

    /// Read the accelerometer identity register and report whether it holds
    /// the documented expected value. Never fatal: the caller decides what a
    /// mismatch means.
    pub fn accelerometer_is_detected(&mut self) -> (r: Result<bool, Error<CommE, PinE>>)
        ensures
            r matches Ok(detected) ==> id_check_post(
                old(self).issued(),
                final(self).issued(),
                false,
                detected,
            ),
            r is Err ==> final(self).issued() == old(self).issued(),
            final(self).cached() == old(self).cached(),
    {
        match self.accelerometer_id() {
            Ok(id) => {
                proof {
                    assert(self.issued().drop_last() =~= old(self).issued());
                }
                Ok(id == WHO_AM_I_A_VAL)
            },
            Err(e) => Err(e),
        }
    }

    /// Get the magnetometer device identity byte: one read of the identity
    /// register, returned raw for diagnostics. The cache is untouched.
    pub fn magnetometer_id(&mut self) -> (r: Result<u8, Error<CommE, PinE>>)
        ensures
            r matches Ok(value) ==> final(self).issued() == old(self).issued().push(
                Transaction::ReadMag { addr: WHO_AM_I_M, value },
            ),
            r is Err ==> final(self).issued() == old(self).issued(),
            final(self).cached() == old(self).cached(),
    {
        self.iface.read_mag_register(WHO_AM_I_M)
    }

    /// Read the magnetometer identity register and report whether it holds
    /// the documented expected value. Never fatal: the caller decides what a
    /// mismatch means.
    pub fn magnetometer_is_detected(&mut self) -> (r: Result<bool, Error<CommE, PinE>>)
        ensures
            r matches Ok(detected) ==> id_check_post(
                old(self).issued(),
                final(self).issued(),
                true,
                detected,
            ),
            r is Err ==> final(self).issued() == old(self).issued(),
            final(self).cached() == old(self).cached(),
    {
        match self.magnetometer_id() {
            Ok(id) => {
                proof {
                    assert(self.issued().drop_last() =~= old(self).issued());
                }
                Ok(id == WHO_AM_I_M_VAL)
            },
            Err(e) => Err(e),
        }
    }

    /// Get one temperature measurement: a single two-byte burst read of the
    /// temperature register pair, reassembled as one little-endian signed
    /// value, returned unconverted. The cache is untouched.
    pub fn temperature(&mut self) -> (r: Result<Temperature, Error<CommE, PinE>>)
        ensures
            r matches Ok(t) ==> final(self).issued() == old(self).issued().push(
                Transaction::ReadAccelDouble { addr: OUT_TEMP_L_A, raw: t.raw },
            ),
            r is Err ==> final(self).issued() == old(self).issued(),
            final(self).cached() == old(self).cached(),
    {
        match self.iface.read_accel_double_register(OUT_TEMP_L_A) {
            Ok(raw) => Ok(Temperature { raw }),
            Err(e) => Err(e),
        }
    }

    /// What a successful `temperature_status` did: the enable write if and
    /// only if the cached enable field did not already read high, then one
    /// read of the auxiliary status register, whose byte the result wraps.
    pub open spec fn temp_status_ok_post(pre: Self, post: Self, raw: u8) -> bool {
        &&& post.temp_cfg_reg_a == pre.temp_cfg_reg_a.with_high_spec(TEMP_EN)
        &&& post.temp_cfg_reg_a.is_high_spec(TEMP_EN)
        &&& post.ctrl_reg1_a == pre.ctrl_reg1_a
        &&& post.ctrl_reg4_a == pre.ctrl_reg4_a
        &&& post.cfg_reg_a_m == pre.cfg_reg_a_m
        &&& post.cfg_reg_b_m == pre.cfg_reg_b_m
        &&& post.cfg_reg_c_m == pre.cfg_reg_c_m
        &&& post.issued() == pre.issued() + pre.temp_enable_writes() + seq![
            Transaction::ReadAccel { addr: STATUS_REG_AUX_A, value: raw },
        ]
    }

    /// What a failed `temperature_status` left behind: either the enable
    /// write failed and nothing changed, or the enable succeeded and only
    /// the status read failed.
    pub open spec fn temp_status_err_post(pre: Self, post: Self) -> bool {
        ||| Self::temp_enable_err_post(pre, post)
        ||| Self::temp_enable_ok_post(pre, post)
    }

    /// Temperature sensor status. Unlike the other status queries this one
    /// has a write side effect: it first guarantees the sensor is enabled,
    /// issuing the enable write on first use only, because the hardware
    /// reports undefined status bits while the sensor was never enabled.
    /// Then it reads the auxiliary status register.
    pub fn temperature_status(&mut self) -> (r: Result<TemperatureStatus, Error<CommE, PinE>>)
        ensures
            r matches Ok(st) ==> Self::temp_status_ok_post(*old(self), *final(self), st.raw),
            r is Err ==> Self::temp_status_err_post(*old(self), *final(self)),
    {
        self.enable_temperature_sensor()?;

        match self.iface.read_accel_register(STATUS_REG_AUX_A) {
            Ok(raw) => {
                proof {
                    assert(self.issued() =~= old(self).issued() + old(self).temp_enable_writes()
                        + seq![Transaction::ReadAccel { addr: STATUS_REG_AUX_A, value: raw }]);
                }
                Ok(TemperatureStatus::new(raw))
            },
            Err(e) => Err(e),
        }
    }

    /// Calling `init` twice in succession issues the same two writes both
    /// times — the second call recomputes them from a cache that already has
    /// block-data-update set, and setting the bit again changes nothing —
    /// and leaves block-data-update cached high in both registers after
    /// either call.
    pub proof fn lemma_init_twice_same_writes(s0: Self, s1: Self, s2: Self)
        requires
            Self::init_ok_post(s0, s1),
            Self::init_ok_post(s1, s2),
        ensures
            s1.init_writes() == s0.init_writes(),
            s2.issued() == s0.issued() + s0.init_writes() + s0.init_writes(),
            s1.ctrl_reg4_a.is_high_spec(ACCEL_BDU) && s1.cfg_reg_c_m.is_high_spec(MAG_BDU),
            s2.ctrl_reg4_a.is_high_spec(ACCEL_BDU) && s2.cfg_reg_c_m.is_high_spec(MAG_BDU),
    {
        lemma_with_high_idempotent(s0.ctrl_reg4_a, ACCEL_BDU);
        lemma_with_high_idempotent(s0.cfg_reg_c_m, MAG_BDU);
        lemma_or_reads_high(s0.ctrl_reg4_a.bits, ACCEL_BDU);
        lemma_or_reads_high(s0.cfg_reg_c_m.bits, MAG_BDU);
        lemma_or_reads_high(s1.ctrl_reg4_a.bits, ACCEL_BDU);
        lemma_or_reads_high(s1.cfg_reg_c_m.bits, MAG_BDU);
        assert(s1.init_writes() =~= s0.init_writes());
        assert(s2.issued() =~= s0.issued() + s0.init_writes() + s0.init_writes());
    }

    /// Across repeated successful `temperature_status` calls the enable
    /// write is issued exactly once: the first successful call leaves the
    /// enable field cached high, so every later call appends only its status
    /// read. When the field was high already at the first call, no enable
    /// write is issued at all.
    pub proof fn lemma_temp_enable_write_once(s0: Self, s1: Self, s2: Self, r1: u8, r2: u8)
        requires
            Self::temp_status_ok_post(s0, s1, r1),
            Self::temp_status_ok_post(s1, s2, r2),
        ensures
            s1.temp_enable_writes() == Seq::<Transaction>::empty(),
            s2.issued() == s0.issued() + s0.temp_enable_writes() + seq![
                Transaction::ReadAccel { addr: STATUS_REG_AUX_A, value: r1 },
            ] + seq![Transaction::ReadAccel { addr: STATUS_REG_AUX_A, value: r2 }],
            s0.temp_cfg_reg_a.is_high_spec(TEMP_EN) ==> s0.temp_enable_writes()
                == Seq::<Transaction>::empty(),
    {
        assert(s1.temp_enable_writes() =~= Seq::<Transaction>::empty());
        assert(s2.issued() =~= s0.issued() + s0.temp_enable_writes() + seq![
            Transaction::ReadAccel { addr: STATUS_REG_AUX_A, value: r1 },
        ] + seq![Transaction::ReadAccel { addr: STATUS_REG_AUX_A, value: r2 }]);
    }

    /// A failed enable write leaves the cached configuration unchanged, so a
    /// later successful attempt issues exactly the write the failed one
    /// attempted, as if the failure never happened: no partial-apply
    /// artifacts.
    pub proof fn lemma_failed_enable_no_artifacts(s0: Self, s1: Self, s2: Self)
        requires
            Self::temp_enable_err_post(s0, s1),
            Self::temp_enable_ok_post(s1, s2),
        ensures
            s1.temp_enable_writes() == s0.temp_enable_writes(),
            s2.issued() == s1.issued() + s0.temp_enable_writes(),
            s2.temp_cfg_reg_a == s0.temp_cfg_reg_a.with_high_spec(TEMP_EN),
    {
        assert(s1.temp_cfg_reg_a == s0.temp_cfg_reg_a);
    }

    /// An `init` attempt that failed before completing any write changed
    /// nothing: a successful retry issues exactly the writes a first call
    /// would have issued.
    pub proof fn lemma_failed_init_no_artifacts(s0: Self, s1: Self, s2: Self)
        requires
            Self::init_err_post(s0, s1),
            s1.issued() == s0.issued(),
            Self::init_ok_post(s1, s2),
        ensures
            s1.cached() == s0.cached(),
            s1.init_writes() == s0.init_writes(),
            s2.issued() == s0.issued() + s0.init_writes(),
    {
        assert(s0.issued().push(s0.init_writes()[0]).len() == s0.issued().len() + 1);
        assert(s1.cached() == s0.cached());
        assert(s1.init_writes() =~= s0.init_writes());
    }
}

} // verus!
