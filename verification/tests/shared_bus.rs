use lsm303agr::transport::I2cTransport;
use lsm303agr::{Config, Error, Lsm303agr};

/// Scripted shared-bus transport: records every completed transaction and
/// hands out prepared read responses, front first.
struct MockI2c {
    id: u32,
    writes: Vec<(u8, u8, u8)>,
    reads: Vec<(u8, u8, usize)>,
    responses: Vec<Vec<u8>>,
    fail_writes: usize,
}

impl MockI2c {
    fn new(responses: Vec<Vec<u8>>) -> MockI2c {
        MockI2c { id: 42, writes: Vec::new(), reads: Vec::new(), responses, fail_writes: 0 }
    }
}

impl I2cTransport for MockI2c {
    type BusError = u8;

    fn write_byte_pair(&mut self, dev: u8, first: u8, second: u8) -> Result<(), u8> {
        if self.fail_writes > 0 {
            self.fail_writes -= 1;
            return Err(7);
        }
        self.writes.push((dev, first, second));
        Ok(())
    }

    fn write_then_read(&mut self, dev: u8, first: u8, count: usize) -> Result<Vec<u8>, u8> {
        if self.responses.is_empty() {
            return Err(9);
        }
        self.reads.push((dev, first, count));
        let r = self.responses.remove(0);
        assert_eq!(r.len(), count, "scripted response has the wrong length");
        Ok(r)
    }
}

#[test]
fn init_writes_both_block_data_update_bits() {
    let mut dev = Lsm303agr::new_with_i2c(MockI2c::new(vec![]));
    assert!(dev.init().is_ok());
    let i2c = dev.destroy();
    assert_eq!(i2c.writes, vec![(0x19, 0x23, 0x80), (0x19, 0x62, 0x10)]);
}

#[test]
fn init_twice_issues_the_same_two_writes_again() {
    let mut dev = Lsm303agr::new_with_i2c(MockI2c::new(vec![]));
    assert!(dev.init().is_ok());
    assert!(dev.init().is_ok());
    let i2c = dev.destroy();
    assert_eq!(
        i2c.writes,
        vec![(0x19, 0x23, 0x80), (0x19, 0x62, 0x10), (0x19, 0x23, 0x80), (0x19, 0x62, 0x10)]
    );
}

#[test]
fn temperature_status_enables_the_sensor_once() {
    let responses = vec![vec![0x04], vec![0x00], vec![0x04]];
    let mut dev = Lsm303agr::new_with_i2c(MockI2c::new(responses));
    for _ in 0..3 {
        assert!(dev.temperature_status().is_ok());
    }
    let i2c = dev.destroy();
    assert_eq!(i2c.writes, vec![(0x19, 0x1F, 0xC0)]);
    assert_eq!(i2c.reads, vec![(0x19, 0x07, 1), (0x19, 0x07, 1), (0x19, 0x07, 1)]);
}

#[test]
fn temperature_status_writes_nothing_when_already_enabled() {
    let mut dev = Lsm303agr::new_with_i2c(MockI2c::new(vec![vec![0x44]]));
    dev.temp_cfg_reg_a = Config { bits: 0xC0 };
    let st = match dev.temperature_status() {
        Ok(st) => st,
        Err(_) => panic!("expected a status"),
    };
    assert!(st.new_data());
    assert!(st.overrun());
    let i2c = dev.destroy();
    assert_eq!(i2c.writes, vec![]);
    assert_eq!(i2c.reads, vec![(0x19, 0x07, 1)]);
}

#[test]
fn failed_write_leaves_cache_unchanged_and_retry_is_clean() {
    let mut mock = MockI2c::new(vec![]);
    mock.fail_writes = 1;
    let mut dev = Lsm303agr::new_with_i2c(mock);
    let r = dev.init();
    assert!(matches!(r, Err(Error::Comm(7))));
    assert_eq!(dev.ctrl_reg4_a.bits, 0x00);
    assert_eq!(dev.cfg_reg_c_m.bits, 0x00);
    assert!(dev.init().is_ok());
    assert_eq!(dev.ctrl_reg4_a.bits, 0x80);
    assert_eq!(dev.cfg_reg_c_m.bits, 0x10);
    let i2c = dev.destroy();
    assert_eq!(i2c.writes, vec![(0x19, 0x23, 0x80), (0x19, 0x62, 0x10)]);
}

#[test]
fn failed_enable_write_leaves_cache_unchanged() {
    let mut mock = MockI2c::new(vec![vec![0x04]]);
    mock.fail_writes = 1;
    let mut dev = Lsm303agr::new_with_i2c(mock);
    assert!(matches!(dev.temperature_status(), Err(Error::Comm(7))));
    assert_eq!(dev.temp_cfg_reg_a.bits, 0x00);
    assert!(dev.temperature_status().is_ok());
    assert_eq!(dev.temp_cfg_reg_a.bits, 0xC0);
    let i2c = dev.destroy();
    assert_eq!(i2c.writes, vec![(0x19, 0x1F, 0xC0)]);
}

#[test]
fn accelerometer_is_detected_iff_id_matches() {
    let mut dev = Lsm303agr::new_with_i2c(MockI2c::new(vec![vec![0x33], vec![0x34]]));
    assert_eq!(dev.accelerometer_id(), Ok(0x33));
    match dev.accelerometer_id() {
        Ok(id) => assert_eq!(id, 0x34),
        Err(_) => panic!("expected an id"),
    }
    let mut dev2 = Lsm303agr::new_with_i2c(MockI2c::new(vec![vec![0x33], vec![0x34]]));
    assert_eq!(dev2.accelerometer_is_detected(), Ok(true));
    assert_eq!(dev2.accelerometer_is_detected(), Ok(false));
    let i2c = dev2.destroy();
    assert_eq!(i2c.reads, vec![(0x19, 0x0F, 1), (0x19, 0x0F, 1)]);
}

#[test]
fn magnetometer_is_detected_iff_id_matches() {
    let mut dev = Lsm303agr::new_with_i2c(MockI2c::new(vec![vec![0x40], vec![0x41]]));
    assert_eq!(dev.magnetometer_is_detected(), Ok(true));
    assert_eq!(dev.magnetometer_is_detected(), Ok(false));
    let i2c = dev.destroy();
    assert_eq!(i2c.reads, vec![(0x19, 0x4F, 1), (0x19, 0x4F, 1)]);
}

#[test]
fn acceleration_burst_decodes_little_endian_axes() {
    let response = vec![vec![0x01, 0x00, 0x02, 0x00, 0x03, 0x00]];
    let mut dev = Lsm303agr::new_with_i2c(MockI2c::new(response));
    let a = match dev.acceleration() {
        Ok(a) => a,
        Err(_) => panic!("expected a measurement"),
    };
    assert_eq!(a.x, 1);
    assert_eq!(a.y, 2);
    assert_eq!(a.z, 3);
    assert_eq!(a.mode, lsm303agr::AccelMode::Normal);
    assert_eq!(a.scale, lsm303agr::AccelScale::G2);
    let i2c = dev.destroy();
    assert_eq!(i2c.reads, vec![(0x19, 0xA8, 6)]);
}

#[test]
fn acceleration_decodes_negative_counts() {
    let response = vec![vec![0xFF, 0xFF, 0x00, 0x80, 0xFE, 0xFF]];
    let mut dev = Lsm303agr::new_with_i2c(MockI2c::new(response));
    let a = match dev.acceleration() {
        Ok(a) => a,
        Err(_) => panic!("expected a measurement"),
    };
    assert_eq!(a.x, -1);
    assert_eq!(a.y, -32768);
    assert_eq!(a.z, -2);
}

#[test]
fn temperature_burst_decodes_signed_little_endian() {
    let mut dev = Lsm303agr::new_with_i2c(MockI2c::new(vec![vec![0x34, 0x12]]));
    let t = match dev.temperature() {
        Ok(t) => t,
        Err(_) => panic!("expected a measurement"),
    };
    assert_eq!(t.raw, 0x1234);
    let i2c = dev.destroy();
    assert_eq!(i2c.reads, vec![(0x19, 0x8C, 2)]);
}

#[test]
fn status_queries_read_the_right_registers() {
    let mut dev = Lsm303agr::new_with_i2c(MockI2c::new(vec![vec![0x08], vec![0x88]]));
    let accel = match dev.accel_status() {
        Ok(st) => st,
        Err(_) => panic!("expected a status"),
    };
    assert!(accel.xyz_new_data());
    assert!(!accel.xyz_overrun());
    let mag = match dev.mag_status() {
        Ok(st) => st,
        Err(_) => panic!("expected a status"),
    };
    assert!(mag.xyz_new_data());
    assert!(mag.xyz_overrun());
    let i2c = dev.destroy();
    assert_eq!(i2c.reads, vec![(0x19, 0x27, 1), (0x19, 0x67, 1)]);
}

#[test]
fn read_failure_propagates_as_comm_error() {
    let mut dev = Lsm303agr::new_with_i2c(MockI2c::new(vec![]));
    assert!(matches!(dev.accel_status(), Err(Error::Comm(9))));
    assert!(matches!(dev.acceleration(), Err(Error::Comm(9))));
}

#[test]
fn destroy_returns_the_bus_object_passed_in() {
    let mut mock = MockI2c::new(vec![]);
    mock.id = 1234;
    let dev = Lsm303agr::new_with_i2c(mock);
    let i2c = dev.destroy();
    assert_eq!(i2c.id, 1234);
    assert_eq!(i2c.writes, vec![]);
}
