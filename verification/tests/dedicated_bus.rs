use lsm303agr::transport::{SelectPin, SpiTransport};
use lsm303agr::{Error, Lsm303agr};

/// Scripted dedicated-bus transport: records every completed transfer and
/// hands out prepared read responses, front first.
struct MockSpi {
    id: u32,
    writes: Vec<(u8, u8)>,
    reads: Vec<(u8, usize)>,
    responses: Vec<Vec<u8>>,
    fail_writes: usize,
}

impl MockSpi {
    fn new(responses: Vec<Vec<u8>>) -> MockSpi {
        MockSpi { id: 7, writes: Vec::new(), reads: Vec::new(), responses, fail_writes: 0 }
    }
}

impl SpiTransport for MockSpi {
    type BusError = u8;

    fn write_byte_pair(&mut self, first: u8, second: u8) -> Result<(), u8> {
        if self.fail_writes > 0 {
            self.fail_writes -= 1;
            return Err(7);
        }
        self.writes.push((first, second));
        Ok(())
    }

    fn write_then_read(&mut self, first: u8, count: usize) -> Result<Vec<u8>, u8> {
        if self.responses.is_empty() {
            return Err(9);
        }
        self.reads.push((first, count));
        let r = self.responses.remove(0);
        assert_eq!(r.len(), count, "scripted response has the wrong length");
        Ok(r)
    }
}

/// Recording chip-select line: `true` for each assertion (driven low),
/// `false` for each release (driven high).
struct MockPin {
    id: u32,
    events: Vec<bool>,
    fail: bool,
}

impl MockPin {
    fn new(id: u32) -> MockPin {
        MockPin { id, events: Vec::new(), fail: false }
    }
}

impl SelectPin for MockPin {
    type PinError = i8;

    fn set_low(&mut self) -> Result<(), i8> {
        if self.fail {
            return Err(-1);
        }
        self.events.push(true);
        Ok(())
    }

    fn set_high(&mut self) -> Result<(), i8> {
        if self.fail {
            return Err(-1);
        }
        self.events.push(false);
        Ok(())
    }
}

#[test]
fn spi_init_frames_writes_with_top_bit_clear() {
    let mut dev = Lsm303agr::new_with_spi(MockSpi::new(vec![]), MockPin::new(1), MockPin::new(2));
    assert!(dev.init().is_ok());
    let (spi, cs_xl, cs_mag) = dev.destroy();
    assert_eq!(spi.writes, vec![(0x23, 0x80), (0x22, 0x10)]);
    assert_eq!(cs_xl.events, vec![true, false]);
    assert_eq!(cs_mag.events, vec![true, false]);
}

#[test]
fn spi_single_read_sets_only_the_read_bit() {
    let mut dev = Lsm303agr::new_with_spi(
        MockSpi::new(vec![vec![0x33]]),
        MockPin::new(1),
        MockPin::new(2),
    );
    assert_eq!(dev.accelerometer_is_detected(), Ok(true));
    let (spi, cs_xl, cs_mag) = dev.destroy();
    assert_eq!(spi.reads, vec![(0x8F, 1)]);
    assert_eq!(cs_xl.events, vec![true, false]);
    assert_eq!(cs_mag.events, vec![]);
}

#[test]
fn spi_mag_read_uses_the_mag_select_line() {
    let mut dev = Lsm303agr::new_with_spi(
        MockSpi::new(vec![vec![0x40]]),
        MockPin::new(1),
        MockPin::new(2),
    );
    assert_eq!(dev.magnetometer_id(), Ok(0x40));
    let (spi, cs_xl, cs_mag) = dev.destroy();
    assert_eq!(spi.reads, vec![(0x8F, 1)]);
    assert_eq!(cs_xl.events, vec![]);
    assert_eq!(cs_mag.events, vec![true, false]);
}

#[test]
fn spi_burst_read_sets_read_and_multi_bits() {
    let response = vec![vec![0x01, 0x00, 0x02, 0x00, 0x03, 0x00]];
    let mut dev = Lsm303agr::new_with_spi(MockSpi::new(response), MockPin::new(1), MockPin::new(2));
    let a = match dev.acceleration() {
        Ok(a) => a,
        Err(_) => panic!("expected a measurement"),
    };
    assert_eq!((a.x, a.y, a.z), (1, 2, 3));
    let (spi, _, _) = dev.destroy();
    assert_eq!(spi.reads, vec![(0xE8, 6)]);
}

#[test]
fn spi_temperature_read_sets_read_and_multi_bits() {
    let mut dev = Lsm303agr::new_with_spi(
        MockSpi::new(vec![vec![0x34, 0x12]]),
        MockPin::new(1),
        MockPin::new(2),
    );
    let t = match dev.temperature() {
        Ok(t) => t,
        Err(_) => panic!("expected a measurement"),
    };
    assert_eq!(t.raw, 0x1234);
    let (spi, _, _) = dev.destroy();
    assert_eq!(spi.reads, vec![(0xCC, 2)]);
}

#[test]
fn spi_select_failure_gives_pin_error_and_no_transfer() {
    let mut pin = MockPin::new(1);
    pin.fail = true;
    let mut dev = Lsm303agr::new_with_spi(MockSpi::new(vec![]), pin, MockPin::new(2));
    assert!(matches!(dev.init(), Err(Error::Pin(-1))));
    assert_eq!(dev.ctrl_reg4_a.bits, 0x00);
    assert_eq!(dev.cfg_reg_c_m.bits, 0x00);
    let (spi, _, _) = dev.destroy();
    assert_eq!(spi.writes, vec![]);
}

#[test]
fn spi_transfer_failure_gives_comm_error_and_cache_unchanged() {
    let mut spi = MockSpi::new(vec![]);
    spi.fail_writes = 1;
    let mut dev = Lsm303agr::new_with_spi(spi, MockPin::new(1), MockPin::new(2));
    assert!(matches!(dev.init(), Err(Error::Comm(7))));
    assert_eq!(dev.ctrl_reg4_a.bits, 0x00);
    assert!(dev.init().is_ok());
    assert_eq!(dev.ctrl_reg4_a.bits, 0x80);
    assert_eq!(dev.cfg_reg_c_m.bits, 0x10);
    let (spi, cs_xl, _) = dev.destroy();
    assert_eq!(spi.writes, vec![(0x23, 0x80), (0x22, 0x10)]);
    assert_eq!(cs_xl.events, vec![true, false, true, false]);
}

#[test]
fn destroy_returns_the_objects_passed_in() {
    let mut spi = MockSpi::new(vec![]);
    spi.id = 99;
    let dev = Lsm303agr::new_with_spi(spi, MockPin::new(11), MockPin::new(22));
    let (spi, cs_xl, cs_mag) = dev.destroy();
    assert_eq!(spi.id, 99);
    assert_eq!(cs_xl.id, 11);
    assert_eq!(cs_mag.id, 22);
}
