use lm75::{Address, Error, FaultQueue, I2cBus, Lm75, OsMode, OsPolarity, Resolution};

/// A bus double: records every write and keeps register contents, so that
/// what is written can be read back.
#[derive(Debug, Default)]
struct FakeBus {
    writes: Vec<(u8, Vec<u8>)>,
    reads: usize,
    registers: [[u8; 2]; 5],
    fail: bool,
}

#[derive(Debug, PartialEq)]
struct BusFault;

impl I2cBus for FakeBus {
    type Error = BusFault;

    fn write(&mut self, address: u8, bytes: &[u8]) -> Result<(), BusFault> {
        if self.fail {
            return Err(BusFault);
        }
        self.writes.push((address, bytes.to_vec()));
        let reg = bytes[0] as usize;
        for (i, b) in bytes[1..].iter().enumerate() {
            self.registers[reg][i] = *b;
        }
        Ok(())
    }

    fn write_read(&mut self, _address: u8, bytes: &[u8], buffer: &mut [u8]) -> Result<(), BusFault> {
        if self.fail {
            return Err(BusFault);
        }
        self.reads += 1;
        let reg = bytes[0] as usize;
        for (i, b) in buffer.iter_mut().enumerate() {
            *b = self.registers[reg][i];
        }
        Ok(())
    }
}

fn sensor() -> Lm75<FakeBus> {
    Lm75::new(FakeBus::default(), Address::default())
}

#[test]
fn new_does_not_touch_the_bus() {
    let dev = sensor();
    assert_eq!(dev.config().bits(), 0);
    assert_eq!(dev.resolution(), Resolution::Mask9bit);
    let bus = dev.destroy();
    assert!(bus.writes.is_empty());
    assert_eq!(bus.reads, 0);
}

#[test]
fn set_os_temperature_reads_back() {
    let mut dev = sensor();
    dev.set_os_temperature(50_000).unwrap();
    assert_eq!(dev.read_os_temperature().unwrap(), 50_000);
    let bus = dev.destroy();
    assert_eq!(bus.writes, vec![(0x48, vec![0x03, 0x32, 0x00])]);
}

#[test]
fn set_hysteresis_temperature_writes_thyst() {
    let mut dev = sensor();
    dev.set_hysteresis_temperature(40_000).unwrap();
    assert_eq!(dev.read_hysteresis_temperature().unwrap(), 40_000);
    let bus = dev.destroy();
    assert_eq!(bus.writes, vec![(0x48, vec![0x02, 0x28, 0x00])]);
}

#[test]
fn read_temperature_decodes_at_the_device_resolution() {
    let mut bus = FakeBus::default();
    bus.registers[0] = [0x19, 0x3F];
    let mut dev = Lm75::new(bus, Address::from((false, false, true)));
    assert_eq!(dev.read_temperature().unwrap(), 25_000);
    let mut bus = FakeBus::default();
    bus.registers[0] = [0x19, 0x3F];
    let mut dev = Lm75::new_pct2075(bus, Address::default());
    assert_eq!(dev.read_temperature().unwrap(), 25_125);
}

#[test]
fn disable_then_enable_restores_the_shutdown_bit() {
    let mut dev = sensor();
    dev.set_os_mode(OsMode::Interrupt).unwrap();
    dev.set_os_polarity(OsPolarity::ActiveHigh).unwrap();
    dev.set_fault_queue(FaultQueue::_4).unwrap();
    let before = dev.config().bits();
    assert_eq!(before, 0b1_0110);
    dev.disable().unwrap();
    assert_eq!(dev.config().bits(), before | 1);
    dev.enable().unwrap();
    assert_eq!(dev.config().bits(), before);
    let bus = dev.destroy();
    let last: Vec<Vec<u8>> = bus.writes[3..].iter().map(|w| w.1.clone()).collect();
    assert_eq!(last, vec![vec![0x01, 0b1_0111], vec![0x01, 0b1_0110]]);
}

#[test]
fn configuration_setters_touch_only_their_bits() {
    let mut dev = sensor();
    dev.set_fault_queue(FaultQueue::_6).unwrap();
    assert_eq!(dev.config().bits(), 0b1_1000);
    dev.set_fault_queue(FaultQueue::_2).unwrap();
    assert_eq!(dev.config().bits(), 0b0_1000);
    dev.set_os_mode(OsMode::Interrupt).unwrap();
    assert_eq!(dev.config().bits(), 0b0_1010);
    dev.set_os_polarity(OsPolarity::ActiveHigh).unwrap();
    assert_eq!(dev.config().bits(), 0b0_1110);
    dev.set_os_mode(OsMode::Comparator).unwrap();
    assert_eq!(dev.config().bits(), 0b0_1100);
    dev.set_os_polarity(OsPolarity::ActiveLow).unwrap();
    assert_eq!(dev.config().bits(), 0b0_1000);
    dev.set_fault_queue(FaultQueue::_1).unwrap();
    assert_eq!(dev.config().bits(), 0);
}

#[test]
fn failed_write_keeps_the_shadow_config() {
    let mut bus = FakeBus::default();
    bus.fail = true;
    let mut dev = Lm75::new(bus, Address::default());
    assert!(matches!(dev.disable(), Err(Error::I2C(BusFault))));
    assert_eq!(dev.config().bits(), 0);
    assert!(matches!(dev.set_fault_queue(FaultQueue::_6), Err(Error::I2C(BusFault))));
    assert_eq!(dev.config().bits(), 0);
    assert!(matches!(dev.read_temperature(), Err(Error::I2C(BusFault))));
    assert!(matches!(dev.set_os_temperature(1_000), Err(Error::I2C(BusFault))));
}

#[test]
fn sample_rate_without_register_is_a_no_op() {
    let mut dev = sensor();
    assert!(dev.set_sample_rate(5).is_ok());
    assert_eq!(dev.sample_rate(), None);
    let bus = dev.destroy();
    assert!(bus.writes.is_empty());
    assert_eq!(bus.reads, 0);
}

#[test]
fn sample_rate_read_without_register_is_rejected() {
    let mut dev = sensor();
    assert!(matches!(dev.read_sample_rate(), Err(Error::InvalidRegister)));
    assert_eq!(dev.destroy().reads, 0);
}

#[test]
fn sample_rate_on_extended_device() {
    let mut dev = Lm75::new_pct2075(FakeBus::default(), Address::from(0x37));
    assert_eq!(dev.sample_rate(), Some(1));
    dev.set_sample_rate(6).unwrap();
    assert_eq!(dev.sample_rate(), Some(6));
    assert_eq!(dev.read_sample_rate().unwrap(), 6);
    let bus = dev.destroy();
    assert_eq!(bus.writes, vec![(0x37, vec![0x04, 6])]);
}

#[test]
fn eleven_bit_thresholds() {
    let mut dev = Lm75::new_with_resolution(FakeBus::default(), Address::default(), Resolution::Mask11bit);
    dev.set_os_temperature(-10_125).unwrap();
    assert_eq!(dev.read_os_temperature().unwrap(), -10_125);
    let bus = dev.destroy();
    assert_eq!(bus.writes, vec![(0x48, vec![0x03, 0xF5, 0xE0])]);
}

#[test]
fn default_driver_takes_every_part_at_its_default() {
    let mut dev: Lm75<FakeBus> = Lm75::default();
    assert_eq!(dev.config().bits(), 0);
    assert_eq!(dev.resolution(), Resolution::Mask9bit);
    assert_eq!(dev.sample_rate(), Some(1));
    dev.set_sample_rate(3).unwrap();
    let bus = dev.destroy();
    assert_eq!(bus.writes, vec![(0x00, vec![0x04, 3])]);
}
