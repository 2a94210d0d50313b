//! The driver: the shadow configuration and the bus transactions that read
//! and write the device's registers.

use vstd::prelude::*;
use crate::address::Address;
use crate::codec::{
    decode_temperature, decoded_millis, encode_temperature, encoded_bytes, Resolution,
};
use crate::config::{
    fault_queue_field, Config, FaultQueue, OsMode, OsPolarity, SampleRate, FAULT_QUEUE0,
    FAULT_QUEUE1, OS_MODE, OS_POLARITY, SHUTDOWN,
};

verus! {

/// Pointer of the temperature register (two bytes, read-only).
pub const TEMPERATURE: u8 = 0x00;

/// Pointer of the configuration register (one byte).
pub const CONFIGURATION: u8 = 0x01;

/// Pointer of the hysteresis threshold register (two bytes).
pub const T_HYST: u8 = 0x02;

/// Pointer of the overtemperature threshold register (two bytes).
pub const T_OS: u8 = 0x03;

/// Pointer of the sample-rate register of the extended variants (one byte).
pub const T_IDLE: u8 = 0x04;

/// All possible errors of the driver.
#[derive(Debug)]
pub enum Error<E> {
    /// I2C bus error.
    I2C(E),
    /// Invalid input data.
    InvalidInputData,
    /// Register is not implemented by the device.
    InvalidRegister,
}

/// A blocking I2C bus, implemented by the user for the platform at hand.
pub trait I2cBus {
    /// The bus error.
    type Error;

    /// Writes `bytes` to the device at `address`.
    fn write(&mut self, address: u8, bytes: &[u8]) -> Result<(), Self::Error>;

    /// Writes `bytes` to the device at `address`, then reads `buffer.len()`
    /// bytes back into `buffer`.
    fn write_read(&mut self, address: u8, bytes: &[u8], buffer: &mut [u8]) -> Result<
        (),
        Self::Error,
    >;
}

/// The configuration byte that `enable` writes: shutdown bit clear.
pub open spec fn enabled_config(c: u8) -> u8 {
    c & !SHUTDOWN
}

/// The configuration byte that `disable` writes: shutdown bit set.
pub open spec fn disabled_config(c: u8) -> u8 {
    c | SHUTDOWN
}

/// The configuration byte with the fault queue field set to `q`.
pub open spec fn fault_queue_config(c: u8, q: FaultQueue) -> u8 {
    (c & !(FAULT_QUEUE1 | FAULT_QUEUE0)) | fault_queue_field(q)
}

/// The configuration byte with the OS mode bit set for `m`.
pub open spec fn os_mode_config(c: u8, m: OsMode) -> u8 {
    match m {
        OsMode::Comparator => c & !OS_MODE,
        OsMode::Interrupt => c | OS_MODE,
    }
}

/// The configuration byte with the OS polarity bit set for `p`.
pub open spec fn os_polarity_config(c: u8, p: OsPolarity) -> u8 {
    match p {
        OsPolarity::ActiveLow => c & !OS_POLARITY,
        OsPolarity::ActiveHigh => c | OS_POLARITY,
    }
}

/// A message handed to the bus.
pub enum BusMessage {
    /// `bytes` written to the device at `address`.
    Write { address: u8, bytes: Seq<u8> },
    /// `bytes` written to the device at `address`, then `read` read back.
    WriteRead { address: u8, bytes: Seq<u8>, read: Seq<u8> },
}

/// Whether `m` is a write of exactly `bytes` to the device at `address`.
pub open spec fn is_write(m: Option<BusMessage>, address: u8, bytes: Seq<u8>) -> bool {
    m == Some(BusMessage::Write { address, bytes })
}

/// Whether `m` writes the pointer `register` to the device at `address` and
/// reads `len` bytes back.
pub open spec fn is_register_read(m: Option<BusMessage>, address: u8, register: u8, len: nat) -> bool {
    match m {
        Some(BusMessage::WriteRead { address: a, bytes, read }) => a == address && bytes == seq![
            register,
        ] && read.len() == len,
        _ => false,
    }
}

/// The bytes that `m` read back; empty for a plain write.
pub open spec fn read_back(m: Option<BusMessage>) -> Seq<u8> {
    match m {
        Some(BusMessage::WriteRead { read, .. }) => read,
        _ => Seq::empty(),
    }
}

/// LM75 device driver.
///
/// It has no `Debug`: the record of the last bus message is ghost state, which
/// has none.
pub struct Lm75<I2C> {
    /// The I2C bus.
    i2c: I2C,
    /// The device's bus address.
    address: u8,
    /// Last configuration byte written to the device.
    config: Config,
    /// Resolution of the device's temperature registers.
    resolution: Resolution,
    /// Sample-rate register contents.
    sample_rate: SampleRate,
    /// The last message handed to the bus.
    last_message: Ghost<Option<BusMessage>>,
}

impl<I2C> Lm75<I2C> {
    /// The bus.
    pub closed spec fn bus_spec(&self) -> I2C {
        self.i2c
    }

    /// The last message handed to the bus, `None` before the first.
    pub closed spec fn last_message(&self) -> Option<BusMessage> {
        self.last_message@
    }

    /// The device's bus address.
    pub closed spec fn address_spec(&self) -> u8 {
        self.address
    }

    /// The shadow configuration byte.
    pub closed spec fn config_spec(&self) -> u8 {
        self.config@
    }

    /// The device's resolution.
    pub closed spec fn resolution_spec(&self) -> Resolution {
        self.resolution
    }

    /// The shadow sample-rate register, `None` where the device has none.
    pub closed spec fn sample_rate_spec(&self) -> Option<u8> {
        self.sample_rate@
    }

    /// The driver state apart from the bus.
    pub open spec fn same_state(&self, other: &Self) -> bool {
        &&& self.address_spec() == other.address_spec()
        &&& self.config_spec() == other.config_spec()
        &&& self.resolution_spec() == other.resolution_spec()
        &&& self.sample_rate_spec() == other.sample_rate_spec()
    }

    /// Creates a driver for a nine-bit device without a sample-rate register,
    /// in its power-up configuration. Does not touch the bus.
    pub fn new(i2c: I2C, address: Address) -> (r: Self)
        ensures
            r.bus_spec() == i2c,
            r.last_message() == None::<BusMessage>,
            r.address_spec() == address@,
            r.config_spec() == 0,
            r.resolution_spec() == Resolution::Mask9bit,
            r.sample_rate_spec() == None::<u8>,
    {
        Lm75 {
            i2c,
            address: address.value(),
            config: Config::default(),
            resolution: Resolution::Mask9bit,
            sample_rate: SampleRate::none(),
            last_message: Ghost(None),
        }
    }

    /// Creates a driver for an eleven-bit device with a sample-rate register
    /// (PCT2075), in its power-up configuration. Does not touch the bus.
    pub fn new_pct2075(i2c: I2C, address: Address) -> (r: Self)
        ensures
            r.bus_spec() == i2c,
            r.last_message() == None::<BusMessage>,
            r.address_spec() == address@,
            r.config_spec() == 0,
            r.resolution_spec() == Resolution::Mask11bit,
            r.sample_rate_spec() == Some(1u8),
    {
        Lm75 {
            i2c,
            address: address.value(),
            config: Config::default(),
            resolution: Resolution::Mask11bit,
            sample_rate: SampleRate::default(),
            last_message: Ghost(None),
        }
    }

    /// Creates a driver for a device of the given resolution, without a
    /// sample-rate register, in its power-up configuration.
    pub fn new_with_resolution(i2c: I2C, address: Address, resolution: Resolution) -> (r: Self)
        ensures
            r.bus_spec() == i2c,
            r.last_message() == None::<BusMessage>,
            r.address_spec() == address@,
            r.config_spec() == 0,
            r.resolution_spec() == resolution,
            r.sample_rate_spec() == None::<u8>,
    {
        Lm75 {
            i2c,
            address: address.value(),
            config: Config::default(),
            resolution,
            sample_rate: SampleRate::none(),
            last_message: Ghost(None),
        }
    }

    /// Gives the bus back.
    pub fn destroy(self) -> (r: I2C)
        ensures
            r == self.bus_spec(),
    {
        self.i2c
    }

    /// The device's resolution.
    pub fn resolution(&self) -> (r: Resolution)
        ensures
            r == self.resolution_spec(),
    {
        self.resolution
    }

    /// The shadow configuration: the last byte written to the device.
    pub fn config(&self) -> (r: Config)
        ensures
            r@ == self.config_spec(),
    {
        self.config
    }

    /// The shadow sample-rate register, `None` where the device has none.
    pub fn sample_rate(&self) -> (r: Option<u8>)
        ensures
            r == self.sample_rate_spec(),
    {
        self.sample_rate.bits()
    }
}

impl<I2C: Default> Default for Lm75<I2C> {
    /// Every part at its own default: the bus's default value, address zero,
    /// the power-up configuration, nine bits, and a sample-rate register at
    /// its power-up value.
    fn default() -> (r: Self)
        ensures
            r.last_message() == None::<BusMessage>,
            r.address_spec() == 0,
            r.config_spec() == 0,
            r.resolution_spec() == Resolution::Mask9bit,
            r.sample_rate_spec() == Some(1u8),
    {
        Lm75 {
            i2c: I2C::default(),
            address: 0,
            config: Config::default(),
            resolution: Resolution::default(),
            sample_rate: SampleRate::default(),
            last_message: Ghost(None),
        }
    }
}

impl<I2C: I2cBus> Lm75<I2C> {
    /// Writes `config` to the configuration register; the shadow takes the
    /// new value only once the write succeeded.
    fn write_config(&mut self, config: Config) -> (r: Result<(), Error<I2C::Error>>)
        ensures
            final(self).address_spec() == old(self).address_spec(),
            final(self).resolution_spec() == old(self).resolution_spec(),
            final(self).sample_rate_spec() == old(self).sample_rate_spec(),
            is_write(final(self).last_message(), old(self).address_spec(), seq![CONFIGURATION, config@]),
            r is Ok ==> final(self).config_spec() == config@,
            r is Err ==> final(self).config_spec() == old(self).config_spec(),
            r is Ok || r is Err && r->Err_0 is I2C,
    {
        let bytes: [u8; 2] = [CONFIGURATION, config.bits()];
        let result = self.i2c.write(self.address, &bytes);
        self.last_message = Ghost(Some(BusMessage::Write { address: self.address, bytes: bytes@ }));
        assert(bytes@ =~= seq![CONFIGURATION, config@]);
        match result {
            Ok(()) => {
                self.config = config;
                Ok(())
            },
            Err(e) => Err(Error::I2C(e)),
        }
    }

    /// Writes a temperature register.
    fn write_temperature(&mut self, register: u8, millicelsius: i32) -> (r: Result<(), Error<I2C::Error>>)
        ensures
            final(self).same_state(old(self)),
            is_write(
                final(self).last_message(),
                old(self).address_spec(),
                seq![
                    register,
                    encoded_bytes(millicelsius as int, old(self).resolution_spec()).0,
                    encoded_bytes(millicelsius as int, old(self).resolution_spec()).1,
                ],
            ),
            r is Ok || r is Err && r->Err_0 is I2C,
    {
        let (msb, lsb) = encode_temperature(millicelsius, self.resolution);
        let bytes: [u8; 3] = [register, msb, lsb];
        let result = self.i2c.write(self.address, &bytes);
        self.last_message = Ghost(Some(BusMessage::Write { address: self.address, bytes: bytes@ }));
        assert(bytes@ =~= seq![register, msb, lsb]);
        match result {
            Ok(()) => Ok(()),
            Err(e) => Err(Error::I2C(e)),
        }
    }

    /// Reads a temperature register, in millidegrees.
    fn read_temperature_register(&mut self, register: u8) -> (r: Result<i32, Error<I2C::Error>>)
        ensures
            final(self).same_state(old(self)),
            is_register_read(final(self).last_message(), old(self).address_spec(), register, 2),
            r is Ok ==> r->Ok_0 as int == decoded_millis(
                read_back(final(self).last_message())[0],
                read_back(final(self).last_message())[1],
                old(self).resolution_spec(),
            ),
            r is Ok || r is Err && r->Err_0 is I2C,
    {
        let mut data: [u8; 2] = [0, 0];
        let pointer: [u8; 1] = [register];
        let result = self.i2c.write_read(self.address, &pointer, &mut data);
        self.last_message = Ghost(
            Some(BusMessage::WriteRead { address: self.address, bytes: pointer@, read: data@ }),
        );
        assert(pointer@ =~= seq![register]);
        match result {
            Ok(()) => {
                let t: i32 = decode_temperature(data[0], data[1], self.resolution);
                Ok(t)
            },
            Err(e) => Err(Error::I2C(e)),
        }
    }

    /// Enables the sensor: clears the shutdown bit.
    pub fn enable(&mut self) -> (r: Result<(), Error<I2C::Error>>)
        ensures
            final(self).address_spec() == old(self).address_spec(),
            final(self).resolution_spec() == old(self).resolution_spec(),
            final(self).sample_rate_spec() == old(self).sample_rate_spec(),
            r is Ok ==> final(self).config_spec() == enabled_config(old(self).config_spec()),
            is_write(
                final(self).last_message(),
                old(self).address_spec(),
                seq![CONFIGURATION, enabled_config(old(self).config_spec())],
            ),
            r is Err ==> final(self).config_spec() == old(self).config_spec(),
            r is Ok || r is Err && r->Err_0 is I2C,
    {
        let config = self.config.with_low(SHUTDOWN);
        self.write_config(config)
    }

    /// Disables the sensor (shutdown): sets the shutdown bit.
    pub fn disable(&mut self) -> (r: Result<(), Error<I2C::Error>>)
        ensures
            final(self).address_spec() == old(self).address_spec(),
            final(self).resolution_spec() == old(self).resolution_spec(),
            final(self).sample_rate_spec() == old(self).sample_rate_spec(),
            r is Ok ==> final(self).config_spec() == disabled_config(old(self).config_spec()),
            is_write(
                final(self).last_message(),
                old(self).address_spec(),
                seq![CONFIGURATION, disabled_config(old(self).config_spec())],
            ),
            r is Err ==> final(self).config_spec() == old(self).config_spec(),
            r is Ok || r is Err && r->Err_0 is I2C,
    {
        let config = self.config.with_high(SHUTDOWN);
        self.write_config(config)
    }

    /// Sets the fault queue: the number of consecutive faults that trigger
    /// the OS condition.
    pub fn set_fault_queue(&mut self, fq: FaultQueue) -> (r: Result<(), Error<I2C::Error>>)
        ensures
            final(self).address_spec() == old(self).address_spec(),
            final(self).resolution_spec() == old(self).resolution_spec(),
            final(self).sample_rate_spec() == old(self).sample_rate_spec(),
            r is Ok ==> final(self).config_spec() == fault_queue_config(old(self).config_spec(), fq),
            is_write(
                final(self).last_message(),
                old(self).address_spec(),
                seq![CONFIGURATION, fault_queue_config(old(self).config_spec(), fq)],
            ),
            r is Err ==> final(self).config_spec() == old(self).config_spec(),
            r is Ok || r is Err && r->Err_0 is I2C,
    {
        let config = self.config.with_low(FAULT_QUEUE1 | FAULT_QUEUE0).with_high(fq.field());
        self.write_config(config)
    }

    /// Sets the OS operation mode.
    pub fn set_os_mode(&mut self, mode: OsMode) -> (r: Result<(), Error<I2C::Error>>)
        ensures
            final(self).address_spec() == old(self).address_spec(),
            final(self).resolution_spec() == old(self).resolution_spec(),
            final(self).sample_rate_spec() == old(self).sample_rate_spec(),
            r is Ok ==> final(self).config_spec() == os_mode_config(old(self).config_spec(), mode),
            is_write(
                final(self).last_message(),
                old(self).address_spec(),
                seq![CONFIGURATION, os_mode_config(old(self).config_spec(), mode)],
            ),
            r is Err ==> final(self).config_spec() == old(self).config_spec(),
            r is Ok || r is Err && r->Err_0 is I2C,
    {
        let config = match mode {
            OsMode::Comparator => self.config.with_low(OS_MODE),
            OsMode::Interrupt => self.config.with_high(OS_MODE),
        };
        self.write_config(config)
    }

    /// Sets the OS output polarity.
    pub fn set_os_polarity(&mut self, polarity: OsPolarity) -> (r: Result<(), Error<I2C::Error>>)
        ensures
            final(self).address_spec() == old(self).address_spec(),
            final(self).resolution_spec() == old(self).resolution_spec(),
            final(self).sample_rate_spec() == old(self).sample_rate_spec(),
            r is Ok ==> final(self).config_spec() == os_polarity_config(
                old(self).config_spec(),
                polarity,
            ),
            is_write(
                final(self).last_message(),
                old(self).address_spec(),
                seq![CONFIGURATION, os_polarity_config(old(self).config_spec(), polarity)],
            ),
            r is Err ==> final(self).config_spec() == old(self).config_spec(),
            r is Ok || r is Err && r->Err_0 is I2C,
    {
        let config = match polarity {
            OsPolarity::ActiveLow => self.config.with_low(OS_POLARITY),
            OsPolarity::ActiveHigh => self.config.with_high(OS_POLARITY),
        };
        self.write_config(config)
    }

    /// Reads the temperature, in millidegrees Celsius.
    pub fn read_temperature(&mut self) -> (r: Result<i32, Error<I2C::Error>>)
        ensures
            final(self).same_state(old(self)),
            is_register_read(final(self).last_message(), old(self).address_spec(), TEMPERATURE, 2),
            r is Ok ==> r->Ok_0 as int == decoded_millis(
                read_back(final(self).last_message())[0],
                read_back(final(self).last_message())[1],
                old(self).resolution_spec(),
            ),
            r is Ok || r is Err && r->Err_0 is I2C,
    {
        self.read_temperature_register(TEMPERATURE)
    }

    /// Reads the overtemperature threshold, in millidegrees Celsius.
    pub fn read_os_temperature(&mut self) -> (r: Result<i32, Error<I2C::Error>>)
        ensures
            final(self).same_state(old(self)),
            is_register_read(final(self).last_message(), old(self).address_spec(), T_OS, 2),
            r is Ok ==> r->Ok_0 as int == decoded_millis(
                read_back(final(self).last_message())[0],
                read_back(final(self).last_message())[1],
                old(self).resolution_spec(),
            ),
            r is Ok || r is Err && r->Err_0 is I2C,
    {
        self.read_temperature_register(T_OS)
    }

    /// Reads the hysteresis threshold, in millidegrees Celsius.
    pub fn read_hysteresis_temperature(&mut self) -> (r: Result<i32, Error<I2C::Error>>)
        ensures
            final(self).same_state(old(self)),
            is_register_read(final(self).last_message(), old(self).address_spec(), T_HYST, 2),
            r is Ok ==> r->Ok_0 as int == decoded_millis(
                read_back(final(self).last_message())[0],
                read_back(final(self).last_message())[1],
                old(self).resolution_spec(),
            ),
            r is Ok || r is Err && r->Err_0 is I2C,
    {
        self.read_temperature_register(T_HYST)
    }

    /// Sets the overtemperature threshold to `millicelsius`, rounded to the
    /// device's resolution. The value is not checked against the chip's range.
    pub fn set_os_temperature(&mut self, millicelsius: i32) -> (r: Result<(), Error<I2C::Error>>)
        ensures
            final(self).same_state(old(self)),
            is_write(
                final(self).last_message(),
                old(self).address_spec(),
                seq![
                    T_OS,
                    encoded_bytes(millicelsius as int, old(self).resolution_spec()).0,
                    encoded_bytes(millicelsius as int, old(self).resolution_spec()).1,
                ],
            ),
            r is Ok || r is Err && r->Err_0 is I2C,
    {
        self.write_temperature(T_OS, millicelsius)
    }

    /// Sets the hysteresis threshold to `millicelsius`, rounded to the
    /// device's resolution. The value is not checked against the chip's range.
    pub fn set_hysteresis_temperature(&mut self, millicelsius: i32) -> (r: Result<(), Error<I2C::Error>>)
        ensures
            final(self).same_state(old(self)),
            is_write(
                final(self).last_message(),
                old(self).address_spec(),
                seq![
                    T_HYST,
                    encoded_bytes(millicelsius as int, old(self).resolution_spec()).0,
                    encoded_bytes(millicelsius as int, old(self).resolution_spec()).1,
                ],
            ),
            r is Ok || r is Err && r->Err_0 is I2C,
    {
        self.write_temperature(T_HYST, millicelsius)
    }

    /// Sets the sample-rate register. On a device without one this succeeds
    /// and does not touch the bus.
    pub fn set_sample_rate(&mut self, value: u8) -> (r: Result<(), Error<I2C::Error>>)
        ensures
            final(self).address_spec() == old(self).address_spec(),
            final(self).resolution_spec() == old(self).resolution_spec(),
            final(self).config_spec() == old(self).config_spec(),
            old(self).sample_rate_spec() is None ==> r is Ok && *final(self) == *old(self),
            old(self).sample_rate_spec() is Some ==> is_write(
                final(self).last_message(),
                old(self).address_spec(),
                seq![T_IDLE, value],
            ),
            old(self).sample_rate_spec() is Some && r is Ok ==> final(self).sample_rate_spec()
                == Some(value),
            r is Err ==> final(self).sample_rate_spec() == old(self).sample_rate_spec(),
            r is Ok || r is Err && r->Err_0 is I2C,
    {
        if self.sample_rate.bits().is_none() {
            return Ok(());
        }
        let bytes: [u8; 2] = [T_IDLE, value];
        let result = self.i2c.write(self.address, &bytes);
        self.last_message = Ghost(Some(BusMessage::Write { address: self.address, bytes: bytes@ }));
        assert(bytes@ =~= seq![T_IDLE, value]);
        match result {
            Ok(()) => {
                self.sample_rate = SampleRate::with_value(value);
                Ok(())
            },
            Err(e) => Err(Error::I2C(e)),
        }
    }

    /// Reads the sample-rate register. A device without one gives
    /// `Error::InvalidRegister` and the bus is not touched.
    pub fn read_sample_rate(&mut self) -> (r: Result<u8, Error<I2C::Error>>)
        ensures
            final(self).same_state(old(self)),
            old(self).sample_rate_spec() is None <==> r is Err && r->Err_0 is InvalidRegister,
            old(self).sample_rate_spec() is None ==> *final(self) == *old(self),
            old(self).sample_rate_spec() is Some ==> is_register_read(
                final(self).last_message(),
                old(self).address_spec(),
                T_IDLE,
                1,
            ),
            r is Ok ==> r->Ok_0 == read_back(final(self).last_message())[0],
            r is Ok || r->Err_0 is I2C || r->Err_0 is InvalidRegister,
    {
        if self.sample_rate.bits().is_none() {
            return Err(Error::InvalidRegister);
        }
        let mut data: [u8; 1] = [0];
        let pointer: [u8; 1] = [T_IDLE];
        let result = self.i2c.write_read(self.address, &pointer, &mut data);
        self.last_message = Ghost(
            Some(BusMessage::WriteRead { address: self.address, bytes: pointer@, read: data@ }),
        );
        assert(pointer@ =~= seq![T_IDLE]);
        match result {
            Ok(()) => Ok(data[0]),
            Err(e) => Err(Error::I2C(e)),
        }
    }
}

/// Disabling and then enabling the device clears the shutdown bit and leaves
/// every other bit of the configuration byte (OS mode, OS polarity, fault
/// queue) as it was; from an active device's byte it gives that byte back.
pub proof fn lemma_disable_enable(c: u8)
    ensures
        enabled_config(disabled_config(c)) == c & !SHUTDOWN,
        enabled_config(disabled_config(c)) & !SHUTDOWN == c & !SHUTDOWN,
        enabled_config(disabled_config(c)) & SHUTDOWN == 0,
        c & SHUTDOWN == 0 ==> enabled_config(disabled_config(c)) == c,
{
    assert((c | 1u8) & !1u8 == c & !1u8) by (bit_vector);
    assert(((c | 1u8) & !1u8) & !1u8 == c & !1u8) by (bit_vector);
    assert(((c | 1u8) & !1u8) & 1u8 == 0) by (bit_vector);
    assert(c & 1u8 == 0 ==> (c | 1u8) & !1u8 == c) by (bit_vector);
}

} // verus!
