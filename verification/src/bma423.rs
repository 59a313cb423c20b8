//! Protocol core of the BMA423 accelerometer.
//!
//! The functions here say which bytes a register takes and what the bytes of
//! a register mean. The two sequences of requests that go beyond one register
//! access have a module each: a transfer through the feature configuration
//! port is a [`transaction::FeatureTransaction`], the start of the device
//! after power-up an [`initialization::Initialization`].

pub mod bracket;
pub mod device;
pub mod feature_offset;
pub mod flags;
pub mod initialization;
pub mod pointer;
pub mod register;
pub mod transaction;
pub mod transfer;

use vstd::prelude::*;

verus! {

/// An error of the accelerometer driver. `E` is the error of the bus.
#[derive(Debug)]
pub enum Error<E> {
    /// A bus transfer failed.
    Bus(E),
    /// The chip identified itself with a code of another device.
    InvalidChipId(u8),
    /// The power mode register held a value that is not a power mode.
    UnknownPowerMode(u8),
    /// The device did not come up after its configuration image was loaded.
    ASICInitialization,
}

impl<E> core::convert::From<E> for Error<E> {
    fn from(error: E) -> (wrapped: Self) {
        Error::Bus(error)
    }
}

impl<E> vstd::std_specs::convert::FromSpecImpl<E> for Error<E> {
    open spec fn obeys_from_spec() -> bool {
        true
    }

    open spec fn from_spec(error: E) -> Self {
        Error::Bus(error)
    }
}

/// The code with which a BMA423 identifies itself.
pub const CHIP_ID: u8 = 0x13;

/// Whether the motion interrupt reports motion or the lack of it.
#[derive(Clone, Copy, Debug, PartialEq, Eq, Structural)]
pub enum MotionDetection {
    AnyMotion,
    NoMotion,
}

/// The features that are switched on, and what the motion interrupt reports.
#[derive(Clone, Copy, Debug, PartialEq, Eq, Structural)]
pub struct FeatureConfig {
    features: flags::Feature,
    motion_detection: MotionDetection,
}

/// What an interrupt pin that is an input reacts to.
#[derive(Clone, Copy, Debug, PartialEq, Eq, Structural)]
pub enum InterruptPinTriggerCondition {
    Level,
    Edge,
}

/// The level at which an interrupt pin is active.
#[derive(Clone, Copy, Debug, PartialEq, Eq, Structural)]
pub enum InterruptPinLevel {
    ActiveLow,
    ActiveHigh,
}

/// How an interrupt pin drives its line.
#[derive(Clone, Copy, Debug, PartialEq, Eq, Structural)]
pub enum InterruptPinDrain {
    PushPull,
    OpenDrain,
}

/// The electrical behavior of an interrupt pin.
#[derive(Clone, Copy, Debug, PartialEq, Eq, Structural)]
pub struct InterruptPinConfig {
    pub trigger_condition: InterruptPinTriggerCondition,
    pub level: InterruptPinLevel,
    pub drain_behavior: InterruptPinDrain,
    pub output_enabled: bool,
    pub input_enabled: bool,
}

/// One of the two interrupt pins.
#[derive(Clone, Copy, Debug, PartialEq, Eq, Structural)]
pub enum InterruptPin {
    Pin1,
    Pin2,
}

impl InterruptPinTriggerCondition {
    /// The number that stands for the condition in a register.
    pub open spec fn number(self) -> int {
        match self {
            InterruptPinTriggerCondition::Level => 0,
            InterruptPinTriggerCondition::Edge => 1,
        }
    }
}

impl InterruptPinLevel {
    /// The number that stands for the level in a register.
    pub open spec fn number(self) -> int {
        match self {
            InterruptPinLevel::ActiveLow => 0,
            InterruptPinLevel::ActiveHigh => 1,
        }
    }
}

impl InterruptPinDrain {
    /// The number that stands for the behavior in a register.
    pub open spec fn number(self) -> int {
        match self {
            InterruptPinDrain::PushPull => 0,
            InterruptPinDrain::OpenDrain => 1,
        }
    }
}

impl InterruptPin {
    /// The number of the pin, counted from zero.
    pub open spec fn number(self) -> int {
        match self {
            InterruptPin::Pin1 => 0,
            InterruptPin::Pin2 => 1,
        }
    }
}

impl InterruptPinConfig {
    /// The register value of the configuration: one bit for each of its
    /// parts, the trigger condition lowest.
    pub open spec fn register_value(self) -> int {
        self.trigger_condition.number() + 2 * self.level.number() + 4
            * self.drain_behavior.number() + 8 * (if self.output_enabled {
            1int
        } else {
            0int
        }) + 16 * (if self.input_enabled {
            1int
        } else {
            0int
        })
    }

    /// The configuration as the value of the pin's control register.
    pub fn bits(&self) -> (bits: u8)
        ensures
            bits == self.register_value(),
    {
        let trigger: u8 = match self.trigger_condition {
            InterruptPinTriggerCondition::Level => 0,
            InterruptPinTriggerCondition::Edge => 1,
        };
        let level: u8 = match self.level {
            InterruptPinLevel::ActiveLow => 0,
            InterruptPinLevel::ActiveHigh => 1,
        };
        let drain: u8 = match self.drain_behavior {
            InterruptPinDrain::PushPull => 0,
            InterruptPinDrain::OpenDrain => 1,
        };
        let output: u8 = if self.output_enabled {
            1
        } else {
            0
        };
        let input: u8 = if self.input_enabled {
            1
        } else {
            0
        };
        assert(trigger | (level << 1) | (drain << 2) | (output << 3) | (input << 4) == trigger + 2
            * level + 4 * drain + 8 * output + 16 * input) by (bit_vector)
            requires
                trigger <= 1,
                level <= 1,
                drain <= 1,
                output <= 1,
                input <= 1,
        ;
        trigger | (level << 1) | (drain << 2) | (output << 3) | (input << 4)
    }

    /// The configuration that this driver reads out of a register value:
    /// each of the five low bits decides one part, a set bit choosing the
    /// first variant; the other bits are dropped.
    pub fn from_bits_truncate(bits: u8) -> (config: Self)
        ensures
            config.trigger_condition == if bits & 0b1 == 0b1 {
                InterruptPinTriggerCondition::Level
            } else {
                InterruptPinTriggerCondition::Edge
            },
            config.level == if bits & 0b10 == 0b10 {
                InterruptPinLevel::ActiveLow
            } else {
                InterruptPinLevel::ActiveHigh
            },
            config.drain_behavior == if bits & 0b100 == 0b100 {
                InterruptPinDrain::PushPull
            } else {
                InterruptPinDrain::OpenDrain
            },
            config.output_enabled == (bits & 0b1000 == 0b1000),
            config.input_enabled == (bits & 0b10000 == 0b10000),
    {
        let trigger_condition = if bits & 0b1 == 0b1 {
            InterruptPinTriggerCondition::Level
        } else {
            InterruptPinTriggerCondition::Edge
        };
        let level = if bits & 0b10 == 0b10 {
            InterruptPinLevel::ActiveLow
        } else {
            InterruptPinLevel::ActiveHigh
        };
        let drain_behavior = if bits & 0b100 == 0b100 {
            InterruptPinDrain::PushPull
        } else {
            InterruptPinDrain::OpenDrain
        };
        let output_enabled = bits & 0b1000 == 0b1000;
        let input_enabled = bits & 0b10000 == 0b10000;

        InterruptPinConfig {
            trigger_condition,
            level,
            drain_behavior,
            output_enabled,
            input_enabled,
        }
    }
}

/// The bytes that set the electrical behavior of `pin`: the address of its
/// control register, and the configuration.
pub fn set_interrupt_pin_config(pin: InterruptPin, config: InterruptPinConfig) -> (frame: [u8; 2])
    ensures
        frame@ == seq![
            (register::INT1_IO_CTRL + pin.number()) as u8,
            config.register_value() as u8,
        ],
{
    let offset: u8 = match pin {
        InterruptPin::Pin1 => 0,
        InterruptPin::Pin2 => 1,
    };
    let frame = [register::INT1_IO_CTRL + offset, config.bits()];
    assert(frame@ =~= seq![
        (register::INT1_IO_CTRL + pin.number()) as u8,
        config.register_value() as u8,
    ]);
    frame
}

/// The temperature in degrees Celsius that a value of the temperature
/// register stands for.
pub open spec fn celsius(temp: u8) -> int {
    if temp < 0x80 {
        temp + 23
    } else {
        temp - 256 + 23
    }
}

/// The temperature in degrees Celsius, in the range -104..=150, that the
/// temperature register reports, or nothing if it reports that it has no
/// valid temperature.
pub fn sensor_temperature_as_celsius(temp: u8) -> (celsius: Option<i16>)
    ensures
        celsius == if temp == 0x80 {
            None
        } else {
            Some(self::celsius(temp) as i16)
        },
        celsius matches Some(degrees) ==> -104 <= degrees <= 150,
{
    if temp == 0x80 {
        None
    } else if temp < 0x80 {
        Some(temp as i16 + 23)
    } else {
        Some(temp as i16 - 256 + 23)
    }
}

/// The count of the free running sensor clock, which is 24 bits wide, from
/// the three sensor time registers.
pub fn sensor_time(registers: [u8; 3]) -> (ticks: u32)
    ensures
        ticks == registers[0] + 256 * registers[1] + 65536 * registers[2],
{
    registers[0] as u32 + 256 * (registers[1] as u32) + 65536 * (registers[2] as u32)
}

/// The number of steps from the four step counter registers.
pub fn step_count(registers: [u8; 4]) -> (steps: u32)
    ensures
        steps == registers[0] + 256 * registers[1] + 65536 * registers[2] + 16777216
            * registers[3],
{
    registers[0] as u32 + 256 * (registers[1] as u32) + 65536 * (registers[2] as u32) + 16777216
        * (registers[3] as u32)
}

/// The acceleration along one axis from the two registers of the axis: the
/// twelve bits of the reading stand in the high bits of the sixteen.
pub open spec fn axis_reading(lsb: u8, msb: u8) -> int {
    (msb * 256 + lsb) / 16
}

/// The acceleration along the three axes, twelve bits each, from the six
/// accelerometer data registers.
pub fn accelerometer_xyz(registers: [u8; 6]) -> (xyz: (u16, u16, u16))
    ensures
        xyz.0 == axis_reading(registers[0], registers[1]),
        xyz.1 == axis_reading(registers[2], registers[3]),
        xyz.2 == axis_reading(registers[4], registers[5]),
{
    let x: u16 = registers[1] as u16 * 256 + registers[0] as u16;
    let y: u16 = registers[3] as u16 * 256 + registers[2] as u16;
    let z: u16 = registers[5] as u16 * 256 + registers[4] as u16;

    (x / 0x10, y / 0x10, z / 0x10)
}

/// Checks the code with which the chip identified itself.
pub fn check_chip_id<E>(chip_id: u8) -> (checked: Result<(), Error<E>>)
    ensures
        checked == if chip_id == CHIP_ID {
            Ok::<(), Error<E>>(())
        } else {
            Err::<(), Error<E>>(Error::InvalidChipId(chip_id))
        },
{
    if chip_id == CHIP_ID {
        Ok(())
    } else {
        Err(Error::InvalidChipId(chip_id))
    }
}

/// Sets, in a feature window, the flag that makes the device reset its step
/// counter. The rest of the window stays as it is.
pub fn reset_step_counter(features: &mut [u8])
    requires
        old(features)@.len() > feature_offset::STEP_COUNTER_SETTINGS_26 + 1,
    ensures
        final(features)@ == old(features)@.update(
            feature_offset::STEP_COUNTER_SETTINGS_26 + 1,
            old(features)@[feature_offset::STEP_COUNTER_SETTINGS_26 + 1] | 0b100,
        ),
{
    let at = feature_offset::STEP_COUNTER_SETTINGS_26 + 1;
    let settings = features[at];
    features[at] = settings | 0b100;
}

/// An accelerometer on a bus: its bus address, the bus that it is reached by,
/// and a timer to wait with.
pub struct BMA423<I2C, D> {
    address: u8,
    i2c: I2C,
    delay: D,
}

impl<I2C, D> BMA423<I2C, D> {
    /// The bus address of the accelerometer.
    pub closed spec fn spec_address(&self) -> u8 {
        self.address
    }

    /// The bus and the timer.
    pub closed spec fn spec_parts(&self) -> (I2C, D) {
        (self.i2c, self.delay)
    }

    /// The accelerometer at `address` on the bus `i2c`, with a timer to wait
    /// with.
    pub fn new(address: u8, i2c: I2C, delay: D) -> (sensor: Self)
        ensures
            sensor.spec_address() == address,
            sensor.spec_parts() == (i2c, delay),
    {
        BMA423 { address, i2c, delay }
    }

    /// The bus address of the accelerometer.
    pub fn address(&self) -> (address: u8)
        ensures
            address == self.spec_address(),
    {
        self.address
    }

    /// The bus and the timer, to perform a request with.
    pub fn parts(&mut self) -> (parts: (&mut I2C, &mut D))
        ensures
            (*parts.0, *parts.1) == old(self).spec_parts(),
            final(self).spec_parts() == (*final(parts.0), *final(parts.1)),
            final(self).spec_address() == old(self).spec_address(),
    {
        (&mut self.i2c, &mut self.delay)
    }
}

} // verus!
