//! Sets of flags that the registers of the device hold, one bit per flag.

use vstd::prelude::*;

verus! {

/// How the device saves power.
#[derive(Clone, Copy, Debug, PartialEq, Eq, Structural)]
pub struct PowerMode {
    /// The flags, as the register holds them.
    pub bits: u8,
}

impl PowerMode {
    /// The bits that are flags of this set.
    pub open spec fn all_bits() -> u8 {
        0b11
    }

    /// The advanced power save mode.
    pub fn advanced_power_save() -> (flags: Self)
        ensures
            flags.bits == 0b1,
    {
        PowerMode { bits: 0b1 }
    }

    /// The FIFO can be read while the device saves power.
    pub fn fifo_self_wakeup() -> (flags: Self)
        ensures
            flags.bits == 0b10,
    {
        PowerMode { bits: 0b10 }
    }

    /// The set without any flag.
    pub fn empty() -> (flags: Self)
        ensures
            flags.bits == 0,
    {
        PowerMode { bits: 0 }
    }

    /// The flags as a register value.
    pub fn bits(&self) -> (bits: u8)
        ensures
            bits == self.bits,
    {
        self.bits
    }

    /// The set that a register value stands for; bits that are no flags are
    /// dropped.
    pub fn from_bits_truncate(bits: u8) -> (flags: Self)
        ensures
            flags.bits == bits & Self::all_bits(),
    {
        PowerMode { bits: bits & 0b11 }
    }

    /// Whether every flag of `other` is in this set.
    pub fn contains(&self, other: Self) -> (yes: bool)
        ensures
            yes == (self.bits & other.bits == other.bits),
    {
        self.bits & other.bits == other.bits
    }

    /// This set without the flags of `other`.
    pub fn difference(self, other: Self) -> (flags: Self)
        ensures
            flags.bits == self.bits & !other.bits,
    {
        PowerMode { bits: self.bits & !other.bits }
    }
}

/// Which sensors are switched on.
#[derive(Clone, Copy, Debug, PartialEq, Eq, Structural)]
pub struct SensorPower {
    /// The flags, as the register holds them.
    pub bits: u8,
}

impl SensorPower {
    /// The bits that are flags of this set.
    pub open spec fn all_bits() -> u8 {
        0b101
    }

    /// The accelerometer.
    pub fn accelerometer() -> (flags: Self)
        ensures
            flags.bits == 0b100,
    {
        SensorPower { bits: 0b100 }
    }

    /// The auxiliary sensor.
    pub fn auxiliary() -> (flags: Self)
        ensures
            flags.bits == 0b1,
    {
        SensorPower { bits: 0b1 }
    }

    /// The set without any flag.
    pub fn empty() -> (flags: Self)
        ensures
            flags.bits == 0,
    {
        SensorPower { bits: 0 }
    }

    /// The flags as a register value.
    pub fn bits(&self) -> (bits: u8)
        ensures
            bits == self.bits,
    {
        self.bits
    }

    /// The set that a register value stands for; bits that are no flags are
    /// dropped.
    pub fn from_bits_truncate(bits: u8) -> (flags: Self)
        ensures
            flags.bits == bits & Self::all_bits(),
    {
        SensorPower { bits: bits & 0b101 }
    }

    /// Whether every flag of `other` is in this set.
    pub fn contains(&self, other: Self) -> (yes: bool)
        ensures
            yes == (self.bits & other.bits == other.bits),
    {
        self.bits & other.bits == other.bits
    }
}

/// The features of the motion engine.
#[derive(Clone, Copy, Debug, PartialEq, Eq, Structural)]
pub struct Feature {
    /// The flags, as the register holds them.
    pub bits: u8,
}

impl Feature {
    /// The bits that are flags of this set.
    pub open spec fn all_bits() -> u8 {
        0b11111
    }

    /// The step detector.
    pub fn step_detector() -> (flags: Self)
        ensures
            flags.bits == 0b1,
    {
        Feature { bits: 0b1 }
    }

    /// The step counter.
    pub fn step_counter() -> (flags: Self)
        ensures
            flags.bits == 0b10,
    {
        Feature { bits: 0b10 }
    }

    /// The activity recognition.
    pub fn step_activity() -> (flags: Self)
        ensures
            flags.bits == 0b100,
    {
        Feature { bits: 0b100 }
    }

    /// The wake-up by tap.
    pub fn tap_wakeup() -> (flags: Self)
        ensures
            flags.bits == 0b1000,
    {
        Feature { bits: 0b1000 }
    }

    /// The wrist tilt detection.
    pub fn wrist_tilt() -> (flags: Self)
        ensures
            flags.bits == 0b10000,
    {
        Feature { bits: 0b10000 }
    }

    /// The set without any flag.
    pub fn empty() -> (flags: Self)
        ensures
            flags.bits == 0,
    {
        Feature { bits: 0 }
    }

    /// The flags as a register value.
    pub fn bits(&self) -> (bits: u8)
        ensures
            bits == self.bits,
    {
        self.bits
    }

    /// The set that a register value stands for; bits that are no flags are
    /// dropped.
    pub fn from_bits_truncate(bits: u8) -> (flags: Self)
        ensures
            flags.bits == bits & Self::all_bits(),
    {
        Feature { bits: bits & 0b11111 }
    }

    /// Whether every flag of `other` is in this set.
    pub fn contains(&self, other: Self) -> (yes: bool)
        ensures
            yes == (self.bits & other.bits == other.bits),
    {
        self.bits & other.bits == other.bits
    }
}

/// The status flags of the sensor.
#[derive(Clone, Copy, Debug, PartialEq, Eq, Structural)]
pub struct SensorStatus {
    /// The flags, as the register holds them.
    pub bits: u8,
}

impl SensorStatus {
    /// The bits that are flags of this set.
    pub open spec fn all_bits() -> u8 {
        0b1110100
    }

    /// The auxiliary interface is busy.
    pub fn auxiliary_interface_operation() -> (flags: Self)
        ensures
            flags.bits == 0b100,
    {
        SensorStatus { bits: 0b100 }
    }

    /// The command decoder takes a new command.
    pub fn command_decoder_ready() -> (flags: Self)
        ensures
            flags.bits == 0b10000,
    {
        SensorStatus { bits: 0b10000 }
    }

    /// The auxiliary sensor has new data.
    pub fn auxiliary_sensor_data_ready() -> (flags: Self)
        ensures
            flags.bits == 0b100000,
    {
        SensorStatus { bits: 0b100000 }
    }

    /// The accelerometer has new data.
    pub fn accelerometer_data_ready() -> (flags: Self)
        ensures
            flags.bits == 0b1000000,
    {
        SensorStatus { bits: 0b1000000 }
    }

    /// The set without any flag.
    pub fn empty() -> (flags: Self)
        ensures
            flags.bits == 0,
    {
        SensorStatus { bits: 0 }
    }

    /// The flags as a register value.
    pub fn bits(&self) -> (bits: u8)
        ensures
            bits == self.bits,
    {
        self.bits
    }

    /// The set that a register value stands for; bits that are no flags are
    /// dropped.
    pub fn from_bits_truncate(bits: u8) -> (flags: Self)
        ensures
            flags.bits == bits & Self::all_bits(),
    {
        SensorStatus { bits: bits & 0b1110100 }
    }

    /// Whether every flag of `other` is in this set.
    pub fn contains(&self, other: Self) -> (yes: bool)
        ensures
            yes == (self.bits & other.bits == other.bits),
    {
        self.bits & other.bits == other.bits
    }
}

} // verus!
