use vstd::prelude::*;

use crate::command::Command;

verus! {

/// Step size of a measurement.
#[derive(Clone, Copy, Debug, PartialEq, Eq)]
pub enum Resolution {
    /// Resolution of 0.5 lx.
    Lx0_5,
    /// Resolution of 1.0 lx.
    Lx1_0,
    /// Resolution of 4.0 lx.
    Lx4_0,
}

/// How the sensor schedules its measurements.
#[derive(Clone, Copy, Debug, PartialEq, Eq)]
pub enum MeasurementMode {
    /// The sensor keeps measuring after each result.
    Continious,
    /// One measurement, after which the sensor powers down.
    OneTime,
}

/// Bus address of the sensor, chosen by its `ADDR` pin.
#[derive(Clone, Copy, Debug, PartialEq, Eq)]
pub enum Address {
    /// The address when the `ADDR` pin is low.
    Low,
    /// The address when the `ADDR` pin is high.
    High,
}

impl Address {
    /// The 7-bit bus address.
    pub open spec fn value(self) -> u8 {
        match self {
            Address::Low => 0x23,
            Address::High => 0x5C,
        }
    }

    /// The 7-bit bus address.
    pub fn addr(&self) -> (r: u8)
        ensures
            r == self.value(),
    {
        match *self {
            Address::Low => 0x23,
            Address::High => 0x5C,
        }
    }
}

/// Value of the sensor's measurement-time register.
#[derive(Clone, Copy, Debug, PartialEq, Eq)]
pub enum MeasurementTime {
    /// The nominal measurement time, 69.
    Default,
    /// A custom measurement time, from 31 to 254.
    Custom(u8),
}

/// Register value that `MeasurementTime::Default` stands for.
pub const DEFAULT_MEASUREMENT_TIME: u8 = 69;

impl MeasurementTime {
    /// The register value.
    pub open spec fn value(self) -> u8 {
        match self {
            MeasurementTime::Default => DEFAULT_MEASUREMENT_TIME,
            MeasurementTime::Custom(t) => t,
        }
    }

    /// A custom value lies in the range the sensor accepts.
    pub open spec fn wf(self) -> bool {
        31 <= self.value() <= 254
    }

    /// Byte of the first register write: the top three bits of the value
    /// after the fixed prefix.
    pub open spec fn high_opcode(self) -> u8 {
        (Command::ChangeMeasurementTimeHB.opcode() + self.value() / 32) as u8
    }

    /// Byte of the second register write: the bottom five bits of the value
    /// after the fixed prefix.
    pub open spec fn low_opcode(self) -> u8 {
        (Command::ChangeMeasurementTimeLB.opcode() + self.value() % 32) as u8
    }

    /// The register value.
    pub fn time(&self) -> (r: u8)
        ensures
            r == self.value(),
    {
        match *self {
            MeasurementTime::Default => DEFAULT_MEASUREMENT_TIME,
            MeasurementTime::Custom(t) => t,
        }
    }

    /// Byte of the first register write.
    pub fn high_byte(&self) -> (r: u8)
        ensures
            r == self.high_opcode(),
    {
        let v = self.time();
        let r = Command::ChangeMeasurementTimeHB.cmd() | (v >> 5u8);
        assert(0x40u8 | (v >> 5u8) == 0x40u8 + v / 32) by (bit_vector);
        r
    }

    /// Byte of the second register write.
    pub fn low_byte(&self) -> (r: u8)
        ensures
            r == self.low_opcode(),
    {
        let v = self.time();
        let r = Command::ChangeMeasurementTimeLB.cmd() | (v & 0b000_11111u8);
        assert(0x60u8 | (v & 0x1fu8) == 0x60u8 + v % 32) by (bit_vector);
        r
    }
}

/// The two register bytes carry the whole value: each keeps its fixed
/// prefix, and the value is the high byte's three bits followed by the low
/// byte's five bits.
pub proof fn lemma_measurement_time_bytes(mt: MeasurementTime)
    ensures
        mt.high_opcode() / 8 == 0b01000,
        mt.low_opcode() / 32 == 0b011,
        (mt.high_opcode() % 8) * 32 + mt.low_opcode() % 32 == mt.value(),
{
}

} // verus!
