use vstd::prelude::*;

verus! {

/// The single-byte instructions understood by the sensor.
#[derive(Clone, Copy, Debug, PartialEq, Eq)]
pub enum Command {
    /// No active state.
    PowerDown,
    /// Waiting for measurement.
    PowerOn,
    /// Reset the data register. Not accepted in power-down mode.
    Reset,
    /// Continuous measurement at 1 lx resolution.
    ContHResMode,
    /// Continuous measurement at 0.5 lx resolution.
    ContHResMode2,
    /// Continuous measurement at 4 lx resolution.
    ContLResMode,
    /// One measurement at 1 lx resolution, then power down.
    OneTimeHResMode,
    /// One measurement at 0.5 lx resolution, then power down.
    OneTimeHResMode2,
    /// One measurement at 4 lx resolution, then power down.
    OneTimeLResMode,
    /// Prefix of the measurement time's high bits: `0b01000_MT[7,6,5]`.
    ChangeMeasurementTimeHB,
    /// Prefix of the measurement time's low bits: `0b011_MT[4,3,2,1,0]`.
    ChangeMeasurementTimeLB,
}

impl Command {
    /// The byte that encodes this instruction on the bus.
    pub open spec fn opcode(self) -> u8 {
        match self {
            Command::PowerDown => 0x00,
            Command::PowerOn => 0x01,
            Command::Reset => 0x07,
            Command::ContHResMode => 0x10,
            Command::ContHResMode2 => 0x11,
            Command::ContLResMode => 0x13,
            Command::OneTimeHResMode => 0x20,
            Command::OneTimeHResMode2 => 0x21,
            Command::OneTimeLResMode => 0x23,
            Command::ChangeMeasurementTimeHB => 0x40,
            Command::ChangeMeasurementTimeLB => 0x60,
        }
    }

    /// The byte that encodes this instruction on the bus.
    pub fn cmd(&self) -> (r: u8)
        ensures
            r == self.opcode(),
    {
        match *self {
            Command::PowerDown => 0b0000_0000,
            Command::PowerOn => 0b0000_0001,
            Command::Reset => 0b0000_0111,
            Command::ContHResMode => 0b0001_0000,
            Command::ContHResMode2 => 0b0001_0001,
            Command::ContLResMode => 0b0001_0011,
            Command::OneTimeHResMode => 0b0010_0000,
            Command::OneTimeHResMode2 => 0b0010_0001,
            Command::OneTimeLResMode => 0b0010_0011,
            Command::ChangeMeasurementTimeHB => 0b0100_0000,
            Command::ChangeMeasurementTimeLB => 0b0110_0000,
        }
    }
}

} // verus!
