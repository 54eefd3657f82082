//! A platform agnostic driver for the BH1750 ambient light sensor.
//!
//! The library holds everything the driver decides: the command bytes that
//! select a mode, the two register writes that change the measurement time,
//! the wait before a result can be read, and the conversion of a raw count
//! into lux. The bus transfers and the waiting itself are performed by the
//! caller, who feeds the outcome of each one back into [`BH1750::step`].

pub mod command;
pub mod conversion;
pub mod driver;
pub mod settings;

pub use command::Command;
pub use driver::{Action, Event, Settings, Stage, BH1750};
pub use conversion::{convert, delay_ms, read_u16, Lux};
pub use settings::{Address, MeasurementMode, MeasurementTime, Resolution, DEFAULT_MEASUREMENT_TIME};
