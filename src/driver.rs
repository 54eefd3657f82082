use vstd::prelude::*;

use crate::command::Command;
use crate::conversion::{convert, delay_ms, lux_of, read_u16, wait_ms, Lux};
use crate::settings::{Address, MeasurementMode, MeasurementTime, Resolution};

verus! {

/// What the driver asks its caller to do next.
#[derive(Clone, Copy, Debug, PartialEq, Eq)]
pub enum Action {
    /// Write the single byte `byte` to the device at `addr`.
    Write { addr: u8, byte: u8 },
    /// Block for `ms` milliseconds.
    Delay { ms: u16 },
    /// Read two bytes from the device at `addr`.
    Read { addr: u8 },
    /// The operation has finished.
    Done,
    /// The measurement has finished with this illuminance.
    Measured(Lux),
    /// The operation was abandoned after a failed transfer; the bus error is
    /// the operation's result.
    Fail,
}

/// How the caller's last action turned out.
#[derive(Clone, Copy, Debug, PartialEq, Eq)]
pub enum Event {
    /// The write was acknowledged.
    Written,
    /// The delay has passed.
    Delayed,
    /// The read returned these two bytes, in the order received.
    Read { high: u8, low: u8 },
    /// The transfer failed.
    Failed,
}

/// Where the driver stands in the operation in progress.
#[derive(Clone, Copy, Debug, PartialEq, Eq)]
pub enum Stage {
    /// No operation in progress.
    Idle,
    /// The last write of the operation was issued.
    Command,
    /// The power-on write ahead of a reset was issued.
    ResetPowerOn,
    /// The high byte of a new measurement time was issued.
    TimeHigh(MeasurementTime),
    /// The low byte of a new measurement time was issued.
    TimeLow(MeasurementTime),
    /// The command that starts a measurement was issued.
    Trigger,
    /// The wait for a measurement was issued.
    Waiting,
    /// The read of a measurement was issued.
    Reading,
}

/// The driver's configuration.
#[derive(Clone, Copy, Debug, PartialEq, Eq)]
pub struct Settings {
    /// Bus address of the sensor.
    pub addr: Address,
    /// Measurement mode of the next measurement.
    pub mode: MeasurementMode,
    /// Measurement time last written to the sensor.
    pub mt: MeasurementTime,
    /// Resolution of the next measurement.
    pub res: Resolution,
}

/// The measurement time of every stage that carries one is in range.
pub open spec fn stage_wf(st: Stage) -> bool {
    match st {
        Stage::TimeHigh(mt) => mt.wf(),
        Stage::TimeLow(mt) => mt.wf(),
        _ => true,
    }
}

/// The command that starts a measurement in the given mode and resolution.
pub open spec fn measurement_opcode(mode: MeasurementMode, res: Resolution) -> Command {
    match mode {
        MeasurementMode::Continious => match res {
            Resolution::Lx0_5 => Command::ContHResMode2,
            Resolution::Lx1_0 => Command::ContHResMode,
            Resolution::Lx4_0 => Command::ContLResMode,
        },
        MeasurementMode::OneTime => match res {
            Resolution::Lx0_5 => Command::OneTimeHResMode2,
            Resolution::Lx1_0 => Command::OneTimeHResMode,
            Resolution::Lx4_0 => Command::OneTimeLResMode,
        },
    }
}

/// A write of `c` to the configured device.
pub open spec fn write_of(s: Settings, c: u8) -> Action {
    Action::Write { addr: s.addr.value(), byte: c }
}

/// The driver's response to an event: its next configuration and stage,
/// and the action it asks for. An event that does not answer the action
/// last asked for, or a failure, ends the operation with `Fail` and leaves
/// the configuration as it was.
pub open spec fn next(s: Settings, st: Stage, e: Event) -> (Settings, Stage, Action) {
    match (st, e) {
        (Stage::Command, Event::Written) => (s, Stage::Idle, Action::Done),
        (Stage::ResetPowerOn, Event::Written) => (
            s,
            Stage::Command,
            write_of(s, Command::Reset.opcode()),
        ),
        (Stage::TimeHigh(mt), Event::Written) => (s, Stage::TimeLow(mt), write_of(s, mt.low_opcode())),
        (Stage::TimeLow(mt), Event::Written) => (Settings { mt, ..s }, Stage::Idle, Action::Done),
        (Stage::Trigger, Event::Written) => (
            s,
            Stage::Waiting,
            Action::Delay { ms: wait_ms(s.res, s.mt) },
        ),
        (Stage::Waiting, Event::Delayed) => (s, Stage::Reading, Action::Read { addr: s.addr.value() }),
        (Stage::Reading, Event::Read { high, low }) => (
            s,
            Stage::Idle,
            Action::Measured(lux_of(s.res, (high * 256 + low) as u16, s.mt)),
        ),
        _ => (s, Stage::Idle, Action::Fail),
    }
}

/// Response to a request for a new measurement time: the write of its high
/// byte.
pub open spec fn start_measurement_time(s: Settings, mt: MeasurementTime) -> (Settings, Stage, Action) {
    (s, Stage::TimeHigh(mt), write_of(s, mt.high_opcode()))
}

/// Response to a request for a reset: the power-on write.
pub open spec fn start_reset(s: Settings) -> (Settings, Stage, Action) {
    (s, Stage::ResetPowerOn, write_of(s, Command::PowerOn.opcode()))
}

/// Response to a request for a measurement: the write of the command that
/// starts it.
pub open spec fn start_measurement(s: Settings) -> (Settings, Stage, Action) {
    (s, Stage::Trigger, write_of(s, measurement_opcode(s.mode, s.res).opcode()))
}

/// Driver for the BH1750 ambient light sensor.
///
/// Each operation returns the first action for the caller to perform; the
/// caller reports its outcome to [`BH1750::step`] and performs the action
/// returned from there, until `Done`, `Measured` or `Fail` comes back.
pub struct BH1750 {
    settings: Settings,
    stage: Stage,
}

impl View for BH1750 {
    type V = (Settings, Stage);

    closed spec fn view(&self) -> (Settings, Stage) {
        (self.settings, self.stage)
    }
}

impl BH1750 {
    /// The measurement time of the configuration, and of the operation in
    /// progress, is in range.
    pub open spec fn wf(&self) -> bool {
        self@.0.mt.wf() && stage_wf(self@.1)
    }

    /// Creates an idle driver for the sensor at the low address, in
    /// one-time mode at 1.0 lx resolution with the default measurement time.
    pub fn new() -> (r: Self)
        ensures
            r@ == (
                Settings {
                    addr: Address::Low,
                    mode: MeasurementMode::OneTime,
                    mt: MeasurementTime::Default,
                    res: Resolution::Lx1_0,
                },
                Stage::Idle,
            ),
            r.wf(),
    {
        BH1750 {
            settings: Settings {
                addr: Address::Low,
                mode: MeasurementMode::OneTime,
                mt: MeasurementTime::Default,
                res: Resolution::Lx1_0,
            },
            stage: Stage::Idle,
        }
    }

    /// Creates an idle driver for the sensor at `address`, in continuous
    /// mode at 1.0 lx resolution with the default measurement time.
    pub fn with_address(address: Address) -> (r: Self)
        ensures
            r@ == (
                Settings {
                    addr: address,
                    mode: MeasurementMode::Continious,
                    mt: MeasurementTime::Default,
                    res: Resolution::Lx1_0,
                },
                Stage::Idle,
            ),
            r.wf(),
    {
        BH1750 {
            settings: Settings {
                addr: address,
                mode: MeasurementMode::Continious,
                mt: MeasurementTime::Default,
                res: Resolution::Lx1_0,
            },
            stage: Stage::Idle,
        }
    }

    /// Sets the mode of the next measurement. The bus is not touched.
    pub fn set_measurement_mode(&mut self, mode: MeasurementMode)
        ensures
            final(self)@ == (Settings { mode, ..old(self)@.0 }, old(self)@.1),
    {
        self.settings.mode = mode;
    }

    /// Sets the resolution of the next measurement. The bus is not touched.
    pub fn set_resolution(&mut self, res: Resolution)
        ensures
            final(self)@ == (Settings { res, ..old(self)@.0 }, old(self)@.1),
    {
        self.settings.res = res;
    }

    /// The measurement time last written to the sensor.
    pub fn measurement_time(&self) -> (r: MeasurementTime)
        ensures
            r == self@.0.mt,
    {
        self.settings.mt
    }

    /// The command that starts a measurement in the configured mode and
    /// resolution.
    fn measurement_command(&self) -> (r: Command)
        ensures
            r == measurement_opcode(self@.0.mode, self@.0.res),
    {
        match self.settings.mode {
            MeasurementMode::Continious => match self.settings.res {
                Resolution::Lx0_5 => Command::ContHResMode2,
                Resolution::Lx1_0 => Command::ContHResMode,
                Resolution::Lx4_0 => Command::ContLResMode,
            },
            MeasurementMode::OneTime => match self.settings.res {
                Resolution::Lx0_5 => Command::OneTimeHResMode2,
                Resolution::Lx1_0 => Command::OneTimeHResMode,
                Resolution::Lx4_0 => Command::OneTimeLResMode,
            },
        }
    }

    /// Enters `stage` and asks for `byte` to be written to the sensor.
    fn command(&mut self, byte: u8, stage: Stage) -> (r: Action)
        ensures
            final(self)@ == (old(self)@.0, stage),
            r == write_of(old(self)@.0, byte),
    {
        self.stage = stage;
        Action::Write { addr: self.settings.addr.addr(), byte }
    }

    /// Milliseconds to wait for a measurement in the current configuration.
    fn delay(&self) -> (r: u16)
        ensures
            r == wait_ms(self@.0.res, self@.0.mt),
    {
        delay_ms(self.settings.res, self.settings.mt)
    }

    /// Wakes the sensor from sleep: asks for the power-on write.
    pub fn power_on(&mut self) -> (r: Action)
        requires
            old(self).wf(),
        ensures
            final(self).wf(),
            final(self)@ == (old(self)@.0, Stage::Command),
            r == write_of(old(self)@.0, Command::PowerOn.opcode()),
    {
        self.command(Command::PowerOn.cmd(), Stage::Command)
    }

    /// Stops all measurements and puts the sensor to sleep: asks for the
    /// power-down write.
    pub fn power_down(&mut self) -> (r: Action)
        requires
            old(self).wf(),
        ensures
            final(self).wf(),
            final(self)@ == (old(self)@.0, Stage::Command),
            r == write_of(old(self)@.0, Command::PowerDown.opcode()),
    {
        self.command(Command::PowerDown.cmd(), Stage::Command)
    }

    /// Clears the sensor's data register: asks for the power-on write, which
    /// the reset write follows once it is acknowledged.
    pub fn reset(&mut self) -> (r: Action)
        requires
            old(self).wf(),
        ensures
            final(self).wf(),
            (final(self)@.0, final(self)@.1, r) == start_reset(old(self)@.0),
    {
        self.command(Command::PowerOn.cmd(), Stage::ResetPowerOn)
    }

    /// Changes the measurement time: asks for the write of the high byte,
    /// which the write of the low byte follows once it is acknowledged. The
    /// configuration takes `mt` only when both writes have succeeded.
    pub fn set_measurement_time(&mut self, mt: MeasurementTime) -> (r: Action)
        requires
            old(self).wf(),
            mt.wf(),
        ensures
            final(self).wf(),
            (final(self)@.0, final(self)@.1, r) == start_measurement_time(old(self)@.0, mt),
    {
        // The sensor does not take both bytes in one transfer.
        self.command(mt.high_byte(), Stage::TimeHigh(mt))
    }

    /// Measures the illuminance: asks for the write of the command that
    /// starts a measurement in the configured mode and resolution, which the
    /// wait and the read of the result follow.
    pub fn illuminance(&mut self) -> (r: Action)
        requires
            old(self).wf(),
        ensures
            final(self).wf(),
            (final(self)@.0, final(self)@.1, r) == start_measurement(old(self)@.0),
    {
        let c = self.measurement_command();
        self.command(c.cmd(), Stage::Trigger)
    }

    /// Takes the outcome of the last action asked for, and returns the next
    /// one, as `next` states.
    pub fn step(&mut self, event: Event) -> (r: Action)
        requires
            old(self).wf(),
        ensures
            final(self).wf(),
            (final(self)@.0, final(self)@.1, r) == next(old(self)@.0, old(self)@.1, event),
    {
        let addr = self.settings.addr.addr();
        match (self.stage, event) {
            (Stage::Command, Event::Written) => {
                self.stage = Stage::Idle;
                Action::Done
            },
            (Stage::ResetPowerOn, Event::Written) => self.command(Command::Reset.cmd(), Stage::Command),
            (Stage::TimeHigh(mt), Event::Written) => self.command(mt.low_byte(), Stage::TimeLow(mt)),
            (Stage::TimeLow(mt), Event::Written) => {
                self.settings.mt = mt;
                self.stage = Stage::Idle;
                Action::Done
            },
            (Stage::Trigger, Event::Written) => {
                let ms = self.delay();
                self.stage = Stage::Waiting;
                Action::Delay { ms }
            },
            (Stage::Waiting, Event::Delayed) => {
                self.stage = Stage::Reading;
                Action::Read { addr }
            },
            (Stage::Reading, Event::Read { high, low }) => {
                let raw = read_u16(high, low);
                self.stage = Stage::Idle;
                Action::Measured(convert(self.settings.res, raw, self.settings.mt))
            },
            _ => {
                self.stage = Stage::Idle;
                Action::Fail
            },
        }
    }
}

/// Each mode and resolution has its own measurement command, and none of
/// them is a power or reset command.
pub proof fn lemma_measurement_opcodes_distinct(
    m1: MeasurementMode,
    r1: Resolution,
    m2: MeasurementMode,
    r2: Resolution,
)
    ensures
        measurement_opcode(m1, r1).opcode() == measurement_opcode(m2, r2).opcode() ==> m1 == m2
            && r1 == r2,
        measurement_opcode(m1, r1).opcode() != Command::PowerDown.opcode(),
        measurement_opcode(m1, r1).opcode() != Command::PowerOn.opcode(),
        measurement_opcode(m1, r1).opcode() != Command::Reset.opcode(),
{
}

/// A new measurement time is sent as exactly two writes to the configured
/// device, the high byte and then the low byte, from which the value is
/// rebuilt. The configuration takes the new value only once the second write
/// is acknowledged; a failure of either write ends the operation with no
/// further write and leaves the configuration as it was.
pub proof fn lemma_measurement_time_writes(s: Settings, mt: MeasurementTime, e: Event)
    requires
        mt.wf(),
    ensures
        ({
            let (s0, st0, a0) = start_measurement_time(s, mt);
            let (s1, st1, a1) = next(s0, st0, Event::Written);
            let (s2, st2, a2) = next(s1, st1, Event::Written);
            &&& a0 == write_of(s, mt.high_opcode())
            &&& a1 == write_of(s, mt.low_opcode())
            &&& a2 == Action::Done
            &&& s0 == s && s1 == s
            &&& s2 == Settings { mt, ..s }
            &&& st2 == Stage::Idle
            &&& e != Event::Written ==> next(s0, st0, e) == (s, Stage::Idle, Action::Fail)
            &&& e != Event::Written ==> next(s1, st1, e) == (s, Stage::Idle, Action::Fail)
        }),
        (mt.high_opcode() % 8) * 32 + mt.low_opcode() % 32 == mt.value(),
        mt.high_opcode() / 8 == 0b01000,
        mt.low_opcode() / 32 == 0b011,
{
    crate::settings::lemma_measurement_time_bytes(mt);
}

/// A reset is the power-on write followed by the reset write; if the first
/// fails the operation ends without the second.
pub proof fn lemma_reset_writes(s: Settings, e: Event)
    ensures
        ({
            let (s0, st0, a0) = start_reset(s);
            let (s1, st1, a1) = next(s0, st0, Event::Written);
            let (s2, st2, a2) = next(s1, st1, Event::Written);
            &&& a0 == write_of(s, Command::PowerOn.opcode())
            &&& a1 == write_of(s, Command::Reset.opcode())
            &&& a2 == Action::Done
            &&& s2 == s && st2 == Stage::Idle
            &&& e != Event::Written ==> next(s0, st0, e) == (s, Stage::Idle, Action::Fail)
        }),
{
}

/// A measurement is the write of its command, the wait for the configured
/// resolution and measurement time, and the read of two bytes, which are
/// converted most significant first; the configuration is left as it was.
pub proof fn lemma_measurement_sequence(s: Settings, high: u8, low: u8)
    ensures
        ({
            let (s0, st0, a0) = start_measurement(s);
            let (s1, st1, a1) = next(s0, st0, Event::Written);
            let (s2, st2, a2) = next(s1, st1, Event::Delayed);
            let (s3, st3, a3) = next(s2, st2, Event::Read { high, low });
            &&& a0 == write_of(s, measurement_opcode(s.mode, s.res).opcode())
            &&& a1 == Action::Delay { ms: wait_ms(s.res, s.mt) }
            &&& a2 == Action::Read { addr: s.addr.value() }
            &&& a3 == Action::Measured(lux_of(s.res, (high * 256 + low) as u16, s.mt))
            &&& s3 == s && st3 == Stage::Idle
        }),
{
}

} // verus!
