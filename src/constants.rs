use vstd::prelude::*;

verus! {

/// Status code for success.
pub const OK: i32 = 0;
/// The interface could not be initialised.
pub const INIT_FAILED: i32 = -1;
/// A user line (0..=31) was expected.
pub const BAD_USER_GPIO: i32 = -2;
/// The line is outside the supported range.
pub const BAD_GPIO: i32 = -3;
/// The line mode is not recognised.
pub const BAD_MODE: i32 = -4;
/// The level is not 0 or 1.
pub const BAD_LEVEL: i32 = -5;
/// The pull resistor setting is not recognised.
pub const BAD_PUD: i32 = -6;
/// The watchdog timeout is out of range.
pub const BAD_WDOG_TIMEOUT: i32 = -15;
/// An operation was attempted before the interface was initialised.
pub const NOT_INITIALISED: i32 = -31;
/// The waveform transmission mode is not one of the four recognised ones.
pub const BAD_WAVE_MODE: i32 = -33;
/// The pending pulse buffer is full.
pub const TOO_MANY_PULSES: i32 = -36;
/// The trigger pulse length is out of range.
pub const BAD_PULSELEN: i32 = -46;
/// No waveform with that identifier is resident.
pub const BAD_WAVE_ID: i32 = -66;
/// A waveform was created from an empty pending buffer.
pub const EMPTY_WAVEFORM: i32 = -69;
/// Every waveform identifier is in use.
pub const NO_WAVEFORM_ID: i32 = -70;

/// Highest addressable line.
pub const MAX_GPIO: u32 = 53;
/// Highest user line (lines that alerts, triggers and watchdogs accept).
pub const MAX_USER_GPIO: u32 = 31;
/// Highest raw line mode value.
pub const MAX_MODE: u32 = 7;
/// Highest raw pull resistor value.
pub const MAX_PUD: u32 = 2;
/// Highest raw transmission mode value.
pub const MAX_WAVE_MODE: u32 = 3;
/// Longest trigger pulse, in microseconds.
pub const MAX_TRIGGER_PULSELEN: u32 = 100;
/// Longest watchdog timeout, in milliseconds.
pub const MAX_WDOG_TIMEOUT: u32 = 60000;

/// Raw value of the one-shot transmission mode.
pub const WAVE_MODE_ONE_SHOT: u32 = 0;
/// Raw value of the repeating transmission mode.
pub const WAVE_MODE_REPEAT: u32 = 1;
/// Raw value of the synced one-shot transmission mode.
pub const WAVE_MODE_ONE_SHOT_SYNC: u32 = 2;
/// Raw value of the synced repeating transmission mode.
pub const WAVE_MODE_REPEAT_SYNC: u32 = 3;

/// Direction of a line.
#[derive(Debug, Clone, Copy, PartialEq, Eq, Structural)]
pub enum GpioMode {
    INPUT,
    OUTPUT,
}

/// Level of a line.
#[derive(Debug, Clone, Copy, PartialEq, Eq, Structural)]
pub enum Level {
    OFF,
    ON,
}

/// Pull resistor setting of a line.
#[derive(Debug, Clone, Copy, PartialEq, Eq, Structural)]
pub enum Pud {
    OFF,
    DOWN,
    UP,
}

/// How a waveform is played.
#[derive(Debug, Clone, Copy, PartialEq, Eq, Structural)]
pub enum WaveMode {
    OneShot,
    Repeat,
    OneShotSync,
    RepeatSync,
}

pub const INPUT: GpioMode = GpioMode::INPUT;
pub const OUTPUT: GpioMode = GpioMode::OUTPUT;
pub const ON: Level = Level::ON;
pub const OFF: Level = Level::OFF;

impl GpioMode {
    pub open spec fn spec_code(self) -> u32 {
        match self {
            GpioMode::INPUT => 0,
            GpioMode::OUTPUT => 1,
        }
    }

    /// The raw value the hardware interface uses for this mode.
    #[verifier::when_used_as_spec(spec_code)]
    pub fn code(self) -> (r: u32)
        ensures
            r == self.spec_code(),
    {
        match self {
            GpioMode::INPUT => 0,
            GpioMode::OUTPUT => 1,
        }
    }
}

impl Level {
    pub open spec fn spec_code(self) -> u32 {
        match self {
            Level::OFF => 0,
            Level::ON => 1,
        }
    }

    /// The raw value the hardware interface uses for this level.
    #[verifier::when_used_as_spec(spec_code)]
    pub fn code(self) -> (r: u32)
        ensures
            r == self.spec_code(),
    {
        match self {
            Level::OFF => 0,
            Level::ON => 1,
        }
    }
}

impl Pud {
    pub open spec fn spec_code(self) -> u32 {
        match self {
            Pud::OFF => 0,
            Pud::DOWN => 1,
            Pud::UP => 2,
        }
    }

    /// The raw value the hardware interface uses for this setting.
    #[verifier::when_used_as_spec(spec_code)]
    pub fn code(self) -> (r: u32)
        ensures
            r == self.spec_code(),
    {
        match self {
            Pud::OFF => 0,
            Pud::DOWN => 1,
            Pud::UP => 2,
        }
    }
}

impl WaveMode {
    pub open spec fn spec_code(self) -> u32 {
        match self {
            WaveMode::OneShot => WAVE_MODE_ONE_SHOT,
            WaveMode::Repeat => WAVE_MODE_REPEAT,
            WaveMode::OneShotSync => WAVE_MODE_ONE_SHOT_SYNC,
            WaveMode::RepeatSync => WAVE_MODE_REPEAT_SYNC,
        }
    }

    /// The raw value the hardware interface uses for this mode.
    #[verifier::when_used_as_spec(spec_code)]
    pub fn code(self) -> (r: u32)
        ensures
            r == self.spec_code(),
            r <= MAX_WAVE_MODE,
    {
        match self {
            WaveMode::OneShot => WAVE_MODE_ONE_SHOT,
            WaveMode::Repeat => WAVE_MODE_REPEAT,
            WaveMode::OneShotSync => WAVE_MODE_ONE_SHOT_SYNC,
            WaveMode::RepeatSync => WAVE_MODE_REPEAT_SYNC,
        }
    }
}

} // verus!
