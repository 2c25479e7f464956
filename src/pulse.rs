use vstd::prelude::*;

verus! {

/// One step of a waveform: drive the lines of `gpioOn` high and those of
/// `gpioOff` low, then hold for `usDelay` microseconds.
#[derive(Debug, Clone, Copy, PartialEq, Eq, Structural)]
pub struct gpioPulse_t {
    pub gpioOn: u32,
    pub gpioOff: u32,
    pub usDelay: u32,
}

/// Pulses in playback order.
pub type PulseTrain = Vec<gpioPulse_t>;

} // verus!
