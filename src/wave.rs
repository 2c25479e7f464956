use vstd::prelude::*;
use crate::constants::{WaveMode, WAVE_MODE_ONE_SHOT};
use crate::error::{GpioError, GpioResponse, GpioResult};
use crate::hardware::HardwareInterface;
use crate::pulse::{gpioPulse_t, PulseTrain};
use crate::status::{
    add_outcome, clear_outcome, create_outcome, decode_add, decode_clear, decode_create,
    decode_send, send_outcome,
};

verus! {

/// Whether a train may be submitted under the declared count: it is not
/// empty and holds exactly `declared` pulses.
pub open spec fn submittable(declared: u32, pulses: Seq<gpioPulse_t>) -> bool {
    pulses.len() > 0 && pulses.len() == declared as nat
}

/// Deletes every waveform the interface holds.
pub fn wave_clear<H: HardwareInterface>(hw: &mut H) -> (r: GpioResult)
    ensures
        exists|c: i32| old(hw).wave_clear_spec(*final(hw), c) && r == clear_outcome(c),
{
    let code = hw.gpio_wave_clear();
    decode_clear(code)
}

/// Submits `pulses` to the pending buffer, declaring `numPulses` of them.
///
/// A train that is empty or not of the declared length is refused without
/// reaching the interface. Otherwise the answer is the declared count when the
/// interface took exactly that many.
pub fn wave_add_generic<H: HardwareInterface>(hw: &mut H, numPulses: u32, pulses: &PulseTrain) -> (r:
    GpioResponse)
    ensures
        !submittable(numPulses, pulses@) ==> r == Err::<u32, GpioError>(GpioError::AddFailed(None))
            && *final(hw) == *old(hw),
        submittable(numPulses, pulses@) ==> exists|c: i32|
            old(hw).wave_add_spec(pulses@, *final(hw), c) && r == add_outcome(numPulses, c),
        r matches Ok(n) ==> n == numPulses && numPulses > 0,
{
    if pulses.len() == 0 || pulses.len() != numPulses as usize {
        return Err(GpioError::AddFailed(None));
    }
    let code = hw.gpio_wave_add_generic(pulses.as_slice());
    decode_add(numPulses, code)
}

/// Makes one waveform of the pending pulses and answers its identifier.
pub fn wave_create<H: HardwareInterface>(hw: &mut H) -> (r: GpioResponse)
    ensures
        exists|c: i32| old(hw).wave_create_spec(*final(hw), c) && r == create_outcome(c),
{
    let code = hw.gpio_wave_create();
    decode_create(code)
}

/// Starts transmitting a waveform in the raw transmission mode `mode`.
pub fn wave_tx_send<H: HardwareInterface>(hw: &mut H, wave_id: u32, mode: u32) -> (r: GpioResult)
    ensures
        exists|c: i32|
            old(hw).tx_send_spec(wave_id, mode, *final(hw), c) && r == send_outcome(c),
{
    let code = hw.gpio_wave_tx_send(wave_id, mode);
    decode_send(code)
}

/// Starts transmitting a waveform in one of the four transmission modes.
pub fn wave_tx_send_mode<H: HardwareInterface>(hw: &mut H, wave_id: u32, mode: WaveMode) -> (r:
    GpioResult)
    ensures
        exists|c: i32|
            old(hw).tx_send_spec(wave_id, mode.code(), *final(hw), c) && r == send_outcome(c),
{
    wave_tx_send(hw, wave_id, mode.code())
}

/// Plays a waveform once.
pub fn wave_tx_send_once<H: HardwareInterface>(hw: &mut H, wave_id: u32) -> (r: GpioResult)
    ensures
        exists|c: i32|
            old(hw).tx_send_spec(wave_id, WAVE_MODE_ONE_SHOT, *final(hw), c) && r
                == send_outcome(c),
{
    wave_tx_send(hw, wave_id, WAVE_MODE_ONE_SHOT)
}

} // verus!
