use vstd::prelude::*;
use crate::constants::{
    BAD_GPIO, BAD_LEVEL, BAD_MODE, BAD_PUD, BAD_USER_GPIO, BAD_WAVE_ID, BAD_WAVE_MODE, INIT_FAILED,
    OK, TOO_MANY_PULSES,
};
use crate::error::{GpioError, GpioResponse, GpioResult};

verus! {

// Each `*_outcome` function gives the typed result for a raw status code:
// success values first, then the sentinels the operation knows, and any
// other code as `Unknown`.

pub open spec fn init_outcome(code: i32) -> GpioResponse {
    if code >= 0 {
        Ok(code as u32)
    } else if code == INIT_FAILED {
        Err(GpioError::InitFailed)
    } else {
        Err(GpioError::Unknown(code))
    }
}

pub open spec fn set_mode_outcome(code: i32) -> GpioResult {
    if code == OK {
        Ok(())
    } else if code == BAD_GPIO {
        Err(GpioError::BadGpio)
    } else if code == BAD_MODE {
        Err(GpioError::BadMode)
    } else {
        Err(GpioError::Unknown(code))
    }
}

pub open spec fn get_mode_outcome(code: i32) -> GpioResponse {
    if code >= 0 {
        Ok(code as u32)
    } else if code == BAD_GPIO {
        Err(GpioError::BadGpio)
    } else {
        Err(GpioError::Unknown(code))
    }
}

pub open spec fn pud_outcome(code: i32) -> GpioResult {
    if code == OK {
        Ok(())
    } else if code == BAD_GPIO {
        Err(GpioError::BadGpio)
    } else if code == BAD_PUD {
        Err(GpioError::BadPud)
    } else {
        Err(GpioError::Unknown(code))
    }
}

pub open spec fn read_outcome(code: i32) -> GpioResponse {
    if code == 0 {
        Ok(0)
    } else if code == 1 {
        Ok(1)
    } else if code == BAD_GPIO {
        Err(GpioError::BadGpio)
    } else {
        Err(GpioError::Unknown(code))
    }
}

pub open spec fn write_outcome(code: i32) -> GpioResult {
    if code == OK {
        Ok(())
    } else if code == BAD_GPIO {
        Err(GpioError::BadGpio)
    } else if code == BAD_LEVEL {
        Err(GpioError::BadLevel)
    } else {
        Err(GpioError::Unknown(code))
    }
}

pub open spec fn alert_outcome(code: i32) -> GpioResult {
    if code == OK {
        Ok(())
    } else if code == BAD_USER_GPIO {
        Err(GpioError::BadUserGpio)
    } else {
        Err(GpioError::Unknown(code))
    }
}

pub open spec fn trigger_outcome(code: i32) -> GpioResult {
    if code == OK {
        Ok(())
    } else if code == BAD_USER_GPIO {
        Err(GpioError::BadUserGpio)
    } else if code == BAD_LEVEL {
        Err(GpioError::BadLevel)
    } else {
        Err(GpioError::Unknown(code))
    }
}

pub open spec fn watchdog_outcome(code: i32) -> GpioResult {
    alert_outcome(code)
}

pub open spec fn clear_outcome(code: i32) -> GpioResult {
    if code == OK {
        Ok(())
    } else {
        Err(GpioError::ClearFailed)
    }
}

/// Outcome of submitting `declared` pulses: an exact count is success, the
/// full-buffer sentinel is `TooManyPulses`, anything else is `AddFailed`.
pub open spec fn add_outcome(declared: u32, code: i32) -> GpioResponse {
    if code as int == declared as int {
        Ok(declared)
    } else if code == TOO_MANY_PULSES {
        Err(GpioError::TooManyPulses)
    } else {
        Err(GpioError::AddFailed(Some(code)))
    }
}

pub open spec fn create_outcome(code: i32) -> GpioResponse {
    if code >= 0 {
        Ok(code as u32)
    } else {
        Err(GpioError::CreateFailed(code))
    }
}

pub open spec fn send_outcome(code: i32) -> GpioResult {
    if code >= 0 {
        Ok(())
    } else if code == BAD_WAVE_ID {
        Err(GpioError::BadWaveId)
    } else if code == BAD_WAVE_MODE {
        Err(GpioError::BadWaveMode)
    } else {
        Err(GpioError::Unknown(code))
    }
}

/// Decodes the status of an initialisation call.
pub fn decode_init(code: i32) -> (r: GpioResponse)
    ensures
        r == init_outcome(code),
{
    if code >= 0 {
        Ok(code as u32)
    } else if code == INIT_FAILED {
        Err(GpioError::InitFailed)
    } else {
        Err(GpioError::Unknown(code))
    }
}

/// Decodes the status of a set-mode call.
pub fn decode_set_mode(code: i32) -> (r: GpioResult)
    ensures
        r == set_mode_outcome(code),
{
    match code {
        OK => Ok(()),
        BAD_GPIO => Err(GpioError::BadGpio),
        BAD_MODE => Err(GpioError::BadMode),
        _ => Err(GpioError::Unknown(code)),
    }
}

/// Decodes the answer of a get-mode call.
pub fn decode_get_mode(code: i32) -> (r: GpioResponse)
    ensures
        r == get_mode_outcome(code),
{
    if code >= 0 {
        Ok(code as u32)
    } else if code == BAD_GPIO {
        Err(GpioError::BadGpio)
    } else {
        Err(GpioError::Unknown(code))
    }
}

/// Decodes the status of a pull resistor call.
pub fn decode_pud(code: i32) -> (r: GpioResult)
    ensures
        r == pud_outcome(code),
{
    match code {
        OK => Ok(()),
        BAD_GPIO => Err(GpioError::BadGpio),
        BAD_PUD => Err(GpioError::BadPud),
        _ => Err(GpioError::Unknown(code)),
    }
}

/// Decodes the answer of a level read.
pub fn decode_read(code: i32) -> (r: GpioResponse)
    ensures
        r == read_outcome(code),
{
    match code {
        0 => Ok(0),
        1 => Ok(1),
        BAD_GPIO => Err(GpioError::BadGpio),
        _ => Err(GpioError::Unknown(code)),
    }
}

/// Decodes the status of a level write.
pub fn decode_write(code: i32) -> (r: GpioResult)
    ensures
        r == write_outcome(code),
{
    match code {
        OK => Ok(()),
        BAD_GPIO => Err(GpioError::BadGpio),
        BAD_LEVEL => Err(GpioError::BadLevel),
        _ => Err(GpioError::Unknown(code)),
    }
}

/// Decodes the status of an alert registration.
pub fn decode_alert(code: i32) -> (r: GpioResult)
    ensures
        r == alert_outcome(code),
{
    match code {
        OK => Ok(()),
        BAD_USER_GPIO => Err(GpioError::BadUserGpio),
        _ => Err(GpioError::Unknown(code)),
    }
}

/// Decodes the status of a trigger pulse.
pub fn decode_trigger(code: i32) -> (r: GpioResult)
    ensures
        r == trigger_outcome(code),
{
    match code {
        OK => Ok(()),
        BAD_USER_GPIO => Err(GpioError::BadUserGpio),
        BAD_LEVEL => Err(GpioError::BadLevel),
        _ => Err(GpioError::Unknown(code)),
    }
}

/// Decodes the status of a watchdog call.
pub fn decode_watchdog(code: i32) -> (r: GpioResult)
    ensures
        r == watchdog_outcome(code),
{
    decode_alert(code)
}

/// Decodes the status of a waveform clear.
pub fn decode_clear(code: i32) -> (r: GpioResult)
    ensures
        r == clear_outcome(code),
{
    if code == OK {
        Ok(())
    } else {
        Err(GpioError::ClearFailed)
    }
}

/// Decodes the answer to a submission of `declared` pulses, checking the
/// exact count first, then the full-buffer sentinel.
pub fn decode_add(declared: u32, code: i32) -> (r: GpioResponse)
    ensures
        r == add_outcome(declared, code),
{
    if code as i64 == declared as i64 {
        Ok(declared)
    } else if code == TOO_MANY_PULSES {
        Err(GpioError::TooManyPulses)
    } else {
        Err(GpioError::AddFailed(Some(code)))
    }
}

/// Decodes the answer of a waveform creation.
pub fn decode_create(code: i32) -> (r: GpioResponse)
    ensures
        r == create_outcome(code),
{
    if code >= 0 {
        Ok(code as u32)
    } else {
        Err(GpioError::CreateFailed(code))
    }
}

/// Decodes the status of a waveform transmission.
pub fn decode_send(code: i32) -> (r: GpioResult)
    ensures
        r == send_outcome(code),
{
    if code >= 0 {
        Ok(())
    } else if code == BAD_WAVE_ID {
        Err(GpioError::BadWaveId)
    } else if code == BAD_WAVE_MODE {
        Err(GpioError::BadWaveMode)
    } else {
        Err(GpioError::Unknown(code))
    }
}

} // verus!
