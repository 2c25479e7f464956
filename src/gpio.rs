use vstd::prelude::*;
use crate::constants::{GpioMode, Level, Pud};
use crate::error::{GpioResponse, GpioResult};
use crate::hardware::HardwareInterface;
use crate::status::{
    alert_outcome, decode_alert, decode_get_mode, decode_init, decode_pud, decode_read,
    decode_set_mode, decode_trigger, decode_watchdog, decode_write, get_mode_outcome,
    init_outcome, pud_outcome, read_outcome, set_mode_outcome, trigger_outcome, watchdog_outcome,
    write_outcome,
};

verus! {

/// Initialises the hardware interface; other operations need a live session.
///
/// Answers the interface's version on success.
pub fn initialize<H: HardwareInterface>(hw: &mut H) -> (r: GpioResponse)
    ensures
        exists|c: i32| old(hw).initialise_spec(*final(hw), c) && r == init_outcome(c),
{
    let code = hw.gpio_initialise();
    decode_init(code)
}

/// Releases what the interface holds. Call once, before the process exits;
/// failures here are not observable.
pub fn terminate<H: HardwareInterface>(hw: &mut H)
    ensures
        old(hw).terminate_spec(*final(hw)),
        !final(hw).live(),
{
    hw.gpio_terminate();
}

/// Sets the direction of a line.
pub fn set_mode<H: HardwareInterface>(hw: &mut H, gpio: u32, mode: GpioMode) -> (r: GpioResult)
    ensures
        exists|c: i32|
            old(hw).set_mode_spec(gpio, mode.code(), *final(hw), c) && r == set_mode_outcome(c),
{
    let code = hw.gpio_set_mode(gpio, mode.code());
    decode_set_mode(code)
}

/// Gets the raw mode of a line.
pub fn get_mode<H: HardwareInterface>(hw: &mut H, gpio: u32) -> (r: GpioResponse)
    ensures
        exists|c: i32| old(hw).get_mode_spec(gpio, *final(hw), c) && r == get_mode_outcome(c),
{
    let code = hw.gpio_get_mode(gpio);
    decode_get_mode(code)
}

/// Sets or clears the pull-up or pull-down resistor of a line.
pub fn set_pull_up_down<H: HardwareInterface>(hw: &mut H, gpio: u32, pud: Pud) -> (r: GpioResult)
    ensures
        exists|c: i32| old(hw).pud_spec(gpio, pud.code(), *final(hw), c) && r == pud_outcome(c),
{
    let code = hw.gpio_set_pull_up_down(gpio, pud.code());
    decode_pud(code)
}

/// Reads the level of a line: 0 or 1.
pub fn read<H: HardwareInterface>(hw: &mut H, gpio: u32) -> (r: GpioResponse)
    ensures
        exists|c: i32| old(hw).read_spec(gpio, *final(hw), c) && r == read_outcome(c),
        r matches Ok(v) ==> v <= 1,
{
    let code = hw.gpio_read(gpio);
    decode_read(code)
}

/// Sets the level of a line. Active PWM or servo pulses on it stop.
pub fn write<H: HardwareInterface>(hw: &mut H, gpio: u32, level: Level) -> (r: GpioResult)
    ensures
        exists|c: i32|
            old(hw).write_spec(gpio, level.code(), *final(hw), c) && r == write_outcome(c),
{
    let code = hw.gpio_write(gpio, level.code());
    decode_write(code)
}

/// Waits at least `microseconds` and answers the time the interface waited.
pub fn delay<H: HardwareInterface>(hw: &mut H, microseconds: u32) -> (r: u32)
    ensures
        old(hw).delay_spec(microseconds, *final(hw), r),
        r >= microseconds,
{
    hw.gpio_delay(microseconds)
}

/// Registers what the interface calls when a user line changes level.
pub fn set_alert_func<H: HardwareInterface>(hw: &mut H, gpio: u32, alert_func: H::Alert) -> (r:
    GpioResult)
    ensures
        exists|c: i32|
            old(hw).alert_spec(gpio, alert_func, *final(hw), c) && r == alert_outcome(c),
{
    let code = hw.gpio_set_alert_func(gpio, alert_func);
    decode_alert(code)
}

/// Sends a pulse of `pulse_len` microseconds at `level` on a user line.
pub fn trigger_pulse<H: HardwareInterface>(hw: &mut H, gpio: u32, pulse_len: u32, level: Level) -> (r:
    GpioResult)
    ensures
        exists|c: i32|
            old(hw).trigger_spec(gpio, pulse_len, level.code(), *final(hw), c) && r
                == trigger_outcome(c),
{
    let code = hw.gpio_trigger(gpio, pulse_len, level.code());
    decode_trigger(code)
}

/// Sets the watchdog of a user line, in milliseconds (0 switches it off).
pub fn set_watchdog<H: HardwareInterface>(hw: &mut H, gpio: u32, timeout: u32) -> (r: GpioResult)
    ensures
        exists|c: i32|
            old(hw).watchdog_spec(gpio, timeout, *final(hw), c) && r == watchdog_outcome(c),
{
    let code = hw.gpio_set_watchdog(gpio, timeout);
    decode_watchdog(code)
}

} // verus!
