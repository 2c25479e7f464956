use vstd::prelude::*;
use crate::pulse::gpioPulse_t;

verus! {

/// The call interface of the hardware-access library.
///
/// Every operation answers with the library's raw integer convention: a
/// non-negative value is success (or the value asked for), a negative value
/// is a status sentinel. Implementations bind to the native library or model
/// it in memory; the functions of this crate decode the answers.
///
/// Each operation is described by a relation between the interface before
/// the call, its arguments, the interface after the call and the raw answer.
/// An implementation says what its relations are and proves that its
/// operations meet them; one that does not state a relation promises nothing
/// of that operation beyond the type of its answer.
pub trait HardwareInterface: Sized {
    /// What a line alert calls back, as this interface represents it.
    type Alert;

    /// Whether a session with the hardware is known to be open. An
    /// interface that does not track its session leaves this false.
    open spec fn live(&self) -> bool {
        false
    }

    open spec fn initialise_spec(&self, post: Self, r: i32) -> bool {
        true
    }

    open spec fn terminate_spec(&self, post: Self) -> bool {
        true
    }

    open spec fn set_mode_spec(&self, gpio: u32, mode: u32, post: Self, r: i32) -> bool {
        true
    }

    open spec fn get_mode_spec(&self, gpio: u32, post: Self, r: i32) -> bool {
        true
    }

    open spec fn pud_spec(&self, gpio: u32, pud: u32, post: Self, r: i32) -> bool {
        true
    }

    open spec fn read_spec(&self, gpio: u32, post: Self, r: i32) -> bool {
        true
    }

    open spec fn write_spec(&self, gpio: u32, level: u32, post: Self, r: i32) -> bool {
        true
    }

    open spec fn delay_spec(&self, micros: u32, post: Self, r: u32) -> bool {
        true
    }

    open spec fn alert_spec(&self, user_gpio: u32, alert: Self::Alert, post: Self, r: i32) -> bool {
        true
    }

    open spec fn trigger_spec(&self, user_gpio: u32, pulse_len: u32, level: u32, post: Self, r: i32) -> bool {
        true
    }

    open spec fn watchdog_spec(&self, user_gpio: u32, timeout: u32, post: Self, r: i32) -> bool {
        true
    }

    open spec fn wave_clear_spec(&self, post: Self, r: i32) -> bool {
        true
    }

    open spec fn wave_add_spec(&self, pulses: Seq<gpioPulse_t>, post: Self, r: i32) -> bool {
        true
    }

    open spec fn wave_create_spec(&self, post: Self, r: i32) -> bool {
        true
    }

    open spec fn tx_send_spec(&self, wave_id: u32, wave_mode: u32, post: Self, r: i32) -> bool {
        true
    }

    fn gpio_initialise(&mut self) -> (r: i32)
        ensures
            old(self).initialise_spec(*final(self), r),
    ;

    /// Ends the session and releases what the interface holds.
    fn gpio_terminate(&mut self)
        ensures
            old(self).terminate_spec(*final(self)),
            !final(self).live(),
    ;

    fn gpio_set_mode(&mut self, gpio: u32, mode: u32) -> (r: i32)
        ensures
            old(self).set_mode_spec(gpio, mode, *final(self), r),
    ;

    fn gpio_get_mode(&mut self, gpio: u32) -> (r: i32)
        ensures
            old(self).get_mode_spec(gpio, *final(self), r),
    ;

    fn gpio_set_pull_up_down(&mut self, gpio: u32, pud: u32) -> (r: i32)
        ensures
            old(self).pud_spec(gpio, pud, *final(self), r),
    ;

    fn gpio_read(&mut self, gpio: u32) -> (r: i32)
        ensures
            old(self).read_spec(gpio, *final(self), r),
    ;

    fn gpio_write(&mut self, gpio: u32, level: u32) -> (r: i32)
        ensures
            old(self).write_spec(gpio, level, *final(self), r),
    ;

    /// Waits at least `micros` microseconds and answers the time waited.
    fn gpio_delay(&mut self, micros: u32) -> (r: u32)
        ensures
            old(self).delay_spec(micros, *final(self), r),
            r >= micros,
    ;

    fn gpio_set_alert_func(&mut self, user_gpio: u32, alert: Self::Alert) -> (r: i32)
        ensures
            old(self).alert_spec(user_gpio, alert, *final(self), r),
    ;

    fn gpio_trigger(&mut self, user_gpio: u32, pulse_len: u32, level: u32) -> (r: i32)
        ensures
            old(self).trigger_spec(user_gpio, pulse_len, level, *final(self), r),
    ;

    fn gpio_set_watchdog(&mut self, user_gpio: u32, timeout: u32) -> (r: i32)
        ensures
            old(self).watchdog_spec(user_gpio, timeout, *final(self), r),
    ;

    fn gpio_wave_clear(&mut self) -> (r: i32)
        ensures
            old(self).wave_clear_spec(*final(self), r),
    ;

    /// Appends every pulse of `pulses` to the pending buffer and answers how
    /// many were taken.
    fn gpio_wave_add_generic(&mut self, pulses: &[gpioPulse_t]) -> (r: i32)
        ensures
            old(self).wave_add_spec(pulses@, *final(self), r),
    ;

    fn gpio_wave_create(&mut self) -> (r: i32)
        ensures
            old(self).wave_create_spec(*final(self), r),
    ;

    fn gpio_wave_tx_send(&mut self, wave_id: u32, wave_mode: u32) -> (r: i32)
        ensures
            old(self).tx_send_spec(wave_id, wave_mode, *final(self), r),
    ;
}

} // verus!
