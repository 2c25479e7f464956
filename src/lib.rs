//! Typed, verified control layer for Raspberry Pi GPIO hardware.
//!
//! The hardware-access library is reached through the [`HardwareInterface`]
//! trait, whose operations answer with raw integer status codes. This crate
//! turns those codes into typed outcomes, guards waveform submission, and
//! offers [`fake::FakeHardware`], an in-memory interface that honours the same
//! status conventions.
#![allow(non_camel_case_types)]
#![allow(non_snake_case)]

pub mod constants;
pub mod error;
pub mod status;
pub mod pulse;
pub mod hardware;
pub mod gpio;
pub mod wave;
pub mod fake;
pub mod laws;

pub use constants::{GpioMode, Level, Pud, WaveMode, INPUT, OFF, ON, OUTPUT};
pub use error::{GpioError, GpioResponse, GpioResult};
pub use gpio::{
    delay, get_mode, initialize, read, set_alert_func, set_mode, set_pull_up_down, set_watchdog,
    terminate, trigger_pulse,
};
pub use hardware::HardwareInterface;
pub use pulse::{gpioPulse_t, PulseTrain};
pub use wave::{
    wave_add_generic, wave_clear, wave_create, wave_tx_send, wave_tx_send_mode, wave_tx_send_once,
};
