use rust_pigpio::fake::{FakeHardware, FAKE_VERSION};
use rust_pigpio::{
    delay, get_mode, initialize, read, set_alert_func, set_mode, set_pull_up_down, set_watchdog,
    terminate, trigger_pulse, GpioError, Pud, OFF, ON, OUTPUT, INPUT,
};

fn live() -> FakeHardware {
    let mut hw = FakeHardware::new();
    assert_eq!(initialize(&mut hw), Ok(FAKE_VERSION as u32));
    hw
}

#[test]
fn initialize_reports_version() {
    let mut hw = FakeHardware::new();
    assert_eq!(initialize(&mut hw), Ok(79));
}

#[test]
fn operations_before_initialize_fail() {
    let mut hw = FakeHardware::new();
    assert_eq!(read(&mut hw, 4), Err(GpioError::Unknown(-31)));
    assert_eq!(rust_pigpio::gpio::write(&mut hw, 4, ON), Err(GpioError::Unknown(-31)));
}

#[test]
fn operations_after_terminate_fail() {
    let mut hw = live();
    terminate(&mut hw);
    assert_eq!(set_mode(&mut hw, 4, OUTPUT), Err(GpioError::Unknown(-31)));
}

#[test]
fn unsupported_lines_are_rejected_without_effect() {
    let mut hw = live();
    for gpio in [54u32, 100, u32::MAX] {
        assert_eq!(set_mode(&mut hw, gpio, OUTPUT), Err(GpioError::BadGpio));
        assert_eq!(get_mode(&mut hw, gpio), Err(GpioError::BadGpio));
        assert_eq!(set_pull_up_down(&mut hw, gpio, Pud::UP), Err(GpioError::BadGpio));
        assert_eq!(read(&mut hw, gpio), Err(GpioError::BadGpio));
        assert_eq!(rust_pigpio::gpio::write(&mut hw, gpio, ON), Err(GpioError::BadGpio));
        assert_eq!(set_alert_func(&mut hw, gpio, 1), Err(GpioError::BadUserGpio));
        assert_eq!(trigger_pulse(&mut hw, gpio, 10, ON), Err(GpioError::BadUserGpio));
        assert_eq!(set_watchdog(&mut hw, gpio, 10), Err(GpioError::BadUserGpio));
    }
    for gpio in 0u32..54 {
        assert_eq!(read(&mut hw, gpio), Ok(0));
        assert_eq!(get_mode(&mut hw, gpio), Ok(0));
    }
}

#[test]
fn non_user_lines_reject_user_operations() {
    let mut hw = live();
    assert_eq!(set_alert_func(&mut hw, 32, 1), Err(GpioError::BadUserGpio));
    assert_eq!(trigger_pulse(&mut hw, 40, 10, ON), Err(GpioError::BadUserGpio));
    assert_eq!(set_watchdog(&mut hw, 53, 10), Err(GpioError::BadUserGpio));
    assert_eq!(set_alert_func(&mut hw, 31, 1), Ok(()));
}

#[test]
fn write_on_then_read_gives_one() {
    let mut hw = live();
    assert_eq!(rust_pigpio::gpio::write(&mut hw, 4, ON), Ok(()));
    assert_eq!(read(&mut hw, 4), Ok(1));
    assert_eq!(read(&mut hw, 5), Ok(0));
}

#[test]
fn write_off_then_read_gives_zero() {
    let mut hw = live();
    assert_eq!(rust_pigpio::gpio::write(&mut hw, 53, ON), Ok(()));
    assert_eq!(rust_pigpio::gpio::write(&mut hw, 53, OFF), Ok(()));
    assert_eq!(read(&mut hw, 53), Ok(0));
}

#[test]
fn set_mode_then_get_mode() {
    let mut hw = live();
    assert_eq!(set_mode(&mut hw, 17, OUTPUT), Ok(()));
    assert_eq!(get_mode(&mut hw, 17), Ok(1));
    assert_eq!(set_mode(&mut hw, 17, INPUT), Ok(()));
    assert_eq!(get_mode(&mut hw, 17), Ok(0));
}

#[test]
fn pull_resistor_settings_are_accepted() {
    let mut hw = live();
    assert_eq!(set_pull_up_down(&mut hw, 2, Pud::UP), Ok(()));
    assert_eq!(set_pull_up_down(&mut hw, 2, Pud::DOWN), Ok(()));
    assert_eq!(set_pull_up_down(&mut hw, 2, Pud::OFF), Ok(()));
}

#[test]
fn trigger_leaves_line_at_opposite_level() {
    let mut hw = live();
    assert_eq!(trigger_pulse(&mut hw, 7, 10, ON), Ok(()));
    assert_eq!(read(&mut hw, 7), Ok(0));
    assert_eq!(trigger_pulse(&mut hw, 7, 10, OFF), Ok(()));
    assert_eq!(read(&mut hw, 7), Ok(1));
    assert_eq!(trigger_pulse(&mut hw, 7, 101, ON), Err(GpioError::Unknown(-46)));
}

#[test]
fn watchdog_timeout_range() {
    let mut hw = live();
    assert_eq!(set_watchdog(&mut hw, 3, 60000), Ok(()));
    assert_eq!(set_watchdog(&mut hw, 3, 60001), Err(GpioError::Unknown(-15)));
}

#[test]
fn delay_reports_time_waited() {
    let mut hw = live();
    assert!(delay(&mut hw, 250) >= 250);
}
