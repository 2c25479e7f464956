use rust_pigpio::status::{
    decode_add, decode_alert, decode_clear, decode_create, decode_get_mode, decode_init,
    decode_pud, decode_read, decode_send, decode_set_mode, decode_trigger, decode_watchdog,
    decode_write,
};
use rust_pigpio::GpioError;

#[test]
fn init_codes() {
    assert_eq!(decode_init(79), Ok(79));
    assert_eq!(decode_init(0), Ok(0));
    assert_eq!(decode_init(-1), Err(GpioError::InitFailed));
    assert_eq!(decode_init(-7), Err(GpioError::Unknown(-7)));
}

#[test]
fn set_mode_codes() {
    assert_eq!(decode_set_mode(0), Ok(()));
    assert_eq!(decode_set_mode(-3), Err(GpioError::BadGpio));
    assert_eq!(decode_set_mode(-4), Err(GpioError::BadMode));
    assert_eq!(decode_set_mode(-2), Err(GpioError::Unknown(-2)));
    assert_eq!(decode_set_mode(5), Err(GpioError::Unknown(5)));
}

#[test]
fn get_mode_codes() {
    assert_eq!(decode_get_mode(4), Ok(4));
    assert_eq!(decode_get_mode(-3), Err(GpioError::BadGpio));
    assert_eq!(decode_get_mode(-31), Err(GpioError::Unknown(-31)));
}

#[test]
fn pud_codes() {
    assert_eq!(decode_pud(0), Ok(()));
    assert_eq!(decode_pud(-3), Err(GpioError::BadGpio));
    assert_eq!(decode_pud(-6), Err(GpioError::BadPud));
    assert_eq!(decode_pud(-5), Err(GpioError::Unknown(-5)));
}

#[test]
fn read_codes() {
    assert_eq!(decode_read(0), Ok(0));
    assert_eq!(decode_read(1), Ok(1));
    assert_eq!(decode_read(2), Err(GpioError::Unknown(2)));
    assert_eq!(decode_read(-3), Err(GpioError::BadGpio));
}

#[test]
fn write_codes() {
    assert_eq!(decode_write(0), Ok(()));
    assert_eq!(decode_write(-3), Err(GpioError::BadGpio));
    assert_eq!(decode_write(-5), Err(GpioError::BadLevel));
    assert_eq!(decode_write(-9), Err(GpioError::Unknown(-9)));
}

#[test]
fn user_line_codes() {
    assert_eq!(decode_alert(0), Ok(()));
    assert_eq!(decode_alert(-2), Err(GpioError::BadUserGpio));
    assert_eq!(decode_alert(-3), Err(GpioError::Unknown(-3)));
    assert_eq!(decode_trigger(0), Ok(()));
    assert_eq!(decode_trigger(-2), Err(GpioError::BadUserGpio));
    assert_eq!(decode_trigger(-5), Err(GpioError::BadLevel));
    assert_eq!(decode_trigger(-46), Err(GpioError::Unknown(-46)));
    assert_eq!(decode_watchdog(0), Ok(()));
    assert_eq!(decode_watchdog(-2), Err(GpioError::BadUserGpio));
    assert_eq!(decode_watchdog(-15), Err(GpioError::Unknown(-15)));
}

#[test]
fn clear_codes() {
    assert_eq!(decode_clear(0), Ok(()));
    assert_eq!(decode_clear(-1), Err(GpioError::ClearFailed));
    assert_eq!(decode_clear(3), Err(GpioError::ClearFailed));
}

#[test]
fn add_codes_check_exact_count_then_sentinel() {
    assert_eq!(decode_add(2, 2), Ok(2));
    assert_eq!(decode_add(2, -36), Err(GpioError::TooManyPulses));
    assert_eq!(decode_add(2, 1), Err(GpioError::AddFailed(Some(1))));
    assert_eq!(decode_add(2, -8), Err(GpioError::AddFailed(Some(-8))));
    assert_eq!(decode_add(3_000_000_000, -36), Err(GpioError::TooManyPulses));
    assert_eq!(
        decode_add(4_294_967_295, -1),
        Err(GpioError::AddFailed(Some(-1)))
    );
}

#[test]
fn create_codes() {
    assert_eq!(decode_create(0), Ok(0));
    assert_eq!(decode_create(7), Ok(7));
    assert_eq!(decode_create(-69), Err(GpioError::CreateFailed(-69)));
}

#[test]
fn send_codes() {
    assert_eq!(decode_send(0), Ok(()));
    assert_eq!(decode_send(12), Ok(()));
    assert_eq!(decode_send(-66), Err(GpioError::BadWaveId));
    assert_eq!(decode_send(-33), Err(GpioError::BadWaveMode));
    assert_eq!(decode_send(-31), Err(GpioError::Unknown(-31)));
}

#[test]
fn error_messages() {
    assert_eq!(GpioError::BadGpio.message(), "Bad gpio");
    assert_eq!(GpioError::Unknown(-9).message(), "Unknown error.");
    assert_eq!(GpioError::ClearFailed.message(), "Error clearing in call to gpioWaveClear");
}

#[test]
fn error_messages_carry_raw_codes() {
    assert_eq!(GpioError::CreateFailed(-69).message(), "Can't create wave (-69)");
    assert_eq!(GpioError::CreateFailed(0).message(), "Can't create wave (0)");
    assert_eq!(GpioError::AddFailed(Some(-8)).message(), "Add waveform failed (unknown -8)");
    assert_eq!(GpioError::AddFailed(Some(1234)).message(), "Add waveform failed (unknown 1234)");
    assert_eq!(
        GpioError::AddFailed(Some(i32::MIN)).message(),
        "Add waveform failed (unknown -2147483648)"
    );
    assert_eq!(
        GpioError::AddFailed(None).message(),
        "Add waveform failed (pulse count mismatch)"
    );
}
