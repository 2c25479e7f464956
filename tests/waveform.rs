use rust_pigpio::fake::FakeHardware;
use rust_pigpio::{
    initialize, wave_add_generic, wave_clear, wave_create, wave_tx_send, wave_tx_send_mode,
    wave_tx_send_once, gpioPulse_t, GpioError, PulseTrain, WaveMode,
};

fn live() -> FakeHardware {
    let mut hw = FakeHardware::new();
    assert!(initialize(&mut hw).is_ok());
    hw
}

fn pulse(on: u32, off: u32, delay: u32) -> gpioPulse_t {
    gpioPulse_t { gpioOn: on, gpioOff: off, usDelay: delay }
}

fn train(k: u32) -> PulseTrain {
    let mut t = Vec::new();
    for i in 0..k {
        t.push(pulse(1 << (i % 32), 0, 10 + i));
    }
    t
}

#[test]
fn toggle_line_four_scenario() {
    let mut hw = live();
    let t: PulseTrain = vec![pulse(1 << 4, 0, 500), pulse(0, 1 << 4, 500)];
    assert_eq!(wave_add_generic(&mut hw, 2, &t), Ok(2));
    let id = wave_create(&mut hw).unwrap();
    assert_eq!(id, 0);
    assert_eq!(wave_tx_send_once(&mut hw, id), Ok(()));
    assert_eq!(hw.sending(), Some((id, 0)));
}

#[test]
fn mismatched_count_is_rejected() {
    let mut hw = live();
    let two = train(2);
    assert_eq!(wave_add_generic(&mut hw, 0, &two), Err(GpioError::AddFailed(None)));
    assert_eq!(wave_add_generic(&mut hw, 1, &two), Err(GpioError::AddFailed(None)));
    assert_eq!(wave_add_generic(&mut hw, 3, &two), Err(GpioError::AddFailed(None)));
    assert_eq!(wave_add_generic(&mut hw, u32::MAX, &two), Err(GpioError::AddFailed(None)));
    assert_eq!(wave_add_generic(&mut hw, 5, &Vec::new()), Err(GpioError::AddFailed(None)));
    assert_eq!(hw.pending_count(), 0);
}

#[test]
fn empty_train_is_rejected() {
    let mut hw = live();
    assert_eq!(wave_add_generic(&mut hw, 0, &Vec::new()), Err(GpioError::AddFailed(None)));
    assert_eq!(hw.pending_count(), 0);
}

#[test]
fn create_after_clear_fails() {
    let mut hw = live();
    assert_eq!(wave_add_generic(&mut hw, 3, &train(3)), Ok(3));
    assert_eq!(wave_clear(&mut hw), Ok(()));
    assert_eq!(wave_create(&mut hw), Err(GpioError::CreateFailed(-69)));
}

#[test]
fn round_trip_of_k_pulses() {
    for k in [1u32, 2, 7, 12000] {
        let mut hw = live();
        assert_eq!(wave_clear(&mut hw), Ok(()));
        assert_eq!(wave_add_generic(&mut hw, k, &train(k)), Ok(k));
        let id = wave_create(&mut hw).unwrap();
        assert_eq!(wave_tx_send_once(&mut hw, id), Ok(()));
        assert_eq!(wave_tx_send_once(&mut hw, id + 1), Err(GpioError::BadWaveId));
    }
}

#[test]
fn too_many_pulses_is_reported() {
    let mut hw = live();
    assert_eq!(wave_add_generic(&mut hw, 12000, &train(12000)), Ok(12000));
    assert_eq!(wave_add_generic(&mut hw, 1, &train(1)), Err(GpioError::TooManyPulses));
    assert_eq!(hw.pending_count(), 12000);
}

#[test]
fn pulses_accumulate_over_several_submissions() {
    let mut hw = live();
    assert_eq!(wave_add_generic(&mut hw, 2, &train(2)), Ok(2));
    assert_eq!(wave_add_generic(&mut hw, 3, &train(3)), Ok(3));
    assert_eq!(hw.pending_count(), 5);
    assert_eq!(wave_create(&mut hw), Ok(0));
    assert_eq!(hw.pending_count(), 0);
    assert_eq!(wave_add_generic(&mut hw, 1, &train(1)), Ok(1));
    assert_eq!(wave_create(&mut hw), Ok(1));
    assert_eq!(hw.wave_count(), 2);
}

#[test]
fn unrecognised_modes_are_rejected() {
    let mut hw = live();
    assert_eq!(wave_add_generic(&mut hw, 2, &train(2)), Ok(2));
    let id = wave_create(&mut hw).unwrap();
    for mode in [4u32, 5, 100, u32::MAX] {
        assert_eq!(wave_tx_send(&mut hw, id, mode), Err(GpioError::BadWaveMode));
    }
    assert_eq!(hw.sending(), None);
    for mode in [WaveMode::OneShot, WaveMode::Repeat, WaveMode::OneShotSync, WaveMode::RepeatSync] {
        assert_eq!(wave_tx_send_mode(&mut hw, id, mode), Ok(()));
        assert_eq!(hw.sending(), Some((id, mode.code())));
    }
}

#[test]
fn clear_forgets_created_waveforms() {
    let mut hw = live();
    assert_eq!(wave_add_generic(&mut hw, 2, &train(2)), Ok(2));
    let id = wave_create(&mut hw).unwrap();
    assert_eq!(wave_tx_send_once(&mut hw, id), Ok(()));
    assert_eq!(wave_clear(&mut hw), Ok(()));
    assert_eq!(wave_tx_send_once(&mut hw, id), Err(GpioError::BadWaveId));
    assert_eq!(hw.wave_count(), 0);
}

#[test]
fn waveform_store_has_a_capacity() {
    let mut hw = live();
    for i in 0u32..250 {
        assert_eq!(wave_add_generic(&mut hw, 1, &train(1)), Ok(1));
        assert_eq!(wave_create(&mut hw), Ok(i));
    }
    assert_eq!(wave_add_generic(&mut hw, 1, &train(1)), Ok(1));
    assert_eq!(wave_create(&mut hw), Err(GpioError::CreateFailed(-70)));
}
