use vstd::prelude::*;
use crate::constants::{
    GpioMode, Level, EMPTY_WAVEFORM, MAX_GPIO, MAX_USER_GPIO, MAX_WAVE_MODE, WAVE_MODE_ONE_SHOT,
};
use crate::error::GpioError;
use crate::hardware::HardwareInterface;
use crate::fake::{FakeHardware, MAX_WAVES, MAX_WAVE_PULSES};
use crate::pulse::gpioPulse_t;
use crate::status::{
    add_outcome, alert_outcome, clear_outcome, create_outcome, get_mode_outcome, pud_outcome,
    read_outcome, send_outcome, set_mode_outcome, trigger_outcome, watchdog_outcome,
    write_outcome,
};

verus! {

/// On a live interface, every line operation on a line beyond the supported
/// range fails with `BadGpio` and leaves the interface as it was.
pub proof fn lemma_unsupported_line_rejected(h: FakeHardware, gpio: u32)
    requires
        h@.wf(),
        h@.live,
        gpio > MAX_GPIO,
    ensures
        forall|mode: u32, post: FakeHardware, c: i32| #[trigger]
            h.set_mode_spec(gpio, mode, post, c) ==> post@ == h@ && set_mode_outcome(c) == Err::<
                (),
                GpioError,
            >(GpioError::BadGpio),
        forall|post: FakeHardware, c: i32| #[trigger]
            h.get_mode_spec(gpio, post, c) ==> post@ == h@ && get_mode_outcome(c) == Err::<
                u32,
                GpioError,
            >(GpioError::BadGpio),
        forall|pud: u32, post: FakeHardware, c: i32| #[trigger]
            h.pud_spec(gpio, pud, post, c) ==> post@ == h@ && pud_outcome(c) == Err::<
                (),
                GpioError,
            >(GpioError::BadGpio),
        forall|post: FakeHardware, c: i32| #[trigger]
            h.read_spec(gpio, post, c) ==> post@ == h@ && read_outcome(c) == Err::<
                u32,
                GpioError,
            >(GpioError::BadGpio),
        forall|level: u32, post: FakeHardware, c: i32| #[trigger]
            h.write_spec(gpio, level, post, c) ==> post@ == h@ && write_outcome(c) == Err::<
                (),
                GpioError,
            >(GpioError::BadGpio),
{
}

/// On a live interface, alerts, trigger pulses and watchdogs on a line beyond
/// the user range fail with `BadUserGpio` and leave the interface as it was.
pub proof fn lemma_unsupported_user_line_rejected(h: FakeHardware, gpio: u32)
    requires
        h@.wf(),
        h@.live,
        gpio > MAX_USER_GPIO,
    ensures
        forall|alert: u64, post: FakeHardware, c: i32| #[trigger]
            h.alert_spec(gpio, alert, post, c) ==> post@ == h@ && alert_outcome(c) == Err::<
                (),
                GpioError,
            >(GpioError::BadUserGpio),
        forall|pulse_len: u32, level: u32, post: FakeHardware, c: i32| #[trigger]
            h.trigger_spec(gpio, pulse_len, level, post, c) ==> post@ == h@ && trigger_outcome(c)
                == Err::<(), GpioError>(GpioError::BadUserGpio),
        forall|timeout: u32, post: FakeHardware, c: i32| #[trigger]
            h.watchdog_spec(gpio, timeout, post, c) ==> post@ == h@ && watchdog_outcome(c)
                == Err::<(), GpioError>(GpioError::BadUserGpio),
{
}

/// Writing a level to a supported line succeeds, and reading the line right
/// after answers that level: 1 for on, 0 for off. No other line changes.
pub proof fn lemma_write_then_read(
    h0: FakeHardware,
    h1: FakeHardware,
    h2: FakeHardware,
    gpio: u32,
    level: Level,
    write_code: i32,
    read_code: i32,
)
    requires
        h0@.wf(),
        h0@.live,
        gpio <= MAX_GPIO,
        h0.write_spec(gpio, level.code(), h1, write_code),
        h1.read_spec(gpio, h2, read_code),
    ensures
        write_outcome(write_code) == Ok::<(), GpioError>(()),
        read_outcome(read_code) == Ok::<u32, GpioError>(level.code()),
        level == Level::ON ==> read_outcome(read_code) == Ok::<u32, GpioError>(1),
        level == Level::OFF ==> read_outcome(read_code) == Ok::<u32, GpioError>(0),
        forall|i: int| 0 <= i < h0@.levels.len() && i != gpio ==> h2@.levels[i] == h0@.levels[i],
{
}

/// Reading the mode of a line right after setting it answers that mode.
pub proof fn lemma_set_mode_then_get_mode(
    h0: FakeHardware,
    h1: FakeHardware,
    h2: FakeHardware,
    gpio: u32,
    mode: GpioMode,
    set_code: i32,
    get_code: i32,
)
    requires
        h0@.wf(),
        h0@.live,
        gpio <= MAX_GPIO,
        h0.set_mode_spec(gpio, mode.code(), h1, set_code),
        h1.get_mode_spec(gpio, h2, get_code),
    ensures
        set_mode_outcome(set_code) == Ok::<(), GpioError>(()),
        get_mode_outcome(get_code) == Ok::<u32, GpioError>(mode.code()),
{
}

/// Creating a waveform right after clearing the store fails, carrying the
/// negative answer, and no waveform becomes resident.
pub proof fn lemma_create_after_clear_fails(
    h0: FakeHardware,
    h1: FakeHardware,
    h2: FakeHardware,
    clear_code: i32,
    create_code: i32,
)
    requires
        h0@.live,
        h0.wave_clear_spec(h1, clear_code),
        h1.wave_create_spec(h2, create_code),
    ensures
        clear_outcome(clear_code) == Ok::<(), GpioError>(()),
        create_code < 0,
        create_outcome(create_code) == Err::<u32, GpioError>(GpioError::CreateFailed(EMPTY_WAVEFORM)),
        h2@ == h1@,
        h2@.waves.len() == 0,
{
}

/// On a cleared store, submitting a non-empty train of k pulses answers k,
/// creating then answers a non-negative identifier for a waveform holding
/// exactly those pulses, sending it once succeeds, and sending the next
/// identifier, which was never created, fails with `BadWaveId`.
pub proof fn lemma_round_trip(
    h0: FakeHardware,
    h1: FakeHardware,
    h2: FakeHardware,
    h3: FakeHardware,
    h4: FakeHardware,
    h5: FakeHardware,
    pulses: Seq<gpioPulse_t>,
    codes: (i32, i32, i32, i32, i32),
)
    requires
        h0@.wf(),
        h0@.live,
        0 < pulses.len() <= MAX_WAVE_PULSES,
        h0.wave_clear_spec(h1, codes.0),
        h1.wave_add_spec(pulses, h2, codes.1),
        h2.wave_create_spec(h3, codes.2),
        h3.tx_send_spec(codes.2 as u32, WAVE_MODE_ONE_SHOT, h4, codes.3),
        h3.tx_send_spec((codes.2 + 1) as u32, WAVE_MODE_ONE_SHOT, h5, codes.4),
    ensures
        add_outcome(pulses.len() as u32, codes.1) == Ok::<u32, GpioError>(pulses.len() as u32),
        codes.2 >= 0,
        create_outcome(codes.2) == Ok::<u32, GpioError>(codes.2 as u32),
        h3@.waves[codes.2 as int] == pulses,
        send_outcome(codes.3) == Ok::<(), GpioError>(()),
        send_outcome(codes.4) == Err::<(), GpioError>(GpioError::BadWaveId),
{
    assert(h1@.pending + pulses =~= pulses);
}

/// Submitting pulses leaves the resident waveforms as they were and appends
/// the pulses to the pending buffer when there is room; creating then makes a
/// waveform of everything pending.
pub proof fn lemma_add_then_create(
    h0: FakeHardware,
    h1: FakeHardware,
    h2: FakeHardware,
    pulses: Seq<gpioPulse_t>,
    add_code: i32,
    create_code: i32,
)
    requires
        h0@.wf(),
        h0@.live,
        h0@.pending.len() + pulses.len() <= MAX_WAVE_PULSES,
        h0@.waves.len() < MAX_WAVES,
        h0.wave_add_spec(pulses, h1, add_code),
        h1.wave_create_spec(h2, create_code),
    ensures
        add_code == pulses.len(),
        h1@.waves == h0@.waves,
        h1@.pending == h0@.pending + pulses,
        h1@.pending.len() > 0 ==> create_code == h0@.waves.len() && h2@.waves == h0@.waves.push(
            h0@.pending + pulses,
        ) && h2@.pending.len() == 0,
{
}

/// Sending a resident waveform in a mode outside the four recognised ones
/// fails with `BadWaveMode` and starts nothing.
pub proof fn lemma_unrecognised_mode_rejected(
    h0: FakeHardware,
    h1: FakeHardware,
    wave_id: u32,
    mode: u32,
    code: i32,
)
    requires
        h0@.live,
        wave_id < h0@.waves.len(),
        mode > MAX_WAVE_MODE,
        h0.tx_send_spec(wave_id, mode, h1, code),
    ensures
        send_outcome(code) == Err::<(), GpioError>(GpioError::BadWaveMode),
        h1@ == h0@,
{
}

/// On a live interface, sending fails with `BadWaveId` exactly when the
/// identifier is not resident.
pub proof fn lemma_bad_wave_id_iff_not_resident(
    h0: FakeHardware,
    h1: FakeHardware,
    wave_id: u32,
    mode: u32,
    code: i32,
)
    requires
        h0@.live,
        h0.tx_send_spec(wave_id, mode, h1, code),
    ensures
        (send_outcome(code) == Err::<(), GpioError>(GpioError::BadWaveId)) <==> wave_id
            >= h0@.waves.len(),
{
}

/// After the store is cleared no identifier is resident: sending any of them
/// fails with `BadWaveId`.
pub proof fn lemma_clear_forgets_waveforms(
    h0: FakeHardware,
    h1: FakeHardware,
    h2: FakeHardware,
    wave_id: u32,
    clear_code: i32,
    send_code: i32,
)
    requires
        h0@.live,
        h0.wave_clear_spec(h1, clear_code),
        h1.tx_send_spec(wave_id, WAVE_MODE_ONE_SHOT, h2, send_code),
    ensures
        clear_outcome(clear_code) == Ok::<(), GpioError>(()),
        send_outcome(send_code) == Err::<(), GpioError>(GpioError::BadWaveId),
{
}

/// Every operation of the in-memory interface keeps its state well formed, so
/// the laws above, which assume a well-formed state, apply to every state an
/// interface made by `FakeHardware::new` can reach.
pub proof fn lemma_operations_preserve_wf(h: FakeHardware)
    requires
        h@.wf(),
    ensures
        forall|post: FakeHardware, c: i32| #[trigger] h.initialise_spec(post, c) ==> post@.wf(),
        forall|post: FakeHardware| #[trigger] h.terminate_spec(post) ==> post@.wf(),
        forall|g: u32, v: u32, post: FakeHardware, c: i32| #[trigger]
            h.set_mode_spec(g, v, post, c) ==> post@.wf(),
        forall|g: u32, post: FakeHardware, c: i32| #[trigger]
            h.get_mode_spec(g, post, c) ==> post@.wf(),
        forall|g: u32, v: u32, post: FakeHardware, c: i32| #[trigger]
            h.pud_spec(g, v, post, c) ==> post@.wf(),
        forall|g: u32, post: FakeHardware, c: i32| #[trigger] h.read_spec(g, post, c) ==> post@.wf(),
        forall|g: u32, v: u32, post: FakeHardware, c: i32| #[trigger]
            h.write_spec(g, v, post, c) ==> post@.wf(),
        forall|m: u32, post: FakeHardware, c: u32| #[trigger] h.delay_spec(m, post, c) ==> post@.wf(),
        forall|g: u32, a: u64, post: FakeHardware, c: i32| #[trigger]
            h.alert_spec(g, a, post, c) ==> post@.wf(),
        forall|g: u32, v: u32, l: u32, post: FakeHardware, c: i32| #[trigger]
            h.trigger_spec(g, v, l, post, c) ==> post@.wf(),
        forall|g: u32, v: u32, post: FakeHardware, c: i32| #[trigger]
            h.watchdog_spec(g, v, post, c) ==> post@.wf(),
        forall|post: FakeHardware, c: i32| #[trigger] h.wave_clear_spec(post, c) ==> post@.wf(),
        forall|p: Seq<gpioPulse_t>, post: FakeHardware, c: i32| #[trigger]
            h.wave_add_spec(p, post, c) ==> post@.wf(),
        forall|post: FakeHardware, c: i32| #[trigger] h.wave_create_spec(post, c) ==> post@.wf(),
        forall|w: u32, v: u32, post: FakeHardware, c: i32| #[trigger]
            h.tx_send_spec(w, v, post, c) ==> post@.wf(),
{
}

} // verus!
