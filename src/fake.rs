use vstd::prelude::*;
use crate::constants::{
    BAD_GPIO, BAD_LEVEL, BAD_MODE, BAD_PUD, BAD_PULSELEN, BAD_USER_GPIO, BAD_WAVE_ID, BAD_WAVE_MODE,
    BAD_WDOG_TIMEOUT, EMPTY_WAVEFORM, MAX_GPIO, MAX_MODE, MAX_PUD, MAX_TRIGGER_PULSELEN,
    MAX_USER_GPIO, MAX_WAVE_MODE, MAX_WDOG_TIMEOUT, NOT_INITIALISED, NO_WAVEFORM_ID, OK,
    TOO_MANY_PULSES,
};
use crate::hardware::HardwareInterface;
use crate::pulse::gpioPulse_t;

verus! {

/// Version the in-memory interface reports when initialised.
pub const FAKE_VERSION: i32 = 79;
/// Capacity of the pending pulse buffer.
pub const MAX_WAVE_PULSES: usize = 12000;
/// Number of waveforms that can be resident at once.
pub const MAX_WAVES: usize = 250;

/// Abstract state of [`FakeHardware`].
pub struct FakeState {
    pub live: bool,
    /// Level of each line.
    pub levels: Seq<u32>,
    /// Raw mode of each line.
    pub modes: Seq<u32>,
    /// Raw pull resistor setting of each line.
    pub puds: Seq<u32>,
    /// Registered alert of each user line.
    pub alerts: Seq<Option<u64>>,
    /// Watchdog timeout of each user line.
    pub watchdogs: Seq<u32>,
    /// Pulses submitted since the last creation or clear.
    pub pending: Seq<gpioPulse_t>,
    /// Resident waveforms; an identifier is an index.
    pub waves: Seq<Seq<gpioPulse_t>>,
    /// Waveform and raw mode of the last transmission started.
    pub sending: Option<(u32, u32)>,
}

impl FakeState {
    /// Every line and every user line has its slot, and the buffers are
    /// within capacity.
    pub open spec fn wf(self) -> bool {
        &&& self.levels.len() == MAX_GPIO + 1
        &&& self.modes.len() == MAX_GPIO + 1
        &&& self.puds.len() == MAX_GPIO + 1
        &&& self.alerts.len() == MAX_USER_GPIO + 1
        &&& self.watchdogs.len() == MAX_USER_GPIO + 1
        &&& self.pending.len() <= MAX_WAVE_PULSES
        &&& self.waves.len() <= MAX_WAVES
    }

    /// A line this state has no slot for.
    pub open spec fn bad_line(self, gpio: u32) -> bool {
        gpio > MAX_GPIO || gpio >= self.levels.len() || gpio >= self.modes.len() || gpio
            >= self.puds.len()
    }

    /// A user line this state has no slot for.
    pub open spec fn bad_user_line(self, gpio: u32) -> bool {
        gpio > MAX_USER_GPIO || gpio >= self.levels.len() || gpio >= self.alerts.len() || gpio
            >= self.watchdogs.len()
    }
}

pub open spec fn fake_initialise(s: FakeState) -> (FakeState, i32) {
    (FakeState { live: true, ..s }, FAKE_VERSION)
}

pub open spec fn fake_terminate(s: FakeState) -> FakeState {
    FakeState { live: false, pending: seq![], waves: seq![], sending: None, ..s }
}

pub open spec fn fake_set_mode(s: FakeState, gpio: u32, mode: u32) -> (FakeState, i32) {
    if !s.live {
        (s, NOT_INITIALISED)
    } else if s.bad_line(gpio) {
        (s, BAD_GPIO)
    } else if mode > MAX_MODE {
        (s, BAD_MODE)
    } else {
        (FakeState { modes: s.modes.update(gpio as int, mode), ..s }, OK)
    }
}

pub open spec fn fake_get_mode(s: FakeState, gpio: u32) -> i32 {
    if !s.live {
        NOT_INITIALISED
    } else if s.bad_line(gpio) {
        BAD_GPIO
    } else {
        s.modes[gpio as int] as i32
    }
}

pub open spec fn fake_set_pull_up_down(s: FakeState, gpio: u32, pud: u32) -> (FakeState, i32) {
    if !s.live {
        (s, NOT_INITIALISED)
    } else if s.bad_line(gpio) {
        (s, BAD_GPIO)
    } else if pud > MAX_PUD {
        (s, BAD_PUD)
    } else {
        (FakeState { puds: s.puds.update(gpio as int, pud), ..s }, OK)
    }
}

pub open spec fn fake_read(s: FakeState, gpio: u32) -> i32 {
    if !s.live {
        NOT_INITIALISED
    } else if s.bad_line(gpio) {
        BAD_GPIO
    } else {
        s.levels[gpio as int] as i32
    }
}

pub open spec fn fake_write(s: FakeState, gpio: u32, level: u32) -> (FakeState, i32) {
    if !s.live {
        (s, NOT_INITIALISED)
    } else if s.bad_line(gpio) {
        (s, BAD_GPIO)
    } else if level > 1 {
        (s, BAD_LEVEL)
    } else {
        (FakeState { levels: s.levels.update(gpio as int, level), ..s }, OK)
    }
}

pub open spec fn fake_set_alert_func(s: FakeState, gpio: u32, alert: u64) -> (FakeState, i32) {
    if !s.live {
        (s, NOT_INITIALISED)
    } else if s.bad_user_line(gpio) {
        (s, BAD_USER_GPIO)
    } else {
        (FakeState { alerts: s.alerts.update(gpio as int, Some(alert)), ..s }, OK)
    }
}

/// A trigger pulse leaves the line at the opposite of the pulse level.
pub open spec fn fake_trigger(s: FakeState, gpio: u32, pulse_len: u32, level: u32) -> (
    FakeState,
    i32,
) {
    if !s.live {
        (s, NOT_INITIALISED)
    } else if s.bad_user_line(gpio) {
        (s, BAD_USER_GPIO)
    } else if level > 1 {
        (s, BAD_LEVEL)
    } else if pulse_len > MAX_TRIGGER_PULSELEN {
        (s, BAD_PULSELEN)
    } else {
        (FakeState { levels: s.levels.update(gpio as int, (1 - level) as u32), ..s }, OK)
    }
}

pub open spec fn fake_set_watchdog(s: FakeState, gpio: u32, timeout: u32) -> (FakeState, i32) {
    if !s.live {
        (s, NOT_INITIALISED)
    } else if s.bad_user_line(gpio) {
        (s, BAD_USER_GPIO)
    } else if timeout > MAX_WDOG_TIMEOUT {
        (s, BAD_WDOG_TIMEOUT)
    } else {
        (FakeState { watchdogs: s.watchdogs.update(gpio as int, timeout), ..s }, OK)
    }
}

pub open spec fn fake_wave_clear(s: FakeState) -> (FakeState, i32) {
    if !s.live {
        (s, NOT_INITIALISED)
    } else {
        (FakeState { pending: seq![], waves: seq![], sending: None, ..s }, OK)
    }
}

pub open spec fn fake_wave_add_generic(s: FakeState, pulses: Seq<gpioPulse_t>) -> (
    FakeState,
    i32,
) {
    if !s.live {
        (s, NOT_INITIALISED)
    } else if s.pending.len() + pulses.len() > MAX_WAVE_PULSES {
        (s, TOO_MANY_PULSES)
    } else {
        (FakeState { pending: s.pending + pulses, ..s }, pulses.len() as i32)
    }
}

pub open spec fn fake_wave_create(s: FakeState) -> (FakeState, i32) {
    if !s.live {
        (s, NOT_INITIALISED)
    } else if s.pending.len() == 0 {
        (s, EMPTY_WAVEFORM)
    } else if s.waves.len() >= MAX_WAVES {
        (s, NO_WAVEFORM_ID)
    } else {
        (FakeState { pending: seq![], waves: s.waves.push(s.pending), ..s }, s.waves.len() as i32)
    }
}

pub open spec fn fake_wave_tx_send(s: FakeState, wave_id: u32, mode: u32) -> (FakeState, i32) {
    if !s.live {
        (s, NOT_INITIALISED)
    } else if wave_id >= s.waves.len() {
        (s, BAD_WAVE_ID)
    } else if mode > MAX_WAVE_MODE {
        (s, BAD_WAVE_MODE)
    } else {
        (FakeState { sending: Some((wave_id, mode)), ..s }, OK)
    }
}

/// An in-memory hardware interface that stores levels, modes, pull settings
/// and waveforms, and answers with the same status codes as the real library.
pub struct FakeHardware {
    live: bool,
    levels: Vec<u32>,
    modes: Vec<u32>,
    puds: Vec<u32>,
    alerts: Vec<Option<u64>>,
    watchdogs: Vec<u32>,
    pending: Vec<gpioPulse_t>,
    waves: Vec<Vec<gpioPulse_t>>,
    sending: Option<(u32, u32)>,
}

impl View for FakeHardware {
    type V = FakeState;

    closed spec fn view(&self) -> FakeState {
        FakeState {
            live: self.live,
            levels: self.levels@,
            modes: self.modes@,
            puds: self.puds@,
            alerts: self.alerts@,
            watchdogs: self.watchdogs@,
            pending: self.pending@,
            waves: self.waves@.map_values(|w: Vec<gpioPulse_t>| w@),
            sending: self.sending,
        }
    }
}

impl FakeHardware {
    /// A fresh interface: not initialised, every line low, input, without
    /// pull resistor, alert or watchdog, and no pulses or waveforms.
    pub fn new() -> (r: FakeHardware)
        ensures
            r@.wf(),
            !r@.live,
            r@.levels == Seq::new((MAX_GPIO + 1) as nat, |i: int| 0u32),
            r@.modes == Seq::new((MAX_GPIO + 1) as nat, |i: int| 0u32),
            r@.puds == Seq::new((MAX_GPIO + 1) as nat, |i: int| 0u32),
            r@.alerts == Seq::new((MAX_USER_GPIO + 1) as nat, |i: int| None::<u64>),
            r@.watchdogs == Seq::new((MAX_USER_GPIO + 1) as nat, |i: int| 0u32),
            r@.pending.len() == 0,
            r@.waves.len() == 0,
            r@.sending is None,
    {
        let r = FakeHardware {
            live: false,
            levels: vec![0u32; (MAX_GPIO + 1) as usize],
            modes: vec![0u32; (MAX_GPIO + 1) as usize],
            puds: vec![0u32; (MAX_GPIO + 1) as usize],
            alerts: vec![None; (MAX_USER_GPIO + 1) as usize],
            watchdogs: vec![0u32; (MAX_USER_GPIO + 1) as usize],
            pending: Vec::new(),
            waves: Vec::new(),
            sending: None,
        };
        assert(r@.levels =~= Seq::new((MAX_GPIO + 1) as nat, |i: int| 0u32));
        assert(r@.modes =~= Seq::new((MAX_GPIO + 1) as nat, |i: int| 0u32));
        assert(r@.puds =~= Seq::new((MAX_GPIO + 1) as nat, |i: int| 0u32));
        assert(r@.alerts =~= Seq::new((MAX_USER_GPIO + 1) as nat, |i: int| None::<u64>));
        assert(r@.watchdogs =~= Seq::new((MAX_USER_GPIO + 1) as nat, |i: int| 0u32));
        r
    }

    /// Number of resident waveforms.
    pub fn wave_count(&self) -> (r: usize)
        ensures
            r == self@.waves.len(),
    {
        self.waves.len()
    }

    /// Number of pulses waiting for a waveform to be created.
    pub fn pending_count(&self) -> (r: usize)
        ensures
            r == self@.pending.len(),
    {
        self.pending.len()
    }

    /// Waveform and raw mode of the last transmission started.
    pub fn sending(&self) -> (r: Option<(u32, u32)>)
        ensures
            r == self@.sending,
    {
        self.sending
    }

    fn bad_line(&self, gpio: u32) -> (r: bool)
        ensures
            r == self@.bad_line(gpio),
    {
        gpio > MAX_GPIO || gpio as usize >= self.levels.len() || gpio as usize >= self.modes.len()
            || gpio as usize >= self.puds.len()
    }

    fn bad_user_line(&self, gpio: u32) -> (r: bool)
        ensures
            r == self@.bad_user_line(gpio),
    {
        gpio > MAX_USER_GPIO || gpio as usize >= self.levels.len() || gpio as usize
            >= self.alerts.len() || gpio as usize >= self.watchdogs.len()
    }
}

impl HardwareInterface for FakeHardware {
    type Alert = u64;

    open spec fn live(&self) -> bool {
        self@.live
    }

    open spec fn initialise_spec(&self, post: Self, r: i32) -> bool {
        (post@, r) == fake_initialise(self@)
    }

    open spec fn terminate_spec(&self, post: Self) -> bool {
        post@ == fake_terminate(self@)
    }

    open spec fn set_mode_spec(&self, gpio: u32, mode: u32, post: Self, r: i32) -> bool {
        (post@, r) == fake_set_mode(self@, gpio, mode)
    }

    open spec fn get_mode_spec(&self, gpio: u32, post: Self, r: i32) -> bool {
        post@ == self@ && r == fake_get_mode(self@, gpio)
    }

    open spec fn pud_spec(&self, gpio: u32, pud: u32, post: Self, r: i32) -> bool {
        (post@, r) == fake_set_pull_up_down(self@, gpio, pud)
    }

    open spec fn read_spec(&self, gpio: u32, post: Self, r: i32) -> bool {
        post@ == self@ && r == fake_read(self@, gpio)
    }

    open spec fn write_spec(&self, gpio: u32, level: u32, post: Self, r: i32) -> bool {
        (post@, r) == fake_write(self@, gpio, level)
    }

    /// Waits no time at all and reports the requested time as waited.
    open spec fn delay_spec(&self, micros: u32, post: Self, r: u32) -> bool {
        post@ == self@ && r == micros
    }

    open spec fn alert_spec(&self, user_gpio: u32, alert: u64, post: Self, r: i32) -> bool {
        (post@, r) == fake_set_alert_func(self@, user_gpio, alert)
    }

    open spec fn trigger_spec(&self, user_gpio: u32, pulse_len: u32, level: u32, post: Self, r: i32) -> bool {
        (post@, r) == fake_trigger(self@, user_gpio, pulse_len, level)
    }

    open spec fn watchdog_spec(&self, user_gpio: u32, timeout: u32, post: Self, r: i32) -> bool {
        (post@, r) == fake_set_watchdog(self@, user_gpio, timeout)
    }

    open spec fn wave_clear_spec(&self, post: Self, r: i32) -> bool {
        (post@, r) == fake_wave_clear(self@)
    }

    open spec fn wave_add_spec(&self, pulses: Seq<gpioPulse_t>, post: Self, r: i32) -> bool {
        (post@, r) == fake_wave_add_generic(self@, pulses)
    }

    open spec fn wave_create_spec(&self, post: Self, r: i32) -> bool {
        (post@, r) == fake_wave_create(self@)
    }

    open spec fn tx_send_spec(&self, wave_id: u32, wave_mode: u32, post: Self, r: i32) -> bool {
        (post@, r) == fake_wave_tx_send(self@, wave_id, wave_mode)
    }

    fn gpio_initialise(&mut self) -> (r: i32) {
        self.live = true;
        FAKE_VERSION
    }

    fn gpio_terminate(&mut self) {
        self.live = false;
        self.pending = Vec::new();
        self.waves = Vec::new();
        self.sending = None;
        assert(self@.waves =~= Seq::<Seq<gpioPulse_t>>::empty());
    }

    fn gpio_set_mode(&mut self, gpio: u32, mode: u32) -> (r: i32) {
        if !self.live {
            NOT_INITIALISED
        } else if self.bad_line(gpio) {
            BAD_GPIO
        } else if mode > MAX_MODE {
            BAD_MODE
        } else {
            self.modes[gpio as usize] = mode;
            OK
        }
    }

    fn gpio_get_mode(&mut self, gpio: u32) -> (r: i32) {
        if !self.live {
            NOT_INITIALISED
        } else if self.bad_line(gpio) {
            BAD_GPIO
        } else {
            self.modes[gpio as usize] as i32
        }
    }

    fn gpio_set_pull_up_down(&mut self, gpio: u32, pud: u32) -> (r: i32) {
        if !self.live {
            NOT_INITIALISED
        } else if self.bad_line(gpio) {
            BAD_GPIO
        } else if pud > MAX_PUD {
            BAD_PUD
        } else {
            self.puds[gpio as usize] = pud;
            OK
        }
    }

    fn gpio_read(&mut self, gpio: u32) -> (r: i32) {
        if !self.live {
            NOT_INITIALISED
        } else if self.bad_line(gpio) {
            BAD_GPIO
        } else {
            self.levels[gpio as usize] as i32
        }
    }

    fn gpio_write(&mut self, gpio: u32, level: u32) -> (r: i32) {
        if !self.live {
            NOT_INITIALISED
        } else if self.bad_line(gpio) {
            BAD_GPIO
        } else if level > 1 {
            BAD_LEVEL
        } else {
            self.levels[gpio as usize] = level;
            OK
        }
    }

    fn gpio_delay(&mut self, micros: u32) -> (r: u32) {
        micros
    }

    fn gpio_set_alert_func(&mut self, user_gpio: u32, alert: u64) -> (r: i32) {
        if !self.live {
            NOT_INITIALISED
        } else if self.bad_user_line(user_gpio) {
            BAD_USER_GPIO
        } else {
            self.alerts[user_gpio as usize] = Some(alert);
            OK
        }
    }

    fn gpio_trigger(&mut self, user_gpio: u32, pulse_len: u32, level: u32) -> (r: i32) {
        if !self.live {
            NOT_INITIALISED
        } else if self.bad_user_line(user_gpio) {
            BAD_USER_GPIO
        } else if level > 1 {
            BAD_LEVEL
        } else if pulse_len > MAX_TRIGGER_PULSELEN {
            BAD_PULSELEN
        } else {
            self.levels[user_gpio as usize] = 1 - level;
            OK
        }
    }

    fn gpio_set_watchdog(&mut self, user_gpio: u32, timeout: u32) -> (r: i32) {
        if !self.live {
            NOT_INITIALISED
        } else if self.bad_user_line(user_gpio) {
            BAD_USER_GPIO
        } else if timeout > MAX_WDOG_TIMEOUT {
            BAD_WDOG_TIMEOUT
        } else {
            self.watchdogs[user_gpio as usize] = timeout;
            OK
        }
    }

    fn gpio_wave_clear(&mut self) -> (r: i32) {
        if !self.live {
            NOT_INITIALISED
        } else {
            self.pending = Vec::new();
            self.waves = Vec::new();
            self.sending = None;
            assert(self@.waves =~= Seq::<Seq<gpioPulse_t>>::empty());
            OK
        }
    }

    fn gpio_wave_add_generic(&mut self, pulses: &[gpioPulse_t]) -> (r: i32) {
        if !self.live {
            return NOT_INITIALISED;
        }
        if self.pending.len() > MAX_WAVE_PULSES || pulses.len() > MAX_WAVE_PULSES
            - self.pending.len() {
            return TOO_MANY_PULSES;
        }
        let ghost start = self.pending@;
        let mut i: usize = 0;
        while i < pulses.len()
            invariant
                i <= pulses@.len(),
                self.pending@ == start + pulses@.subrange(0, i as int),
                self.live == old(self).live,
                self.levels == old(self).levels,
                self.modes == old(self).modes,
                self.puds == old(self).puds,
                self.alerts == old(self).alerts,
                self.watchdogs == old(self).watchdogs,
                self.waves == old(self).waves,
                self.sending == old(self).sending,
                start == old(self)@.pending,
            decreases pulses@.len() - i,
        {
            self.pending.push(pulses[i]);
            i = i + 1;
            assert(self.pending@ =~= start + pulses@.subrange(0, i as int));
        }
        assert(pulses@.subrange(0, pulses@.len() as int) =~= pulses@);
        pulses.len() as i32
    }

    fn gpio_wave_create(&mut self) -> (r: i32) {
        if !self.live {
            NOT_INITIALISED
        } else if self.pending.len() == 0 {
            EMPTY_WAVEFORM
        } else if self.waves.len() >= MAX_WAVES {
            NO_WAVEFORM_ID
        } else {
            let mut wave: Vec<gpioPulse_t> = Vec::new();
            std::mem::swap(&mut wave, &mut self.pending);
            let id = self.waves.len();
            self.waves.push(wave);
            assert(self@.waves =~= old(self)@.waves.push(old(self)@.pending));
            assert(self@.pending =~= Seq::<gpioPulse_t>::empty());
            id as i32
        }
    }

    fn gpio_wave_tx_send(&mut self, wave_id: u32, wave_mode: u32) -> (r: i32) {
        if !self.live {
            NOT_INITIALISED
        } else if wave_id as usize >= self.waves.len() {
            BAD_WAVE_ID
        } else if wave_mode > MAX_WAVE_MODE {
            BAD_WAVE_MODE
        } else {
            self.sending = Some((wave_id, wave_mode));
            OK
        }
    }
}

} // verus!
