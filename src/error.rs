use vstd::prelude::*;
use vstd::string::StringExecFns;

verus! {

/// What went wrong in a call to the hardware interface.
///
/// Variants that carry an `i32` keep the raw status code for diagnostics.
#[derive(Debug, Clone, Copy, PartialEq, Eq, Structural)]
pub enum GpioError {
    InitFailed,
    BadUserGpio,
    BadGpio,
    BadMode,
    BadLevel,
    BadPud,
    BadWaveId,
    BadWaveMode,
    TooManyPulses,
    ClearFailed,
    /// Pulses were refused: `None` when the train was rejected before it
    /// reached the interface (empty, or not of the declared length).
    AddFailed(Option<i32>),
    CreateFailed(i32),
    Unknown(i32),
}

/// Outcome of an operation that yields no value.
pub type GpioResult = Result<(), GpioError>;

/// Outcome of an operation that yields a count, an identifier or a level.
pub type GpioResponse = Result<u32, GpioError>;

/// The character of a decimal digit.
pub open spec fn digit_char(d: nat) -> char {
    if d == 0 { '0' }
    else if d == 1 { '1' }
    else if d == 2 { '2' }
    else if d == 3 { '3' }
    else if d == 4 { '4' }
    else if d == 5 { '5' }
    else if d == 6 { '6' }
    else if d == 7 { '7' }
    else if d == 8 { '8' }
    else { '9' }
}

/// The decimal digits of `n`, most significant first, without leading zeros.
pub open spec fn decimal(n: nat) -> Seq<char>
    decreases n,
{
    if n < 10 {
        seq![digit_char(n)]
    } else {
        decimal(n / 10).push(digit_char(n % 10))
    }
}

/// A status code written in decimal, with a minus sign when negative.
pub open spec fn code_text(code: i32) -> Seq<char> {
    if code < 0 {
        seq!['-'] + decimal((-code) as nat)
    } else {
        decimal(code as nat)
    }
}

fn digit_str(d: u32) -> (r: &'static str)
    requires
        d < 10,
    ensures
        r@ == seq![digit_char(d as nat)],
{
    proof {
        reveal_strlit("0");
        reveal_strlit("1");
        reveal_strlit("2");
        reveal_strlit("3");
        reveal_strlit("4");
        reveal_strlit("5");
        reveal_strlit("6");
        reveal_strlit("7");
        reveal_strlit("8");
        reveal_strlit("9");
    }
    match d {
        0 => "0",
        1 => "1",
        2 => "2",
        3 => "3",
        4 => "4",
        5 => "5",
        6 => "6",
        7 => "7",
        8 => "8",
        _ => "9",
    }
}

fn append_decimal(s: &mut String, n: u32)
    ensures
        final(s)@ == old(s)@ + decimal(n as nat),
    decreases n,
{
    if n >= 10 {
        append_decimal(s, n / 10);
    }
    s.append(digit_str(n % 10));
    assert(s@ =~= old(s)@ + decimal(n as nat));
}

/// Appends `code` in decimal to `s`.
fn append_code(s: &mut String, code: i32)
    ensures
        final(s)@ == old(s)@ + code_text(code),
{
    if code < 0 {
        proof { reveal_strlit("-"); }
        s.append("-");
        append_decimal(s, (-(code as i64)) as u32);
        assert(s@ =~= old(s)@ + code_text(code));
    } else {
        append_decimal(s, code as u32);
    }
}

impl GpioError {
    pub open spec fn spec_message(self) -> Seq<char> {
        match self {
            GpioError::InitFailed => "Initialize failed"@,
            GpioError::BadUserGpio => "Bad user gpio"@,
            GpioError::BadGpio => "Bad gpio"@,
            GpioError::BadMode => "Bad mode"@,
            GpioError::BadLevel => "Bad level"@,
            GpioError::BadPud => "Bad pud"@,
            GpioError::BadWaveId => "Invalid wave id in call to gpioWaveTxSend"@,
            GpioError::BadWaveMode => "Invalid mode in call to gpioWaveTxSend"@,
            GpioError::TooManyPulses => "Too many pulses in call to gpioWaveAddGeneric"@,
            GpioError::ClearFailed => "Error clearing in call to gpioWaveClear"@,
            GpioError::AddFailed(None) => "Add waveform failed (pulse count mismatch)"@,
            GpioError::AddFailed(Some(code)) => "Add waveform failed (unknown "@ + code_text(code)
                + ")"@,
            GpioError::CreateFailed(code) => "Can't create wave ("@ + code_text(code) + ")"@,
            GpioError::Unknown(_) => "Unknown error."@,
        }
    }

    /// A human-readable description of the error.
    pub fn message(&self) -> (r: String)
        ensures
            r@ == self.spec_message(),
    {
        match self {
            GpioError::InitFailed => "Initialize failed".to_string(),
            GpioError::BadUserGpio => "Bad user gpio".to_string(),
            GpioError::BadGpio => "Bad gpio".to_string(),
            GpioError::BadMode => "Bad mode".to_string(),
            GpioError::BadLevel => "Bad level".to_string(),
            GpioError::BadPud => "Bad pud".to_string(),
            GpioError::BadWaveId => "Invalid wave id in call to gpioWaveTxSend".to_string(),
            GpioError::BadWaveMode => "Invalid mode in call to gpioWaveTxSend".to_string(),
            GpioError::TooManyPulses => "Too many pulses in call to gpioWaveAddGeneric".to_string(),
            GpioError::ClearFailed => "Error clearing in call to gpioWaveClear".to_string(),
            GpioError::AddFailed(None) => "Add waveform failed (pulse count mismatch)".to_string(),
            GpioError::AddFailed(Some(code)) => {
                let mut m = "Add waveform failed (unknown ".to_string();
                append_code(&mut m, *code);
                m.append(")");
                m
            },
            GpioError::CreateFailed(code) => {
                let mut m = "Can't create wave (".to_string();
                append_code(&mut m, *code);
                m.append(")");
                m
            },
            GpioError::Unknown(_) => "Unknown error.".to_string(),
        }
    }
}

} // verus!
