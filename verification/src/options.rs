//! The validated configuration that the fault trigger consumes, and the
//! parser for one signal number.

use vstd::prelude::*;

verus! {

/// The smallest signal number that a configuration may name.
pub const SIGNAL_MIN: u8 = 1;

/// The largest signal number that a configuration may name.
pub const SIGNAL_MAX: u8 = 31;

/// The offset between a signal number and the exit status that stands for it.
pub const SIGNAL_BASE: u8 = 128;

/// The text of the error for a number that is no signal.
pub const SIGNAL_RANGE_MESSAGE: &'static str = "Signals must be in range 1 to 31 (inclusive)";

/// Whether `signal` is a signal number that a configuration may name.
pub open spec fn is_signal(signal: u8) -> bool {
    SIGNAL_MIN <= signal <= SIGNAL_MAX
}

/// The part of a run's configuration that decides its exit status.
///
/// `exit_codes` are statuses to end with as they are; `signal` holds signal
/// numbers, each of which stands for the status 128 plus the number; each flag
/// names one signal in the same way.
#[derive(Debug, Clone)]
pub struct Opts {
    /// Exit with one of these codes.
    pub exit_codes: Vec<u8>,
    /// Arbitrary signals, each in the range 1 to 31.
    pub signal: Vec<u8>,
    /// Hang up controlling terminal or process (signal 1).
    pub sighup: bool,
    /// Interrupt from keyboard (signal 2).
    pub sigint: bool,
    /// Quit from keyboard (signal 3).
    pub sigquit: bool,
    /// Illegal instruction (signal 4).
    pub sigill: bool,
    /// Breakpoint for debugging (signal 5).
    pub sigtrap: bool,
    /// Abnormal termination (signal 6).
    pub sigabrt: bool,
    /// Equivalent to `sigabrt` (signal 6).
    pub sigiot: bool,
    /// Bus error (signal 7).
    pub sigbus: bool,
    /// Floating-point exception (signal 8).
    pub sigfpe: bool,
    /// Forced process termination (signal 9).
    pub sigkill: bool,
    /// Freely available to processes (signal 10).
    pub sigusr1: bool,
    /// Invalid memory reference (signal 11).
    pub sigsegv: bool,
    /// Freely available to processes (signal 12).
    pub sigusr2: bool,
    /// Write to pipe with no readers (signal 13).
    pub sigpipe: bool,
    /// Real-time clock (signal 14).
    pub sigalrm: bool,
    /// Process termination (signal 15).
    pub sigterm: bool,
    /// Coprocessor stack error (signal 16).
    pub sigstkflt: bool,
    /// Child process stopped or terminated (signal 17).
    pub sigchld: bool,
    /// CPU time limit exceeded (signal 24).
    pub sigxcpu: bool,
    /// File size limit exceeded (signal 25).
    pub sigxfsz: bool,
    /// Virtual timer clock (signal 26).
    pub sigvtalrm: bool,
    /// Profile timer clock (signal 27).
    pub sigprof: bool,
    /// I/O now possible (signal 29).
    pub sigio: bool,
    /// Equivalent to `sigio` (signal 29).
    pub sigpoll: bool,
    /// Power supply failure (signal 30).
    pub sigpwr: bool,
    /// Bad system call (signal 31).
    pub sigsys: bool,
    /// Equivalent to `sigsys` (signal 31).
    pub sigunused: bool,
}

impl Opts {
    /// Whether one of the flags that are set names `signal`.
    pub open spec fn flag_raises(&self, signal: u8) -> bool {
        ||| signal == 1 && self.sighup
        ||| signal == 2 && self.sigint
        ||| signal == 3 && self.sigquit
        ||| signal == 4 && self.sigill
        ||| signal == 5 && self.sigtrap
        ||| signal == 6 && self.sigabrt
        ||| signal == 6 && self.sigiot
        ||| signal == 7 && self.sigbus
        ||| signal == 8 && self.sigfpe
        ||| signal == 9 && self.sigkill
        ||| signal == 10 && self.sigusr1
        ||| signal == 11 && self.sigsegv
        ||| signal == 12 && self.sigusr2
        ||| signal == 13 && self.sigpipe
        ||| signal == 14 && self.sigalrm
        ||| signal == 15 && self.sigterm
        ||| signal == 16 && self.sigstkflt
        ||| signal == 17 && self.sigchld
        ||| signal == 24 && self.sigxcpu
        ||| signal == 25 && self.sigxfsz
        ||| signal == 26 && self.sigvtalrm
        ||| signal == 27 && self.sigprof
        ||| signal == 29 && self.sigio
        ||| signal == 29 && self.sigpoll
        ||| signal == 30 && self.sigpwr
        ||| signal == 31 && self.sigsys
        ||| signal == 31 && self.sigunused
    }

    /// Whether no flag is set.
    pub open spec fn no_flags(&self) -> bool {
        &&& !self.sighup
        &&& !self.sigint
        &&& !self.sigquit
        &&& !self.sigill
        &&& !self.sigtrap
        &&& !self.sigabrt
        &&& !self.sigiot
        &&& !self.sigbus
        &&& !self.sigfpe
        &&& !self.sigkill
        &&& !self.sigusr1
        &&& !self.sigsegv
        &&& !self.sigusr2
        &&& !self.sigpipe
        &&& !self.sigalrm
        &&& !self.sigterm
        &&& !self.sigstkflt
        &&& !self.sigchld
        &&& !self.sigxcpu
        &&& !self.sigxfsz
        &&& !self.sigvtalrm
        &&& !self.sigprof
        &&& !self.sigio
        &&& !self.sigpoll
        &&& !self.sigpwr
        &&& !self.sigsys
        &&& !self.sigunused
    }

    /// Whether the configuration names `signal`, by number or by flag.
    pub open spec fn raises(&self, signal: u8) -> bool {
        self.signal@.contains(signal) || self.flag_raises(signal)
    }

    /// Every signal given by number is a signal number.
    pub open spec fn wf(&self) -> bool {
        forall|i: int| 0 <= i < self.signal@.len() ==> is_signal(#[trigger] self.signal@[i])
    }

    /// The exit statuses that stand for the signals of the configuration:
    /// the codes above `SIGNAL_BASE` whose distance from it is a signal that
    /// the configuration names.
    pub open spec fn signal_codes(&self) -> Set<u8> {
        Set::new(|code: u8| code > SIGNAL_BASE && self.raises((code - SIGNAL_BASE) as u8))
    }

    /// The candidate exit statuses: the explicit codes together with the
    /// statuses of the signals.
    pub open spec fn candidate_codes(&self) -> Set<u8> {
        self.exit_codes@.to_set().union(self.signal_codes())
    }

    /// Tells whether one of the flags that are set names `signal`.
    pub fn flag_raised(&self, signal: u8) -> (raised: bool)
        ensures
            raised == self.flag_raises(signal),
    {
        match signal {
            1 => self.sighup,
            2 => self.sigint,
            3 => self.sigquit,
            4 => self.sigill,
            5 => self.sigtrap,
            6 => self.sigabrt || self.sigiot,
            7 => self.sigbus,
            8 => self.sigfpe,
            9 => self.sigkill,
            10 => self.sigusr1,
            11 => self.sigsegv,
            12 => self.sigusr2,
            13 => self.sigpipe,
            14 => self.sigalrm,
            15 => self.sigterm,
            16 => self.sigstkflt,
            17 => self.sigchld,
            24 => self.sigxcpu,
            25 => self.sigxfsz,
            26 => self.sigvtalrm,
            27 => self.sigprof,
            29 => self.sigio || self.sigpoll,
            30 => self.sigpwr,
            31 => self.sigsys || self.sigunused,
            _ => false,
        }
    }

    /// Tells whether every signal given by number is in the range 1 to 31.
    pub fn is_valid(&self) -> (valid: bool)
        ensures
            valid == self.wf(),
    {
        let mut i: usize = 0;
        while i < self.signal.len()
            invariant
                i <= self.signal@.len(),
                forall|j: int| 0 <= j < i ==> is_signal(#[trigger] self.signal@[j]),
            decreases self.signal@.len() - i,
        {
            let signal: u8 = self.signal[i];
            if signal < SIGNAL_MIN || signal > SIGNAL_MAX {
                return false;
            }
            i += 1;
        }
        true
    }
}

impl Default for Opts {
    /// The configuration that names no code and no signal.
    fn default() -> (opts: Opts)
        ensures
            opts.exit_codes@ == Seq::<u8>::empty(),
            opts.signal@ == Seq::<u8>::empty(),
            opts.no_flags(),
            opts.wf(),
            opts.candidate_codes() == Set::<u8>::empty(),
    {
        let opts = Opts {
            exit_codes: Vec::new(),
            signal: Vec::new(),
            sighup: false,
            sigint: false,
            sigquit: false,
            sigill: false,
            sigtrap: false,
            sigabrt: false,
            sigiot: false,
            sigbus: false,
            sigfpe: false,
            sigkill: false,
            sigusr1: false,
            sigsegv: false,
            sigusr2: false,
            sigpipe: false,
            sigalrm: false,
            sigterm: false,
            sigstkflt: false,
            sigchld: false,
            sigxcpu: false,
            sigxfsz: false,
            sigvtalrm: false,
            sigprof: false,
            sigio: false,
            sigpoll: false,
            sigpwr: false,
            sigsys: false,
            sigunused: false,
        };
        assert(opts.candidate_codes() =~= Set::<u8>::empty());
        opts
    }
}

/// Whether `c` is one of the ten decimal digits.
pub open spec fn is_digit(c: char) -> bool {
    '0' <= c <= '9'
}

/// The number that a run of decimal digits writes, most significant first.
pub open spec fn digits_value(digits: Seq<char>) -> nat
    decreases digits.len(),
{
    if digits.len() == 0 {
        0
    } else {
        digits_value(digits.drop_last()) * 10 + ((digits.last() as u32 - '0' as u32) as nat)
    }
}

/// The text without the single `+` that may lead it.
pub open spec fn unsigned_part(text: Seq<char>) -> Seq<char> {
    if text.len() > 0 && text[0] == '+' {
        text.drop_first()
    } else {
        text
    }
}

/// Whether `text` is an optional `+` followed by one or more decimal digits
/// and nothing else.
pub open spec fn is_decimal(text: Seq<char>) -> bool {
    let digits = unsigned_part(text);
    &&& digits.len() > 0
    &&& forall|i: int| 0 <= i < digits.len() ==> is_digit(#[trigger] digits[i])
}

/// The byte that `text` writes in decimal, where it writes one.
pub open spec fn decimal_byte(text: Seq<char>) -> Option<u8> {
    if is_decimal(text) && digits_value(unsigned_part(text)) <= u8::MAX {
        Some(digits_value(unsigned_part(text)) as u8)
    } else {
        None
    }
}

/// The signal number that `text` writes, where it writes one.
pub open spec fn signal_of(text: Seq<char>) -> Option<u8> {
    match decimal_byte(text) {
        Some(value) if is_signal(value) => Some(value),
        _ => None,
    }
}

/// The words with which the standard library refuses `text`, where `text`
/// writes no byte in decimal.
pub uninterp spec fn parse_failure_text(text: Seq<char>) -> Seq<char>;

/// Trusted: `str::parse::<u8>`, with its error turned into the error's own
/// `Display` text. The standard library documents the accepted texts as an
/// optional `+` sign followed by only decimal digits, with a value that fits
/// the type: the contract says so over `decimal_byte`. Every other text is
/// an error, whose words depend on the text alone and go by the name
/// `parse_failure_text`.
#[verifier::external_body]
fn parse_byte(input: &str) -> (parsed: Result<u8, String>)
    ensures
        parsed is Ok <==> decimal_byte(input@) is Some,
        parsed is Ok ==> decimal_byte(input@) == Some(parsed->Ok_0),
        parsed is Err ==> parsed->Err_0@ == parse_failure_text(input@),
{
    input.parse::<u8>().map_err(|error| format!("{error}"))
}

/// What a byte that was read, or the refusal to read one, comes to as a
/// signal: the byte where it is a signal number, the range message where it
/// is not, and the refusal as it is.
pub open spec fn as_signal(parsed: Result<u8, Seq<char>>) -> Result<u8, Seq<char>> {
    match parsed {
        Ok(value) => if is_signal(value) {
            Ok(value)
        } else {
            Err(SIGNAL_RANGE_MESSAGE@)
        },
        Err(words) => Err(words),
    }
}

/// What `text` comes to as a signal.
pub open spec fn parsed_signal(text: Seq<char>) -> Result<u8, Seq<char>> {
    as_signal(
        match decimal_byte(text) {
            Some(value) => Ok(value),
            None => Err(parse_failure_text(text)),
        },
    )
}

/// The plain values of a result of reading.
pub open spec fn result_view(parsed: Result<u8, String>) -> Result<u8, Seq<char>> {
    match parsed {
        Ok(value) => Ok(value),
        Err(words) => Err(words@),
    }
}

/// Holds a byte that was read to the range of the signal numbers.
///
/// A byte from 1 to 31 is kept; another byte is refused with
/// `SIGNAL_RANGE_MESSAGE`; a refusal is handed on as it is.
pub fn signal_from(parsed: Result<u8, String>) -> (signal: Result<u8, String>)
    ensures
        result_view(signal) == as_signal(result_view(parsed)),
{
    match parsed {
        Ok(value) => {
            if value < SIGNAL_MIN || value > SIGNAL_MAX {
                Err(SIGNAL_RANGE_MESSAGE.to_owned())
            } else {
                Ok(value)
            }
        },
        Err(words) => Err(words),
    }
}

/// Reads one signal number.
///
/// Succeeds exactly on the decimal texts of the numbers 1 to 31. A text that
/// writes another byte is refused with `SIGNAL_RANGE_MESSAGE`; a text that
/// writes no byte at all is refused with the standard library's own words.
pub fn parse_signal(input: &str) -> (parsed: Result<u8, String>)
    ensures
        result_view(parsed) == parsed_signal(input@),
        parsed is Ok <==> signal_of(input@) is Some,
        parsed is Ok ==> signal_of(input@) == Some(parsed->Ok_0),
{
    signal_from(parse_byte(input))
}

} // verus!
