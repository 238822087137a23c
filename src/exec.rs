//! Outcome of one command run: the error classification and how a finished
//! run is turned into captured output or an error.
use vstd::prelude::*;
use crate::text::{chars_of, decode_lossy, lossy_text, string_of};
use std::time::Duration;

verus! {

/// Why one run of a command failed.
#[derive(Debug, Clone, PartialEq, Eq)]
pub enum ExecError {
    /// The command was still running after this many milliseconds and was killed.
    Timeout(u64),
    /// The command could not be started; the system's message.
    Spawn(String),
    /// The command ended with a failing status: its exit code, if it had one,
    /// and its error stream decoded leniently.
    NonZero { code: Option<i32>, stderr: String },
}

/// How a started command ended.
#[derive(Debug, Clone, Copy, PartialEq, Eq)]
pub enum Termination {
    /// It ended by itself: whether its status was success, and its exit code
    /// (none when a signal ended it).
    Exited { success: bool, code: Option<i32> },
    /// It was still running when the time limit ran out.
    TimedOut,
}

/// Turns how a command ended, and what it wrote, into its result: its whole
/// output on success, `Timeout` when it ran out of time (whatever it wrote),
/// `NonZero` with its code and leniently decoded error stream otherwise.
pub fn classify(t: Termination, limit_ms: u64, out: Vec<u8>, err: &[u8]) -> (r: Result<Vec<u8>, ExecError>)
    ensures
        t == Termination::TimedOut <==> r == Err::<Vec<u8>, ExecError>(ExecError::Timeout(limit_ms)),
        t matches Termination::Exited { success: true, .. } <==> r is Ok,
        r is Ok ==> r->Ok_0@ == out@,
        match t {
            Termination::Exited { success: false, code } => r matches Err(ExecError::NonZero { code: c, stderr })
                && c == code && stderr@ == lossy_text(err@),
            _ => true,
        },
{
    match t {
        Termination::TimedOut => Err(ExecError::Timeout(limit_ms)),
        Termination::Exited { success, code } => {
            if success {
                Ok(out)
            } else {
                let chars = decode_lossy(err);
                Err(ExecError::NonZero { code, stderr: string_of(&chars) })
            }
        },
    }
}

/// The text of `{:?}` on a `Duration` of `ms` milliseconds.
pub uninterp spec fn duration_text(ms: u64) -> Seq<char>;

/// Relies on `Duration`'s `Debug` format: the text depends on the duration alone.
#[verifier::external_body]
fn duration_debug(ms: u64) -> (r: Vec<char>)
    ensures
        r@ == duration_text(ms),
{
    format!("{:?}", Duration::from_millis(ms)).chars().collect()
}

/// The decimal digit for `d`.
pub open spec fn digit_char(d: nat) -> char {
    if d == 0 { '0' } else if d == 1 { '1' } else if d == 2 { '2' } else if d == 3 { '3' }
    else if d == 4 { '4' } else if d == 5 { '5' } else if d == 6 { '6' } else if d == 7 { '7' }
    else if d == 8 { '8' } else { '9' }
}

/// The decimal digits of `n`, most significant first, without leading zeros.
pub open spec fn digits(n: nat) -> Seq<char>
    decreases n,
{
    if n < 10 {
        seq![digit_char(n)]
    } else {
        digits(n / 10).push(digit_char(n % 10))
    }
}

/// `n` written in decimal, with a leading `-` when negative.
pub open spec fn int_text(n: int) -> Seq<char> {
    if n < 0 {
        seq!['-'] + digits((-n) as nat)
    } else {
        digits(n as nat)
    }
}

/// An optional exit code as `{:?}` writes it: `Some(3)` or `None`.
pub open spec fn code_text(code: Option<i32>) -> Seq<char> {
    match code {
        Some(c) => "Some("@ + int_text(c as int) + ")"@,
        None => "None"@,
    }
}

/// The one-line description of an error that a failure report shows.
pub open spec fn error_text(e: ExecError) -> Seq<char> {
    match e {
        ExecError::Timeout(ms) => "timed out after "@ + duration_text(ms),
        ExecError::Spawn(msg) => "spawn error: "@ + msg@,
        ExecError::NonZero { code, stderr } => "non-zero exit code "@ + code_text(code) + ", stderr:\n"@
            + stderr@,
    }
}

fn digit_of(d: u64) -> (r: char)
    requires
        d < 10,
    ensures
        r == digit_char(d as nat),
{
    if d == 0 { '0' } else if d == 1 { '1' } else if d == 2 { '2' } else if d == 3 { '3' }
    else if d == 4 { '4' } else if d == 5 { '5' } else if d == 6 { '6' } else if d == 7 { '7' }
    else if d == 8 { '8' } else { '9' }
}

fn push_digits(n: u64, out: &mut Vec<char>)
    ensures
        final(out)@ == old(out)@ + digits(n as nat),
    decreases n,
{
    if n >= 10 {
        push_digits(n / 10, out);
    }
    out.push(digit_of(n % 10));
    assert(out@ =~= old(out)@ + digits(n as nat));
}

fn push_str(out: &mut Vec<char>, s: &str)
    ensures
        final(out)@ == old(out)@ + s@,
{
    let mut tail = chars_of(s);
    out.append(&mut tail);
}

/// Appends `code` as `{:?}` writes it.
fn push_code(out: &mut Vec<char>, code: Option<i32>)
    ensures
        final(out)@ == old(out)@ + code_text(code),
{
    match code {
        Some(c) => {
            push_str(out, "Some(");
            let mid = out.len();
            if c < 0 {
                out.push('-');
                let m: i64 = -(c as i64);
                push_digits(m as u64, out);
            } else {
                push_digits(c as u64, out);
            }
            assert(out@.subrange(mid as int, out@.len() as int) =~= int_text(c as int));
            push_str(out, ")");
            assert(out@ =~= old(out)@ + code_text(code));
        },
        None => push_str(out, "None"),
    }
}

/// The one-line description of `e` that a failure report shows.
pub fn format_exec_error(e: ExecError) -> (r: String)
    ensures
        r@ == error_text(e),
{
    let mut out: Vec<char> = Vec::new();
    match e {
        ExecError::Timeout(ms) => {
            push_str(&mut out, "timed out after ");
            let mut d = duration_debug(ms);
            out.append(&mut d);
        },
        ExecError::Spawn(msg) => {
            push_str(&mut out, "spawn error: ");
            push_str(&mut out, msg.as_str());
        },
        ExecError::NonZero { code, stderr } => {
            push_str(&mut out, "non-zero exit code ");
            push_code(&mut out, code);
            push_str(&mut out, ", stderr:\n");
            push_str(&mut out, stderr.as_str());
        },
    }
    string_of(&out)
}

} // verus!
