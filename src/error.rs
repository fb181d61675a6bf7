use vstd::prelude::*;

use crate::text::push_char;

verus! {

/// Which pipe operation failed.
#[derive(Clone, Copy, Debug, PartialEq, Eq, Structural)]
pub enum IoStage {
    /// The child's input pipe was not there.
    OpenInput,
    /// The child's output pipe was not there.
    OpenOutput,
    /// Writing the payload to the child failed.
    WriteInput,
    /// Reading the child's output failed.
    ReadOutput,
    /// Reading the child's exit status failed.
    Wait,
}

/// Why an execution produced no bytes. Each kind ends the call.
#[derive(Debug)]
pub enum FilterError {
    /// The program could not be started.
    SpawnFailure { program: String, detail: String },
    /// A pipe or the exit status could not be used.
    IoFailure { stage: IoStage, program: String, detail: String },
    /// The child exited unsuccessfully; `stderr` is its trimmed error output.
    NonZeroExit { program: String, stderr: String },
    /// The child ran past the timeout and was killed.
    Timeout { program: String, timeout_ms: u64 },
    /// The task that wrote the payload did not finish cleanly.
    ConcurrencyFailure,
}

/// The decimal digits of `n`.
pub open spec fn decimal(n: nat) -> Seq<char>
    decreases n,
{
    if n < 10 {
        seq![digit_char(n)]
    } else {
        decimal(n / 10).push(digit_char(n % 10))
    }
}

/// The character of the decimal digit `d`.
pub open spec fn digit_char(d: nat) -> char {
    ((48 + d) as u8) as char
}

/// The digits of a fraction of a second given in milliseconds (`1..=999`):
/// three places, without trailing zeros.
pub open spec fn fraction_digits(f: nat) -> Seq<char> {
    if f % 100 == 0 {
        seq![digit_char(f / 100)]
    } else if f % 10 == 0 {
        seq![digit_char(f / 100), digit_char(f / 10 % 10)]
    } else {
        seq![digit_char(f / 100), digit_char(f / 10 % 10), digit_char(f % 10)]
    }
}

/// A span of `ms` milliseconds as Rust's `Duration` shows it in debug
/// output: `0ns`, `<n>ms` under a second, `<n>s` for whole seconds, and
/// `<n>.<fraction>s` otherwise.
pub open spec fn duration_text(ms: nat) -> Seq<char> {
    if ms == 0 {
        "0ns"@
    } else if ms < 1000 {
        decimal(ms) + "ms"@
    } else if ms % 1000 == 0 {
        decimal(ms / 1000) + "s"@
    } else {
        decimal(ms / 1000) + "."@ + fraction_digits(ms % 1000) + "s"@
    }
}

/// `'program'`, quoted as messages show it.
pub open spec fn quoted(program: Seq<char>) -> Seq<char> {
    seq!['\''] + program + seq!['\'']
}

/// The message that reports an unsuccessful exit.
pub open spec fn exit_failure_message(program: Seq<char>, stderr: Seq<char>) -> Seq<char> {
    quoted(program) + " failed: "@ + stderr
}

impl FilterError {
    /// The text that reports this error.
    pub open spec fn spec_message(&self) -> Seq<char> {
        match self {
            FilterError::SpawnFailure { program, detail } => "failed to spawn "@ + quoted(program@)
                + ": "@ + detail@,
            FilterError::IoFailure { stage, program, detail } => match stage {
                IoStage::OpenInput => "failed to open stdin"@,
                IoStage::OpenOutput => "failed to open stdout"@,
                IoStage::WriteInput => "failed to write to stdin: "@ + detail@,
                IoStage::ReadOutput => "failed to read stdout: "@ + detail@,
                IoStage::Wait => "failed to wait for "@ + quoted(program@) + ": "@ + detail@,
            },
            FilterError::NonZeroExit { program, stderr } => exit_failure_message(program@, stderr@),
            FilterError::Timeout { program, timeout_ms } => quoted(program@) + " timed out after "@
                + duration_text(*timeout_ms as nat),
            FilterError::ConcurrencyFailure => "write thread panicked"@,
        }
    }

    /// The text that reports this error.
    pub fn message(&self) -> (r: String)
        ensures
            r@ == self.spec_message(),
    {
        match self {
            FilterError::SpawnFailure { program, detail } => {
                let mut m = String::from_str("failed to spawn ");
                push_quoted(&mut m, program.as_str());
                m.append(": ");
                m.append(detail.as_str());
                m
            },
            FilterError::IoFailure { stage, program, detail } => match stage {
                IoStage::OpenInput => String::from_str("failed to open stdin"),
                IoStage::OpenOutput => String::from_str("failed to open stdout"),
                IoStage::WriteInput => {
                    let mut m = String::from_str("failed to write to stdin: ");
                    m.append(detail.as_str());
                    m
                },
                IoStage::ReadOutput => {
                    let mut m = String::from_str("failed to read stdout: ");
                    m.append(detail.as_str());
                    m
                },
                IoStage::Wait => {
                    let mut m = String::from_str("failed to wait for ");
                    push_quoted(&mut m, program.as_str());
                    m.append(": ");
                    m.append(detail.as_str());
                    m
                },
            },
            FilterError::NonZeroExit { program, stderr } => {
                let mut m = String::new();
                push_quoted(&mut m, program.as_str());
                m.append(" failed: ");
                m.append(stderr.as_str());
                assert(m@ =~= exit_failure_message(program@, stderr@));
                m
            },
            FilterError::Timeout { program, timeout_ms } => {
                let mut m = String::new();
                push_quoted(&mut m, program.as_str());
                m.append(" timed out after ");
                push_duration(&mut m, *timeout_ms);
                m
            },
            FilterError::ConcurrencyFailure => String::from_str("write thread panicked"),
        }
    }
}

/// Appends `'program'`.
fn push_quoted(m: &mut String, program: &str)
    ensures
        final(m)@ == old(m)@ + quoted(program@),
{
    m.append("'");
    m.append(program);
    m.append("'");
    proof {
        reveal_strlit("'");
    }
    assert(final(m)@ =~= old(m)@ + quoted(program@));
}

/// Appends the digit `d`.
fn push_digit(m: &mut String, d: u64)
    requires
        d < 10,
    ensures
        final(m)@ == old(m)@.push(digit_char(d as nat)),
{
    push_char(m, (48 + d as u8) as char);
}

/// Appends `ms` milliseconds as `duration_text` shows them.
fn push_duration(m: &mut String, ms: u64)
    ensures
        final(m)@ == old(m)@ + duration_text(ms as nat),
{
    if ms == 0 {
        m.append("0ns");
    } else if ms < 1000 {
        push_decimal(m, ms);
        m.append("ms");
    } else if ms % 1000 == 0 {
        push_decimal(m, ms / 1000);
        m.append("s");
    } else {
        push_decimal(m, ms / 1000);
        m.append(".");
        let f = ms % 1000;
        push_digit(m, f / 100);
        if f % 100 != 0 {
            push_digit(m, f / 10 % 10);
            if f % 10 != 0 {
                push_digit(m, f % 10);
            }
        }
        m.append("s");
    }
    assert(final(m)@ =~= old(m)@ + duration_text(ms as nat));
}

/// Appends the decimal digits of `n`.
fn push_decimal(m: &mut String, n: u64)
    ensures
        final(m)@ == old(m)@ + decimal(n as nat),
    decreases n,
{
    if n >= 10 {
        push_decimal(m, n / 10);
    }
    push_digit(m, n % 10);
    assert(final(m)@ =~= old(m)@ + decimal(n as nat));
}

} // verus!
