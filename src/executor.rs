use vstd::prelude::*;

use crate::command::{
    args_of, is_separator, lemma_blank_scan, lemma_substitute_without_placeholder, program_of,
};
use crate::error::{quoted, FilterError};
use crate::filter::ProcessFilter;
use crate::text::{decode_lossy, trim, trimmed, utf8_lossy};

verus! {

/// Payloads longer than this many bytes are streamed to the child while its
/// output is read; shorter ones are written whole first.
pub const STREAM_THRESHOLD: usize = 65536;

/// How long a child may run before it is killed, in milliseconds.
pub const DEFAULT_TIMEOUT_MS: u64 = 300000;

/// How long to sleep between two looks at a running child, in milliseconds.
pub const POLL_INTERVAL_MS: u64 = 10;

/// How the payload is moved through the child's pipes.
#[derive(Clone, Copy, Debug, PartialEq, Eq, Structural)]
pub enum Strategy {
    /// Write all input, close it, then read the output.
    Buffered,
    /// Write the input from a second task while the output is read.
    Streaming,
}

/// The strategy for a payload of `len` bytes under `threshold`.
pub open spec fn strategy_for(len: nat, threshold: nat) -> Strategy {
    if len <= threshold {
        Strategy::Buffered
    } else {
        Strategy::Streaming
    }
}

/// The tunable bounds of an execution.
#[derive(Clone, Copy, Debug, PartialEq, Eq, Structural)]
pub struct Limits {
    /// Largest payload that is written whole before reading.
    pub stream_threshold: usize,
    /// Time a child may take, in milliseconds.
    pub timeout_ms: u64,
    /// Sleep between two looks at a running child, in milliseconds.
    pub poll_interval_ms: u64,
}

impl Limits {
    /// The bounds used when nothing else is asked for.
    pub fn standard() -> (r: Limits)
        ensures
            r.stream_threshold == STREAM_THRESHOLD,
            r.timeout_ms == DEFAULT_TIMEOUT_MS,
            r.poll_interval_ms == POLL_INTERVAL_MS,
    {
        Limits {
            stream_threshold: STREAM_THRESHOLD,
            timeout_ms: DEFAULT_TIMEOUT_MS,
            poll_interval_ms: POLL_INTERVAL_MS,
        }
    }
}

/// Picks the strategy for a payload of `len` bytes.
pub fn select_strategy(len: usize, threshold: usize) -> (r: Strategy)
    ensures
        r == strategy_for(len as nat, threshold as nat),
{
    if len <= threshold {
        Strategy::Buffered
    } else {
        Strategy::Streaming
    }
}

/// What an execution does before any process exists.
#[derive(Debug)]
pub enum Invocation {
    /// Nothing to run: the payload is the result.
    PassThrough,
    /// Spawn `program` with `args`, moving the payload by `strategy`.
    Spawn { program: String, args: Vec<String>, strategy: Strategy },
}

/// A template runs nothing when it is empty or names no program.
pub open spec fn passes_through(cmd: Seq<char>, path: Seq<char>) -> bool {
    cmd.len() == 0 || program_of(cmd, path).len() == 0
}

/// Decides what an execution of `cmd` on a payload of `input_len` bytes
/// does: pass the payload through, or spawn the parsed program with the
/// strategy that the payload's size calls for.
pub fn plan_command(cmd: &str, path: &str, input_len: usize, limits: Limits) -> (r: Invocation)
    ensures
        (r is PassThrough) <==> passes_through(cmd@, path@),
        r matches Invocation::Spawn { program, args, strategy } ==> {
            &&& program@ == program_of(cmd@, path@)
            &&& args.deep_view() == args_of(cmd@, path@)
            &&& strategy == strategy_for(input_len as nat, limits.stream_threshold as nat)
        },
{
    if cmd.is_empty() {
        return Invocation::PassThrough;
    }
    let (program, args) = ProcessFilter::parse_command(cmd, path);
    if program.as_str().is_empty() {
        return Invocation::PassThrough;
    }
    let strategy = select_strategy(input_len, limits.stream_threshold);
    Invocation::Spawn { program, args, strategy }
}

/// A template of spaces and tabs alone runs nothing, whatever the path.
pub proof fn lemma_blank_template_passes_through(cmd: Seq<char>, path: Seq<char>)
    requires
        forall|i: int| 0 <= i < cmd.len() ==> #[trigger] is_separator(cmd[i]),
    ensures
        passes_through(cmd, path),
{
    lemma_blank_scan(cmd);
    lemma_substitute_without_placeholder(cmd, path);
}

/// What one look at a child's exit status found.
#[derive(Clone, Copy, Debug, PartialEq, Eq, Structural)]
pub enum ExitPoll {
    /// The child has exited, successfully or not.
    Exited { success: bool },
    /// The child is still running.
    Running,
    /// The status could not be read.
    Failed,
}

/// What to do after a look at a child's exit status.
#[derive(Clone, Copy, Debug, PartialEq, Eq, Structural)]
pub enum WaitAction {
    /// The child is done: settle the outcome from its exit status.
    Finish { success: bool },
    /// Sleep this many milliseconds and look again.
    Sleep { ms: u64 },
    /// The time is up: kill the child and report a timeout.
    Kill,
    /// Report that waiting failed.
    Abandon,
}

/// The step of the wait loop, as a function of what was seen.
pub open spec fn wait_step(poll: ExitPoll, elapsed_ms: u64, limits: Limits) -> WaitAction {
    match poll {
        ExitPoll::Exited { success } => WaitAction::Finish { success },
        ExitPoll::Running => if elapsed_ms > limits.timeout_ms {
            WaitAction::Kill
        } else {
            WaitAction::Sleep { ms: limits.poll_interval_ms }
        },
        ExitPoll::Failed => WaitAction::Abandon,
    }
}

/// Decides the next step of waiting for a child, `elapsed_ms` after it was
/// spawned: a child still running past the timeout is killed.
pub fn next_wait_action(poll: ExitPoll, elapsed_ms: u64, limits: Limits) -> (r: WaitAction)
    ensures
        r == wait_step(poll, elapsed_ms, limits),
{
    match poll {
        ExitPoll::Exited { success } => WaitAction::Finish { success },
        ExitPoll::Running => {
            if elapsed_ms > limits.timeout_ms {
                WaitAction::Kill
            } else {
                WaitAction::Sleep { ms: limits.poll_interval_ms }
            }
        },
        ExitPoll::Failed => WaitAction::Abandon,
    }
}

/// What a successful execution hands back.
#[derive(Debug)]
pub struct Completion {
    /// The bytes the child wrote to its output.
    pub output: Vec<u8>,
    /// The trimmed error output of a child that succeeded but wrote to its
    /// error stream, to be reported as a warning.
    pub warning: Option<String>,
}

/// The outcome of a child that exited, given the text of its error output:
/// on success its output bytes, with a warning when it wrote any error
/// output; otherwise a `NonZeroExit` that carries the trimmed error text.
pub open spec fn settled(
    r: Result<Completion, FilterError>,
    program: Seq<char>,
    success: bool,
    stdout: Seq<u8>,
    wrote_stderr: bool,
    stderr_text: Seq<char>,
) -> bool {
    if success {
        &&& r is Ok
        &&& r->Ok_0.output@ == stdout
        &&& if wrote_stderr {
            &&& r->Ok_0.warning is Some
            &&& r->Ok_0.warning->Some_0@ == trimmed(stderr_text)
        } else {
            r->Ok_0.warning is None
        }
    } else {
        &&& r is Err
        &&& r->Err_0 is NonZeroExit
        &&& r->Err_0->NonZeroExit_program@ == program
        &&& r->Err_0->NonZeroExit_stderr@ == trimmed(stderr_text)
    }
}

/// Settles the outcome of a child that exited, from its exit status, its
/// output, and the decoded text of its error output.
pub fn settle_with_text(
    program: &str,
    success: bool,
    stdout: Vec<u8>,
    wrote_stderr: bool,
    stderr_text: &str,
) -> (r: Result<Completion, FilterError>)
    ensures
        settled(r, program@, success, stdout@, wrote_stderr, stderr_text@),
{
    if success {
        let warning = if wrote_stderr {
            Some(trim(stderr_text))
        } else {
            None
        };
        Ok(Completion { output: stdout, warning })
    } else {
        let stderr = trim(stderr_text);
        Err(FilterError::NonZeroExit { program: String::from_str(program), stderr })
    }
}

/// Settles the outcome of a child that exited, from its exit status and the
/// bytes it wrote to its output and error streams.
pub fn settle(program: &str, success: bool, stdout: Vec<u8>, stderr: &[u8]) -> (r: Result<
    Completion,
    FilterError,
>)
    ensures
        settled(r, program@, success, stdout@, stderr@.len() > 0, utf8_lossy(stderr@)),
{
    let text = decode_lossy(stderr);
    settle_with_text(program, success, stdout, stderr.len() > 0, text.as_str())
}

/// When a child exits unsuccessfully, the message of the error that
/// settling gives ends with the trimmed text of the child's error output.
pub proof fn lemma_exit_failure_message_ends_with_error_text(
    r: Result<Completion, FilterError>,
    program: Seq<char>,
    stdout: Seq<u8>,
    wrote_stderr: bool,
    stderr_text: Seq<char>,
)
    requires
        settled(r, program, false, stdout, wrote_stderr, stderr_text),
    ensures
        ({
            let m = r->Err_0.spec_message();
            let t = trimmed(stderr_text);
            m.len() >= t.len() && m.subrange(m.len() - t.len(), m.len() as int) == t
        }),
{
    let m = r->Err_0.spec_message();
    let t = trimmed(stderr_text);
    let head = quoted(program) + " failed: "@;
    assert(m == head + t);
    assert(m.subrange(head.len() as int, m.len() as int) =~= t);
}

/// A child still running past the timeout is killed; one still within it is
/// looked at again after the poll interval.
pub proof fn lemma_overdue_child_is_killed(elapsed_ms: u64, limits: Limits)
    ensures
        elapsed_ms > limits.timeout_ms ==> wait_step(ExitPoll::Running, elapsed_ms, limits)
            == WaitAction::Kill,
        elapsed_ms <= limits.timeout_ms ==> wait_step(ExitPoll::Running, elapsed_ms, limits)
            == (WaitAction::Sleep { ms: limits.poll_interval_ms }),
{
}

} // verus!
