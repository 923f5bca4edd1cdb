//! Running a command: what is run, how its output is gathered and what its end means.
use vstd::prelude::*;

use crate::error::{CodexErr, SandboxErr};
use crate::protocol::SandboxPolicy;
use crate::text;

verus! {

pub const DEFAULT_TIMEOUT_MS: u64 = 10_000;

pub const SIGKILL_CODE: i32 = 9;

pub const TIMEOUT_CODE: i32 = 64;

/// Conventional shell: 128 + signal.
pub const EXIT_CODE_SIGNAL_BASE: i32 = 128;

/// Conventional timeout exit code.
pub const EXEC_TIMEOUT_EXIT_CODE: i32 = 124;

/// How long the pipes of a command may take to be drained after its end.
pub const IO_DRAIN_TIMEOUT_MS: u64 = 2_000;

/// The number of chunks of output that are reported live per call. Aggregation still collects
/// the full output; only the live event stream is capped.
pub const MAX_EXEC_OUTPUT_DELTAS_PER_CALL: usize = 10_000;

/// A command to run. The environment is a list of names and values.
#[derive(Debug)]
pub struct ExecParams {
    pub command: Vec<String>,
    pub cwd: String,
    pub timeout_ms: Option<u64>,
    pub env: Vec<(String, String)>,
    pub with_escalated_permissions: Option<bool>,
    pub justification: Option<String>,
    pub arg0: Option<String>,
}

/// How a command is confined.
#[derive(Clone, Copy, Debug, PartialEq, Eq, Structural)]
pub enum SandboxType {
    Unsandboxed,
    /// Only available on macOS.
    MacosSeatbelt,
    /// Only available on Linux.
    LinuxSeccomp,
    /// Only available on Windows.
    WindowsRestrictedToken,
}

/// A command before it is put into a sandbox.
#[derive(Debug)]
pub struct CommandSpec {
    pub program: String,
    pub args: Vec<String>,
    pub cwd: String,
    pub env: Vec<(String, String)>,
    pub timeout_ms: Option<u64>,
    pub with_escalated_permissions: Option<bool>,
    pub justification: Option<String>,
}

/// A command in its sandbox, ready to run.
#[derive(Debug)]
pub struct ExecEnv {
    pub command: Vec<String>,
    pub cwd: String,
    pub env: Vec<(String, String)>,
    pub timeout_ms: Option<u64>,
    pub sandbox: SandboxType,
    pub with_escalated_permissions: Option<bool>,
    pub justification: Option<String>,
    pub arg0: Option<String>,
}

/// Why a command could not be put into its sandbox.
#[derive(Clone, Copy, Debug, PartialEq, Eq, Structural)]
pub enum SandboxTransformError {
    MissingLinuxSandboxExecutable,
    SeatbeltUnavailable,
}

/// The output of one stream.
#[derive(Debug)]
pub struct StreamOutput<T: Clone> {
    pub text: T,
    pub truncated_after_lines: Option<u32>,
}

/// How a process ended: with a code, or by a signal.
#[derive(Clone, Copy, Debug, PartialEq, Eq, Structural)]
pub struct ExitStatus {
    pub code: Option<i32>,
    pub signal: Option<i32>,
}

/// What a command left behind, as bytes.
#[derive(Debug)]
pub struct RawExecToolCallOutput {
    pub exit_status: ExitStatus,
    pub stdout: StreamOutput<Vec<u8>>,
    pub stderr: StreamOutput<Vec<u8>>,
    pub aggregated_output: StreamOutput<Vec<u8>>,
    pub timed_out: bool,
}

/// What a command left behind, as text.
#[derive(Debug)]
pub struct ExecToolCallOutput {
    pub exit_code: i32,
    pub stdout: StreamOutput<String>,
    pub stderr: StreamOutput<String>,
    pub aggregated_output: StreamOutput<String>,
    pub duration: std::time::Duration,
    pub timed_out: bool,
}

/// The `Duration` of a number of milliseconds.
pub uninterp spec fn duration_of_millis(millis: u64) -> std::time::Duration;

/// `Duration::from_millis` depends on the number of milliseconds alone; nothing else is claimed
/// of the duration it returns.
pub assume_specification[ std::time::Duration::from_millis ](millis: u64) -> (d: std::time::Duration)
    ensures
        d == duration_of_millis(millis),
;

/// What `String::from_utf8_lossy` makes of bytes.
pub uninterp spec fn utf8_lossy(bytes: Seq<u8>) -> Seq<char>;

/// `String::from_utf8_lossy` depends on the bytes alone, and decodes those that are valid UTF-8.
/// What stands in place of invalid bytes is left unsaid.
#[verifier::external_body]
pub(crate) fn decode_utf8_lossy(bytes: &Vec<u8>) -> (r: String)
    ensures
        r@ == utf8_lossy(bytes@),
        vstd::utf8::valid_utf8(bytes@) ==> r@ == vstd::utf8::decode_utf8(bytes@),
{
    String::from_utf8_lossy(bytes).to_string()
}

/// What `str::to_lowercase` makes of a text.
pub uninterp spec fn unicode_lower(s: Seq<char>) -> Seq<char>;

/// `str::to_lowercase` depends on the text alone; nothing else is claimed of what it returns.
#[verifier::external_body]
fn to_lowercase(s: &str) -> (r: String)
    ensures
        r@ == unicode_lower(s@),
{
    s.to_lowercase()
}

/// Whether a number is that of the signal for a forbidden system call on some platform.
pub open spec fn is_sigsys(n: i32) -> bool {
    n == 12 || n == 25 || n == 31 || n == 34
}

/// `libc::SIGSYS` is the number of the signal for a forbidden system call: one of four, of which
/// the platform picks one. Which one it picks is left unsaid.
#[verifier::external_body]
fn sigsys_code() -> (r: i32)
    ensures
        is_sigsys(r),
{
    libc::SIGSYS
}

impl ExecParams {
    pub fn timeout_duration(&self) -> (r: std::time::Duration)
        ensures
            r == duration_of_millis(
                match self.timeout_ms {
                    Some(ms) => ms,
                    None => DEFAULT_TIMEOUT_MS,
                },
            ),
    {
        std::time::Duration::from_millis(self.timeout_ms.unwrap_or(DEFAULT_TIMEOUT_MS))
    }
}

impl StreamOutput<String> {
    pub fn new(text: String) -> (r: Self)
        ensures
            r.text == text,
            r.truncated_after_lines is None,
    {
        StreamOutput { text, truncated_after_lines: None }
    }
}

impl StreamOutput<Vec<u8>> {
    pub fn from_utf8_lossy(&self) -> (r: StreamOutput<String>)
        ensures
            is_decoded(r, *self),
            vstd::utf8::valid_utf8(self.text@) ==> r.text@ == vstd::utf8::decode_utf8(
                self.text@,
            ),
    {
        StreamOutput {
            text: decode_utf8_lossy(&self.text),
            truncated_after_lines: self.truncated_after_lines,
        }
    }
}

/// Whether `r` is the text of the bytes in `raw`.
pub open spec fn is_decoded(r: StreamOutput<String>, raw: StreamOutput<Vec<u8>>) -> bool {
    r.text@ == utf8_lossy(raw.text@) && r.truncated_after_lines == raw.truncated_after_lines
}

/// Appends all bytes of `src`.
pub fn append_all(dst: &mut Vec<u8>, src: &[u8])
    ensures
        final(dst)@ == old(dst)@ + src@,
{
    let mut i: usize = 0;
    while i < src.len()
        invariant
            i <= src@.len(),
            dst@ == old(dst)@ + src@.take(i as int),
        decreases src@.len() - i,
    {
        dst.push(src[i]);
        assert(src@.take(i + 1) =~= src@.take(i as int).push(src@[i as int]));
        i += 1;
    }
    assert(src@.take(i as int) =~= src@);
}

/// The command of a tool call, split into its program and its arguments.
pub fn process_exec_tool_call(params: ExecParams) -> (r: Result<CommandSpec, CodexErr>)
    ensures
        match r {
            Ok(spec) => {
                &&& params.command@.len() > 0
                &&& spec.program == params.command@[0]
                &&& spec.args@ == params.command@.skip(1)
                &&& spec.cwd == params.cwd
                &&& spec.env == params.env
                &&& spec.timeout_ms == params.timeout_ms
                &&& spec.with_escalated_permissions == params.with_escalated_permissions
                &&& spec.justification == params.justification
            },
            Err(e) => params.command@.len() == 0 && crate::error::is_io_error(
                e,
                "command args are empty"@,
            ),
        },
{
    let (program, args) = match split_command(&params.command) {
        Some(split) => split,
        None => return Err(CodexErr::Io("command args are empty".to_owned())),
    };
    Ok(
        CommandSpec {
            program,
            args,
            cwd: params.cwd,
            env: params.env,
            timeout_ms: params.timeout_ms,
            with_escalated_permissions: params.with_escalated_permissions,
            justification: params.justification,
        },
    )
}

/// The first word of a command and the rest.
pub fn split_command(command: &Vec<String>) -> (r: Option<(String, Vec<String>)>)
    ensures
        match r {
            Some((program, args)) => command@.len() > 0 && program == command@[0] && args@
                == command@.skip(1),
            None => command@.len() == 0,
        },
{
    if command.len() == 0 {
        return None;
    }
    let mut args: Vec<String> = Vec::new();
    let mut i: usize = 1;
    while i < command.len()
        invariant
            1 <= i <= command@.len(),
            args@ == command@.subrange(1, i as int),
        decreases command@.len() - i,
    {
        args.push(command[i].clone());
        assert(command@.subrange(1, i + 1) =~= command@.subrange(1, i as int).push(
            command@[i as int],
        ));
        i += 1;
    }
    assert(args@ =~= command@.skip(1));
    Some((command[0].clone(), args))
}

/// The command that a sandboxed environment runs, and the sandbox it runs in.
pub fn execute_exec_env(env: ExecEnv) -> (r: (ExecParams, SandboxType))
    ensures
        r.0.command == env.command,
        r.0.cwd == env.cwd,
        r.0.timeout_ms == env.timeout_ms,
        r.0.env == env.env,
        r.0.with_escalated_permissions == env.with_escalated_permissions,
        r.0.justification == env.justification,
        r.0.arg0 == env.arg0,
        r.1 == env.sandbox,
{
    (
        ExecParams {
            command: env.command,
            cwd: env.cwd,
            timeout_ms: env.timeout_ms,
            env: env.env,
            with_escalated_permissions: env.with_escalated_permissions,
            justification: env.justification,
            arg0: env.arg0,
        },
        env.sandbox,
    )
}

/// What is started for a command.
#[derive(Debug)]
pub enum Launch {
    /// The sandbox of Windows runs the whole command.
    WindowsSandbox(ExecParams),
    /// A child process is spawned and given this much time.
    Child {
        program: String,
        args: Vec<String>,
        arg0: Option<String>,
        cwd: String,
        env: Vec<(String, String)>,
        timeout: std::time::Duration,
    },
}

/// What is started for a command: the sandbox of Windows where it is there, asked for and not
/// switched off; else a child process, unless the command is empty.
pub fn exec(
    params: ExecParams,
    sandbox: SandboxType,
    sandbox_policy: &SandboxPolicy,
    on_windows: bool,
) -> (r: Result<Launch, CodexErr>)
    ensures
        ({
            let in_windows_sandbox = on_windows && sandbox == SandboxType::WindowsRestrictedToken
                && sandbox_policy !is DangerFullAccess;
            match r {
                Ok(Launch::WindowsSandbox(p)) => in_windows_sandbox && p == params,
                Ok(Launch::Child { program, args, arg0, cwd, env, timeout }) => {
                    &&& !in_windows_sandbox
                    &&& params.command@.len() > 0
                    &&& program == params.command@[0]
                    &&& args@ == params.command@.skip(1)
                    &&& arg0 == params.arg0
                    &&& cwd == params.cwd
                    &&& env == params.env
                    &&& timeout == duration_of_millis(
                        match params.timeout_ms {
                            Some(ms) => ms,
                            None => DEFAULT_TIMEOUT_MS,
                        },
                    )
                },
                Err(e) => !in_windows_sandbox && params.command@.len() == 0
                    && crate::error::is_io_error(e, "command args are empty"@),
            }
        }),
{
    if on_windows && sandbox == SandboxType::WindowsRestrictedToken {
        match sandbox_policy {
            SandboxPolicy::DangerFullAccess => {},
            _ => return Ok(Launch::WindowsSandbox(params)),
        }
    }
    let timeout = params.timeout_duration();
    match split_command(&params.command) {
        Some((program, args)) => Ok(
            Launch::Child {
                program,
                args,
                arg0: params.arg0,
                cwd: params.cwd,
                env: params.env,
                timeout,
            },
        ),
        None => Err(CodexErr::Io("command args are empty".to_owned())),
    }
}

/// What a status says. On a POSIX system it holds an exit code in its second byte, or in its low
/// seven bits the signal that ended the process; on Windows it is the exit code.
pub fn synthetic_exit_status(raw: i32, on_windows: bool) -> (r: ExitStatus)
    ensures
        r == exit_status_of(raw, on_windows),
{
    if on_windows {
        return ExitStatus { code: Some(raw), signal: None };
    }
    // A multiple of both divisors is added, so that the remainders are those of the status.
    let shifted: u64 = (raw as i64 + 2147483648) as u64;
    proof {
        lemma_shifted_status(raw as int);
    }
    let low: u64 = shifted % 128;
    if low == 0 {
        ExitStatus { code: Some(((shifted / 256) % 256) as i32), signal: None }
    } else if low == 127 {
        ExitStatus { code: None, signal: None }
    } else {
        ExitStatus { code: None, signal: Some(low as i32) }
    }
}

/// What the bytes of a wait status hold does not change with a multiple of them.
proof fn lemma_shifted_status(raw: int)
    ensures
        (raw + 2147483648) % 128 == raw % 128,
        ((raw + 2147483648) / 256) % 256 == (raw / 256) % 256,
{
    vstd::arithmetic::div_mod::lemma_mod_multiples_vanish(16777216, raw, 128);
    vstd::arithmetic::div_mod::lemma_hoist_over_denominator(raw, 8388608, 256);
    vstd::arithmetic::div_mod::lemma_mod_multiples_vanish(32768, raw / 256, 256);
}

/// What a wait status of a POSIX system says.
pub open spec fn posix_exit_status(raw: int) -> ExitStatus {
    let low = raw % 128;
    if low == 0 {
        ExitStatus { code: Some(((raw / 256) % 256) as i32), signal: None }
    } else if low == 127 {
        ExitStatus { code: None, signal: None }
    } else {
        ExitStatus { code: None, signal: Some(low as i32) }
    }
}

/// What a status says: on Windows it is the exit code.
pub open spec fn exit_status_of(raw: i32, on_windows: bool) -> ExitStatus {
    if on_windows {
        ExitStatus { code: Some(raw), signal: None }
    } else {
        posix_exit_status(raw as int)
    }
}

/// How the wait for a child process ended.
#[derive(Debug)]
pub enum WaitOutcome {
    Exited(ExitStatus),
    WaitFailed(String),
    /// The time that the command was given is over.
    TimedOut,
    /// The user interrupted the program.
    CtrlC,
}

impl WaitOutcome {
    /// Whether the child and its process group are to be killed.
    pub open spec fn kills(self) -> bool {
        self is TimedOut || self is CtrlC
    }
}

/// Whether the child and its process group are to be killed.
pub fn must_kill(outcome: &WaitOutcome) -> (r: bool)
    ensures
        r == outcome.kills(),
{
    match outcome {
        WaitOutcome::TimedOut => true,
        WaitOutcome::CtrlC => true,
        _ => false,
    }
}

/// How the drain of one pipe ended.
#[derive(Debug)]
pub enum DrainOutcome {
    Read(Vec<u8>),
    IoFailed(String),
    JoinFailed(String),
    /// The pipe stayed open; the reader is given up.
    TimedOut,
}

impl DrainOutcome {
    /// The bytes that were read; none where the reader was given up.
    pub open spec fn bytes(self) -> Seq<u8> {
        match self {
            DrainOutcome::Read(bytes) => bytes@,
            _ => Seq::empty(),
        }
    }

    /// The text of the error, where the drain failed.
    pub open spec fn failure(self) -> Option<Seq<char>> {
        match self {
            DrainOutcome::IoFailed(e) => Some(e@),
            DrainOutcome::JoinFailed(e) => Some(e@),
            _ => None,
        }
    }
}

/// What a drained pipe gave.
fn drained(outcome: DrainOutcome) -> (r: Result<StreamOutput<Vec<u8>>, CodexErr>)
    ensures
        match r {
            Ok(out) => outcome.failure() is None && out.text@ == outcome.bytes()
                && out.truncated_after_lines is None,
            Err(e) => outcome.failure() is Some && crate::error::is_io_error(
                e,
                outcome.failure()->0,
            ),
        },
{
    match outcome {
        DrainOutcome::Read(text) => Ok(StreamOutput { text, truncated_after_lines: None }),
        DrainOutcome::IoFailed(e) => Err(CodexErr::Io(e)),
        DrainOutcome::JoinFailed(e) => Err(CodexErr::Io(e)),
        DrainOutcome::TimedOut => Ok(
            StreamOutput { text: Vec::new(), truncated_after_lines: None },
        ),
    }
}

/// All bytes of the chunks, in order.
pub open spec fn concatenated(chunks: Seq<Seq<u8>>) -> Seq<u8>
    decreases chunks.len(),
{
    if chunks.len() == 0 {
        Seq::empty()
    } else {
        concatenated(chunks.drop_last()) + chunks.last()
    }
}

/// The bytes of each chunk.
pub open spec fn chunk_bytes(chunks: Seq<Vec<u8>>) -> Seq<Seq<u8>> {
    Seq::new(chunks.len(), |i: int| chunks[i]@)
}

/// The chunks of both streams in the order in which they came.
pub fn aggregate(chunks: &Vec<Vec<u8>>) -> (r: StreamOutput<Vec<u8>>)
    ensures
        r.text@ == concatenated(chunk_bytes(chunks@)),
        r.truncated_after_lines is None,
{
    let mut combined: Vec<u8> = Vec::new();
    let mut i: usize = 0;
    let ghost all = chunk_bytes(chunks@);
    assert(all.take(0) =~= Seq::empty());
    while i < chunks.len()
        invariant
            all == chunk_bytes(chunks@),
            i <= chunks@.len(),
            combined@ == concatenated(all.take(i as int)),
        decreases chunks@.len() - i,
    {
        append_all(&mut combined, chunks[i].as_slice());
        assert(all.take(i + 1).drop_last() =~= all.take(i as int));
        assert(all.take(i + 1).last() == chunks@[i as int]@);
        i += 1;
    }
    assert(all.take(i as int) =~= all);
    StreamOutput { text: combined, truncated_after_lines: None }
}

/// How the end of a child process is recorded: as it was, or, where the child was killed, as a
/// status that stands for that, which is read as the platform reads it.
pub open spec fn recorded_exit(outcome: WaitOutcome, on_windows: bool) -> ExitStatus {
    match outcome {
        WaitOutcome::Exited(status) => status,
        WaitOutcome::TimedOut => exit_status_of(
            (EXIT_CODE_SIGNAL_BASE + TIMEOUT_CODE) as i32,
            on_windows,
        ),
        _ => exit_status_of((EXIT_CODE_SIGNAL_BASE + SIGKILL_CODE) as i32, on_windows),
    }
}

/// Gathers what a child process left behind. A pipe that is not there, a wait that failed and a
/// drain that failed are errors, the first of them in this order.
pub fn consume_truncated_output(
    has_stdout: bool,
    has_stderr: bool,
    wait: WaitOutcome,
    stdout: DrainOutcome,
    stderr: DrainOutcome,
    chunks: &Vec<Vec<u8>>,
    on_windows: bool,
) -> (r: Result<RawExecToolCallOutput, CodexErr>)
    ensures
        match r {
            Ok(raw) => {
                &&& has_stdout && has_stderr && wait !is WaitFailed
                &&& stdout.failure() is None && stderr.failure() is None
                &&& raw.exit_status == recorded_exit(wait, on_windows)
                &&& raw.timed_out == (wait is TimedOut)
                &&& raw.stdout.text@ == stdout.bytes()
                &&& raw.stderr.text@ == stderr.bytes()
                &&& raw.aggregated_output.text@ == concatenated(chunk_bytes(chunks@))
                &&& raw.stdout.truncated_after_lines is None
                &&& raw.stderr.truncated_after_lines is None
                &&& raw.aggregated_output.truncated_after_lines is None
            },
            Err(e) => crate::error::is_io_error(
                e,
                if !has_stdout {
                    "stdout pipe was unexpectedly not available"@
                } else if !has_stderr {
                    "stderr pipe was unexpectedly not available"@
                } else if wait is WaitFailed {
                    wait->WaitFailed_0@
                } else if stdout.failure() is Some {
                    stdout.failure()->0
                } else {
                    stderr.failure()->0
                },
            ) && !(has_stdout && has_stderr && wait !is WaitFailed && stdout.failure() is None
                && stderr.failure() is None),
        },
{
    if !has_stdout {
        return Err(CodexErr::Io("stdout pipe was unexpectedly not available".to_owned()));
    }
    if !has_stderr {
        return Err(CodexErr::Io("stderr pipe was unexpectedly not available".to_owned()));
    }
    let (exit_status, timed_out) = match wait {
        WaitOutcome::Exited(status) => (status, false),
        WaitOutcome::WaitFailed(e) => return Err(CodexErr::Io(e)),
        WaitOutcome::TimedOut => (
            synthetic_exit_status(EXIT_CODE_SIGNAL_BASE + TIMEOUT_CODE, on_windows),
            true,
        ),
        WaitOutcome::CtrlC => (
            synthetic_exit_status(EXIT_CODE_SIGNAL_BASE + SIGKILL_CODE, on_windows),
            false,
        ),
    };
    let out = match drained(stdout) {
        Ok(out) => out,
        Err(e) => return Err(e),
    };
    let err = match drained(stderr) {
        Ok(err) => err,
        Err(e) => return Err(e),
    };
    Ok(
        RawExecToolCallOutput {
            exit_status,
            stdout: out,
            stderr: err,
            aggregated_output: aggregate(chunks),
            timed_out,
        },
    )
}

/// What the sandbox of Windows reports of a command.
#[derive(Debug)]
pub struct WindowsCapture {
    pub exit_code: i32,
    pub stdout: Vec<u8>,
    pub stderr: Vec<u8>,
    pub timed_out: bool,
}

/// What running a command in the sandbox of Windows came to.
#[derive(Debug)]
pub enum WindowsSandboxOutcome {
    Captured(WindowsCapture),
    /// The policy could not be written down.
    PolicyFailed(String),
    /// The directory of the agent could not be found.
    HomeFailed(String),
    Failed(String),
    JoinFailed(String),
}

/// Gathers what a command in the sandbox of Windows left behind: stdout, then stderr.
pub fn exec_windows_sandbox(outcome: WindowsSandboxOutcome) -> (r: Result<
    RawExecToolCallOutput,
    CodexErr,
>)
    ensures
        match outcome {
            WindowsSandboxOutcome::Captured(capture) => r matches Ok(raw) && {
                &&& raw.exit_status == (ExitStatus {
                    code: Some(capture.exit_code),
                    signal: None,
                })
                &&& raw.stdout.text == capture.stdout
                &&& raw.stderr.text == capture.stderr
                &&& raw.aggregated_output.text@ == capture.stdout@ + capture.stderr@
                &&& raw.stdout.truncated_after_lines is None
                &&& raw.stderr.truncated_after_lines is None
                &&& raw.aggregated_output.truncated_after_lines is None
                &&& raw.timed_out == capture.timed_out
            },
            WindowsSandboxOutcome::PolicyFailed(e) => r matches Err(x)
                && crate::error::is_io_error(
                x,
                "failed to serialize Windows sandbox policy: "@ + e@,
            ),
            WindowsSandboxOutcome::HomeFailed(e) => r matches Err(x) && crate::error::is_io_error(
                x,
                "windows sandbox: failed to resolve codex_home: "@ + e@,
            ),
            WindowsSandboxOutcome::Failed(e) => r matches Err(x) && crate::error::is_io_error(
                x,
                "windows sandbox: "@ + e@,
            ),
            WindowsSandboxOutcome::JoinFailed(e) => r matches Err(x) && crate::error::is_io_error(
                x,
                "windows sandbox join error: "@ + e@,
            ),
        },
{
    match outcome {
        WindowsSandboxOutcome::Captured(capture) => {
            let mut aggregated: Vec<u8> = Vec::new();
            append_all(&mut aggregated, capture.stdout.as_slice());
            append_all(&mut aggregated, capture.stderr.as_slice());
            assert(aggregated@ =~= capture.stdout@ + capture.stderr@);
            Ok(
                RawExecToolCallOutput {
                    exit_status: ExitStatus { code: Some(capture.exit_code), signal: None },
                    stdout: StreamOutput { text: capture.stdout, truncated_after_lines: None },
                    stderr: StreamOutput { text: capture.stderr, truncated_after_lines: None },
                    aggregated_output: StreamOutput {
                        text: aggregated,
                        truncated_after_lines: None,
                    },
                    timed_out: capture.timed_out,
                },
            )
        },
        WindowsSandboxOutcome::PolicyFailed(e) => {
            let mut message = "failed to serialize Windows sandbox policy: ".to_owned();
            message.append(e.as_str());
            Err(CodexErr::Io(message))
        },
        WindowsSandboxOutcome::HomeFailed(e) => {
            let mut message = "windows sandbox: failed to resolve codex_home: ".to_owned();
            message.append(e.as_str());
            Err(CodexErr::Io(message))
        },
        WindowsSandboxOutcome::Failed(e) => {
            let mut message = "windows sandbox: ".to_owned();
            message.append(e.as_str());
            Err(CodexErr::Io(message))
        },
        WindowsSandboxOutcome::JoinFailed(e) => {
            let mut message = "windows sandbox join error: ".to_owned();
            message.append(e.as_str());
            Err(CodexErr::Io(message))
        },
    }
}

/// A stream as it is read to its end.
#[derive(Debug)]
pub struct CappedReader {
    /// All bytes so far.
    pub buffer: Vec<u8>,
    /// The number of chunks that were reported live.
    pub emitted_deltas: usize,
}

impl CappedReader {
    pub fn new() -> (r: Self)
        ensures
            r.buffer@ == Seq::<u8>::empty(),
            r.emitted_deltas == 0,
    {
        CappedReader { buffer: Vec::new(), emitted_deltas: 0 }
    }

    /// Takes in a chunk. Returns whether it is to be reported live: where someone listens and the
    /// cap is not reached.
    pub fn read(&mut self, chunk: &[u8], has_listener: bool) -> (emit: bool)
        ensures
            final(self).buffer@ == old(self).buffer@ + chunk@,
            emit == (has_listener && old(self).emitted_deltas < MAX_EXEC_OUTPUT_DELTAS_PER_CALL),
            final(self).emitted_deltas == old(self).emitted_deltas + (if emit {
                1int
            } else {
                0
            }),
    {
        let emit = has_listener && self.emitted_deltas < MAX_EXEC_OUTPUT_DELTAS_PER_CALL;
        if emit {
            self.emitted_deltas = self.emitted_deltas + 1;
        }
        append_all(&mut self.buffer, chunk);
        emit
    }

    /// The stream once its end is reached.
    pub fn finish(self) -> (r: StreamOutput<Vec<u8>>)
        ensures
            r.text == self.buffer,
            r.truncated_after_lines is None,
    {
        StreamOutput { text: self.buffer, truncated_after_lines: None }
    }
}

/// Reads a stream that comes in these chunks. Returns all of it, and the number of chunks, from
/// the first on, that are reported live.
pub fn read_capped(chunks: &Vec<Vec<u8>>, has_listener: bool) -> (r: (StreamOutput<Vec<u8>>, usize))
    ensures
        r.0.text@ == concatenated(chunk_bytes(chunks@)),
        r.0.truncated_after_lines is None,
        r.1 == if !has_listener {
            0
        } else if chunks@.len() < MAX_EXEC_OUTPUT_DELTAS_PER_CALL {
            chunks@.len() as int
        } else {
            MAX_EXEC_OUTPUT_DELTAS_PER_CALL as int
        },
{
    let mut reader = CappedReader::new();
    let mut i: usize = 0;
    let ghost all = chunk_bytes(chunks@);
    assert(all.take(0) =~= Seq::empty());
    while i < chunks.len()
        invariant
            all == chunk_bytes(chunks@),
            i <= chunks@.len(),
            reader.buffer@ == concatenated(all.take(i as int)),
            reader.emitted_deltas == if !has_listener {
                0
            } else if i < MAX_EXEC_OUTPUT_DELTAS_PER_CALL {
                i as int
            } else {
                MAX_EXEC_OUTPUT_DELTAS_PER_CALL as int
            },
        decreases chunks@.len() - i,
    {
        let _emit = reader.read(chunks[i].as_slice(), has_listener);
        assert(all.take(i + 1).drop_last() =~= all.take(i as int));
        assert(all.take(i + 1).last() == chunks@[i as int]@);
        i += 1;
    }
    assert(all.take(i as int) =~= all);
    let emitted = reader.emitted_deltas;
    (reader.finish(), emitted)
}

/// The words by which a sandbox makes itself known in a command's output.
pub open spec fn has_denial_keyword(lower: Seq<char>) -> bool {
    text::occurs_in(lower, "operation not permitted"@) || text::occurs_in(
        lower,
        "permission denied"@,
    ) || text::occurs_in(lower, "read-only file system"@) || text::occurs_in(lower, "seccomp"@)
        || text::occurs_in(lower, "sandbox"@) || text::occurs_in(lower, "landlock"@)
        || text::occurs_in(lower, "failed to write file"@)
}

/// The shell's own exit codes: misuse of a builtin, no permission, no such command.
pub open spec fn is_shell_exit_code(code: i32) -> bool {
    code == 2 || code == 126 || code == 127
}

/// Whether the sandbox likely stopped a command, given its three outputs in lowercase and the
/// number of the signal for a forbidden system call, which Windows does not have.
pub open spec fn sandbox_denied(
    sandbox_type: SandboxType,
    exit_code: i32,
    stderr: Seq<char>,
    stdout: Seq<char>,
    aggregated: Seq<char>,
    sigsys: i32,
    on_windows: bool,
) -> bool {
    &&& sandbox_type != SandboxType::Unsandboxed
    &&& exit_code != 0
    &&& {
        ||| has_denial_keyword(stderr) || has_denial_keyword(stdout) || has_denial_keyword(
            aggregated,
        )
        ||| !is_shell_exit_code(exit_code) && !on_windows && sandbox_type
            == SandboxType::LinuxSeccomp && exit_code == EXIT_CODE_SIGNAL_BASE + sigsys
    }
}

/// Whether the sandbox likely stopped a command that left this behind.
pub open spec fn output_denied(
    sandbox_type: SandboxType,
    exit_code: i32,
    output: ExecToolCallOutput,
    sigsys: i32,
    on_windows: bool,
) -> bool {
    sandbox_denied(
        sandbox_type,
        exit_code,
        unicode_lower(output.stderr.text@),
        unicode_lower(output.stdout.text@),
        unicode_lower(output.aggregated_output.text@),
        sigsys,
        on_windows,
    )
}

/// Whether one of the sandbox's words stands in a lowercase text.
fn holds_denial_keyword(lower: &str) -> (r: bool)
    ensures
        r == has_denial_keyword(lower@),
{
    text::contains(lower, "operation not permitted") || text::contains(lower, "permission denied")
        || text::contains(lower, "read-only file system") || text::contains(lower, "seccomp")
        || text::contains(lower, "sandbox") || text::contains(lower, "landlock")
        || text::contains(lower, "failed to write file")
}

/// Whether the sandbox likely stopped a command, given its three outputs in lowercase and the
/// number of the signal for a forbidden system call.
pub fn is_denied_given(
    sandbox_type: SandboxType,
    exit_code: i32,
    stderr: &str,
    stdout: &str,
    aggregated: &str,
    sigsys: i32,
    on_windows: bool,
) -> (r: bool)
    requires
        is_sigsys(sigsys),
    ensures
        r == sandbox_denied(
            sandbox_type,
            exit_code,
            stderr@,
            stdout@,
            aggregated@,
            sigsys,
            on_windows,
        ),
{
    if sandbox_type == SandboxType::Unsandboxed || exit_code == 0 {
        return false;
    }
    if holds_denial_keyword(stderr) || holds_denial_keyword(stdout) || holds_denial_keyword(
        aggregated,
    ) {
        return true;
    }
    if exit_code == 2 || exit_code == 126 || exit_code == 127 {
        return false;
    }
    !on_windows && sandbox_type == SandboxType::LinuxSeccomp && exit_code == EXIT_CODE_SIGNAL_BASE
        + sigsys
}

/// Whether a command likely failed because of its sandbox. There is no certain way to tell: a
/// command in the user's startup file may hit an error while the command itself fails or succeeds
/// for other reasons. What counts is a nonzero exit code with a word that sandboxes use in the
/// output, or the exit code for the signal that seccomp sends, whose number is the platform's and
/// which Windows does not have.
pub fn is_likely_sandbox_denied(
    sandbox_type: SandboxType,
    exec_output: &ExecToolCallOutput,
    on_windows: bool,
) -> (r: bool)
    ensures
        exists|sigsys: i32|
            is_sigsys(sigsys) && r == #[trigger] output_denied(
                sandbox_type,
                exec_output.exit_code,
                *exec_output,
                sigsys,
                on_windows,
            ),
{
    let stderr = to_lowercase(exec_output.stderr.text.as_str());
    let stdout = to_lowercase(exec_output.stdout.text.as_str());
    let aggregated = to_lowercase(exec_output.aggregated_output.text.as_str());
    let sigsys = sigsys_code();
    let denied = is_denied_given(
        sandbox_type,
        exec_output.exit_code,
        stderr.as_str(),
        stdout.as_str(),
        aggregated.as_str(),
        sigsys,
        on_windows,
    );
    assert(denied == output_denied(
        sandbox_type,
        exec_output.exit_code,
        *exec_output,
        sigsys,
        on_windows,
    ));
    denied
}

/// The signal that ended a command. Windows knows none.
pub open spec fn ending_signal(raw: RawExecToolCallOutput, on_windows: bool) -> Option<i32> {
    if on_windows {
        None
    } else {
        raw.exit_status.signal
    }
}

/// Whether a command ended because its time was over.
pub open spec fn ran_out_of_time(raw: RawExecToolCallOutput, on_windows: bool) -> bool {
    raw.timed_out || ending_signal(raw, on_windows) == Some(TIMEOUT_CODE)
}

/// Whether `out` is the text of what a command left behind.
pub open spec fn is_text_of(
    out: ExecToolCallOutput,
    raw: RawExecToolCallOutput,
    duration: std::time::Duration,
    on_windows: bool,
) -> bool {
    &&& out.timed_out == ran_out_of_time(raw, on_windows)
    &&& out.exit_code == if ran_out_of_time(raw, on_windows) {
        EXEC_TIMEOUT_EXIT_CODE as int
    } else {
        match raw.exit_status.code {
            Some(code) => code as int,
            None => -1,
        }
    }
    &&& is_decoded(out.stdout, raw.stdout)
    &&& is_decoded(out.stderr, raw.stderr)
    &&& is_decoded(out.aggregated_output, raw.aggregated_output)
    &&& out.duration == duration
}

/// The text of what a command left behind, unless a signal other than the timeout's ended it.
pub fn decode_output(
    raw: RawExecToolCallOutput,
    duration: std::time::Duration,
    on_windows: bool,
) -> (r: Result<ExecToolCallOutput, CodexErr>)
    ensures
        ({
            let signal = ending_signal(raw, on_windows);
            match r {
                Ok(out) => (signal is None || signal == Some(TIMEOUT_CODE)) && is_text_of(
                    out,
                    raw,
                    duration,
                    on_windows,
                ),
                Err(e) => signal is Some && signal != Some(TIMEOUT_CODE) && e == CodexErr::Sandbox(
                    SandboxErr::Signal(signal->0),
                ),
            }
        }),
{
    let mut timed_out = raw.timed_out;
    let signal = if on_windows {
        None
    } else {
        raw.exit_status.signal
    };
    if let Some(signal) = signal {
        if signal == TIMEOUT_CODE {
            timed_out = true;
        } else {
            return Err(CodexErr::Sandbox(SandboxErr::Signal(signal)));
        }
    }
    let mut exit_code: i32 = match raw.exit_status.code {
        Some(code) => code,
        None => -1,
    };
    if timed_out {
        exit_code = EXEC_TIMEOUT_EXIT_CODE;
    }
    Ok(
        ExecToolCallOutput {
            exit_code,
            stdout: raw.stdout.from_utf8_lossy(),
            stderr: raw.stderr.from_utf8_lossy(),
            aggregated_output: raw.aggregated_output.from_utf8_lossy(),
            duration,
            timed_out,
        },
    )
}

/// What a command's output means, given whether its sandbox stopped it: a timeout and a denial are
/// errors that keep the output.
pub open spec fn is_outcome_of(
    r: Result<ExecToolCallOutput, CodexErr>,
    out: ExecToolCallOutput,
    denied: bool,
) -> bool {
    match r {
        Ok(kept) => !out.timed_out && !denied && kept == out,
        Err(CodexErr::Sandbox(SandboxErr::Timeout { output })) => out.timed_out && *output == out,
        Err(CodexErr::Sandbox(SandboxErr::Denied { output })) => !out.timed_out && denied && *output
            == out,
        Err(_) => false,
    }
}

/// What a command's output means, given whether its sandbox stopped it.
pub fn judge_output(out: ExecToolCallOutput, denied: bool) -> (r: Result<
    ExecToolCallOutput,
    CodexErr,
>)
    ensures
        is_outcome_of(r, out, denied),
{
    if out.timed_out {
        return Err(CodexErr::Sandbox(SandboxErr::Timeout { output: Box::new(out) }));
    }
    if denied {
        return Err(CodexErr::Sandbox(SandboxErr::Denied { output: Box::new(out) }));
    }
    Ok(out)
}

/// Whether `r` is what a command that left `raw` behind comes to, where `sigsys` is the number of
/// the signal for a forbidden system call.
pub open spec fn is_final_result(
    r: Result<ExecToolCallOutput, CodexErr>,
    raw: RawExecToolCallOutput,
    sandbox_type: SandboxType,
    duration: std::time::Duration,
    sigsys: i32,
    on_windows: bool,
) -> bool {
    let signal = ending_signal(raw, on_windows);
    if signal is Some && signal != Some(TIMEOUT_CODE) {
        r == Err::<ExecToolCallOutput, CodexErr>(CodexErr::Sandbox(SandboxErr::Signal(signal->0)))
    } else {
        exists|out: ExecToolCallOutput|
            #[trigger] is_text_of(out, raw, duration, on_windows) && is_outcome_of(
                r,
                out,
                output_denied(sandbox_type, out.exit_code, out, sigsys, on_windows),
            )
    }
}

/// What a command comes to. An error in running it is passed on; a signal, a timeout and a likely
/// denial by the sandbox are errors.
pub fn finalize_exec_result(
    raw_output_result: Result<RawExecToolCallOutput, CodexErr>,
    sandbox_type: SandboxType,
    duration: std::time::Duration,
    on_windows: bool,
) -> (r: Result<ExecToolCallOutput, CodexErr>)
    ensures
        match raw_output_result {
            Ok(raw) => exists|sigsys: i32|
                is_sigsys(sigsys) && #[trigger] is_final_result(
                    r,
                    raw,
                    sandbox_type,
                    duration,
                    sigsys,
                    on_windows,
                ),
            Err(e) => r == Err::<ExecToolCallOutput, CodexErr>(e),
        },
{
    match raw_output_result {
        Ok(raw) => {
            let ghost kept = raw;
            match decode_output(raw, duration, on_windows) {
                Ok(out) => {
                    let ghost text = out;
                    let denied = is_likely_sandbox_denied(sandbox_type, &out, on_windows);
                    let r = judge_output(out, denied);
                    proof {
                        let sigsys = choose|sigsys: i32|
                            is_sigsys(sigsys) && denied == #[trigger] output_denied(
                                sandbox_type,
                                text.exit_code,
                                text,
                                sigsys,
                                on_windows,
                            );
                        assert(is_text_of(text, kept, duration, on_windows));
                        assert(is_final_result(
                            r,
                            kept,
                            sandbox_type,
                            duration,
                            sigsys,
                            on_windows,
                        ));
                    }
                    r
                },
                Err(e) => {
                    let r = Err(e);
                    assert(is_final_result(r, kept, sandbox_type, duration, 31, on_windows));
                    r
                },
            }
        },
        Err(e) => Err(e),
    }
}

/// The error for a command that could not be put into its sandbox.
pub fn transform_error(err: SandboxTransformError) -> (r: CodexErr)
    ensures
        match err {
            SandboxTransformError::MissingLinuxSandboxExecutable => r
                == CodexErr::LandlockSandboxExecutableNotProvided,
            SandboxTransformError::SeatbeltUnavailable => r matches CodexErr::UnsupportedOperation(
                m,
            ) && m@ == "seatbelt sandbox is only available on macOS"@,
        },
{
    match err {
        SandboxTransformError::MissingLinuxSandboxExecutable => {
            CodexErr::LandlockSandboxExecutableNotProvided
        },
        SandboxTransformError::SeatbeltUnavailable => CodexErr::UnsupportedOperation(
            "seatbelt sandbox is only available on macOS".to_owned(),
        ),
    }
}

/// A command that was killed because its time was over comes out as timed out, whatever its pipes
/// gave and wherever it ran.
pub proof fn law_timed_out_command_is_a_timeout(
    raw: RawExecToolCallOutput,
    r: Result<ExecToolCallOutput, CodexErr>,
    sandbox_type: SandboxType,
    duration: std::time::Duration,
    sigsys: i32,
    on_windows: bool,
)
    requires
        raw.exit_status == recorded_exit(WaitOutcome::TimedOut, on_windows),
        raw.timed_out,
        is_final_result(r, raw, sandbox_type, duration, sigsys, on_windows),
    ensures
        r matches Err(CodexErr::Sandbox(SandboxErr::Timeout { output })) && output.exit_code
            == EXEC_TIMEOUT_EXIT_CODE,
{
}

/// A command that the user interrupted comes out as killed by a signal; on Windows, which has no
/// signals, it comes out with the exit code that stands for the signal.
pub proof fn law_interrupted_command_is_told_apart(
    raw: RawExecToolCallOutput,
    r: Result<ExecToolCallOutput, CodexErr>,
    sandbox_type: SandboxType,
    duration: std::time::Duration,
    sigsys: i32,
    on_windows: bool,
)
    requires
        raw.exit_status == recorded_exit(WaitOutcome::CtrlC, on_windows),
        !raw.timed_out,
        is_final_result(r, raw, sandbox_type, duration, sigsys, on_windows),
    ensures
        !on_windows ==> r == Err::<ExecToolCallOutput, CodexErr>(
            CodexErr::Sandbox(SandboxErr::Signal(SIGKILL_CODE)),
        ),
        on_windows ==> match r {
            Ok(output) => output.exit_code == EXIT_CODE_SIGNAL_BASE + SIGKILL_CODE,
            Err(CodexErr::Sandbox(SandboxErr::Denied { output })) => output.exit_code
                == EXIT_CODE_SIGNAL_BASE + SIGKILL_CODE,
            Err(_) => false,
        },
{
}

/// Outside of a sandbox, and where a command succeeds, nothing counts as a denial.
pub proof fn law_no_denial_without_sandbox_or_failure(
    sandbox_type: SandboxType,
    exit_code: i32,
    stderr: Seq<char>,
    stdout: Seq<char>,
    aggregated: Seq<char>,
    sigsys: i32,
    on_windows: bool,
)
    requires
        sandbox_type == SandboxType::Unsandboxed || exit_code == 0,
    ensures
        !sandbox_denied(
            sandbox_type,
            exit_code,
            stderr,
            stdout,
            aggregated,
            sigsys,
            on_windows,
        ),
{
}

/// Whether a text, in lowercase, speaks of a denial.
pub open spec fn speaks_of_denial(lower: Seq<char>) -> bool {
    ||| text::occurs_in(lower, "operation not permitted"@)
    ||| text::occurs_in(lower, "permission denied"@)
    ||| text::occurs_in(lower, "read-only file system"@)
    ||| text::occurs_in(lower, "seccomp"@)
    ||| text::occurs_in(lower, "sandbox"@)
    ||| text::occurs_in(lower, "landlock"@)
    ||| text::occurs_in(lower, "failed to write file"@)
}

/// A command that failed in a sandbox was denied exactly where one of its outputs speaks of a
/// denial, or where on Linux the signal for a forbidden system call ended it.
pub proof fn law_denial_is_spoken_of_or_signalled(
    sandbox_type: SandboxType,
    exit_code: i32,
    stderr: Seq<char>,
    stdout: Seq<char>,
    aggregated: Seq<char>,
    sigsys: i32,
    on_windows: bool,
)
    requires
        is_sigsys(sigsys),
        sandbox_type != SandboxType::Unsandboxed,
        exit_code != 0,
    ensures
        sandbox_denied(
            sandbox_type,
            exit_code,
            stderr,
            stdout,
            aggregated,
            sigsys,
            on_windows,
        ) <==> speaks_of_denial(stderr) || speaks_of_denial(stdout) || speaks_of_denial(aggregated)
            || (sandbox_type == SandboxType::LinuxSeccomp && !on_windows && exit_code == 128
            + sigsys),
{
}

/// How a command ended is read from its status: from the second byte its code where no signal ended
/// it, and else from the lowest bits the signal; on Windows the status is the code.
pub proof fn law_status_tells_code_and_signal(code: int, signal: int, raw: i32)
    requires
        0 <= code < 256,
        1 <= signal < 127,
    ensures
        exit_status_of((code * 256) as i32, false) == (ExitStatus {
            code: Some(code as i32),
            signal: None,
        }),
        exit_status_of(signal as i32, false) == (ExitStatus {
            code: None,
            signal: Some(signal as i32),
        }),
        exit_status_of((128 + signal) as i32, false) == (ExitStatus {
            code: None,
            signal: Some(signal as i32),
        }),
        exit_status_of(raw, true) == (ExitStatus { code: Some(raw), signal: None }),
{
    assert((code * 256) % 128 == 0) by (nonlinear_arith);
    assert((code * 256) / 256 == code) by (nonlinear_arith);
}

/// A command that ended by itself keeps its status; one that took too long gets the status of a
/// signal of its own, and one that was interrupted that of being killed.
pub proof fn law_ending_is_recorded(status: ExitStatus, on_windows: bool)
    ensures
        recorded_exit(WaitOutcome::Exited(status), on_windows) == status,
        recorded_exit(WaitOutcome::TimedOut, on_windows) == if on_windows {
            ExitStatus { code: Some(192), signal: None }
        } else {
            ExitStatus { code: None, signal: Some(64) }
        },
        recorded_exit(WaitOutcome::CtrlC, on_windows) == if on_windows {
            ExitStatus { code: Some(137), signal: None }
        } else {
            ExitStatus { code: None, signal: Some(9) }
        },
{
}

/// Only a command that took too long or was interrupted has to be killed.
pub proof fn law_only_running_commands_are_killed(outcome: WaitOutcome)
    ensures
        outcome.kills() <==> outcome == WaitOutcome::TimedOut || outcome == WaitOutcome::CtrlC,
{
}

/// A command that took too long is told as such, with an exit code of its own; one that a signal
/// ended is told by the signal; any other is told with its own exit code, and is denied only where
/// its output counts as a denial. In each case the outputs are those of the command.
pub proof fn law_result_is_that_of_the_command(
    r: Result<ExecToolCallOutput, CodexErr>,
    raw: RawExecToolCallOutput,
    sandbox_type: SandboxType,
    duration: std::time::Duration,
    sigsys: i32,
    on_windows: bool,
)
    requires
        is_final_result(r, raw, sandbox_type, duration, sigsys, on_windows),
    ensures
        ({
            let signal = if on_windows {
                None
            } else {
                raw.exit_status.signal
            };
            let stopped = signal is Some && signal != Some(64i32);
            let late = raw.timed_out || signal == Some(64i32);
            &&& stopped ==> r == Err::<ExecToolCallOutput, CodexErr>(
                CodexErr::Sandbox(SandboxErr::Signal(signal->0)),
            )
            &&& !stopped ==> match r {
                Ok(out) => !late && is_output_of(out, raw, duration),
                Err(CodexErr::Sandbox(SandboxErr::Denied { output })) => !late && is_output_of(
                    *output,
                    raw,
                    duration,
                ) && sandbox_type != SandboxType::Unsandboxed && output.exit_code != 0,
                Err(CodexErr::Sandbox(SandboxErr::Timeout { output })) => late && output.timed_out
                    && output.exit_code == 124 && has_outputs_of(*output, raw),
                _ => false,
            }
            &&& !stopped && !late && sandbox_type == SandboxType::Unsandboxed ==> r is Ok
            &&& !stopped && !late && raw.exit_status.code == Some(0i32) ==> r is Ok
        }),
{
    let signal = ending_signal(raw, on_windows);
    if !(signal is Some && signal != Some(TIMEOUT_CODE)) {
        let out = choose|out: ExecToolCallOutput|
            #[trigger] is_text_of(out, raw, duration, on_windows) && is_outcome_of(
                r,
                out,
                output_denied(sandbox_type, out.exit_code, out, sigsys, on_windows),
            );
        assert(is_text_of(out, raw, duration, on_windows));
    }
}

/// Whether a result holds the outputs of a command as text.
pub open spec fn has_outputs_of(out: ExecToolCallOutput, raw: RawExecToolCallOutput) -> bool {
    &&& out.stdout.text@ == utf8_lossy(raw.stdout.text@)
    &&& out.stderr.text@ == utf8_lossy(raw.stderr.text@)
    &&& out.aggregated_output.text@ == utf8_lossy(raw.aggregated_output.text@)
    &&& out.stdout.truncated_after_lines == raw.stdout.truncated_after_lines
    &&& out.stderr.truncated_after_lines == raw.stderr.truncated_after_lines
    &&& out.aggregated_output.truncated_after_lines == raw.aggregated_output.truncated_after_lines
}

/// Whether a result is that of a command that ended in time: with its outputs, its duration and its
/// exit code, where it has one.
pub open spec fn is_output_of(
    out: ExecToolCallOutput,
    raw: RawExecToolCallOutput,
    duration: std::time::Duration,
) -> bool {
    &&& has_outputs_of(out, raw)
    &&& !out.timed_out
    &&& out.duration == duration
    &&& match raw.exit_status.code {
        Some(code) => out.exit_code == code,
        None => out.exit_code == -1,
    }
}

/// Chunks are put together in the order in which they came, and none is lost.
pub proof fn law_chunks_are_put_together(a: Seq<Seq<u8>>, b: Seq<Seq<u8>>, chunk: Seq<u8>)
    ensures
        concatenated(a + b) == concatenated(a) + concatenated(b),
        concatenated(seq![chunk]) == chunk,
    decreases b.len(),
{
    assert(seq![chunk].drop_last() =~= Seq::<Seq<u8>>::empty());
    assert(seq![chunk].last() == chunk);
    assert(concatenated(Seq::<Seq<u8>>::empty()) =~= Seq::<u8>::empty());
    assert(concatenated(seq![chunk]) =~= chunk);
    if b.len() == 0 {
        assert(a + b =~= a);
        assert(concatenated(a) + concatenated(b) =~= concatenated(a));
    } else {
        law_chunks_are_put_together(a, b.drop_last(), chunk);
        assert((a + b).drop_last() =~= a + b.drop_last());
        assert((a + b).last() == b.last());
        assert(concatenated(a + b) =~= concatenated(a) + concatenated(b));
    }
}

/// What was read from a pipe is kept, and where it could not be read the reason is; a pipe that
/// stayed open gives nothing, and is no failure.
pub proof fn law_pipe_gives_bytes_or_a_reason(bytes: Vec<u8>, why: String)
    ensures
        DrainOutcome::Read(bytes).bytes() == bytes@,
        DrainOutcome::Read(bytes).failure() is None,
        DrainOutcome::IoFailed(why).failure() == Some(why@),
        DrainOutcome::JoinFailed(why).failure() == Some(why@),
        DrainOutcome::TimedOut.failure() is None,
        DrainOutcome::TimedOut.bytes().len() == 0,
{
}

/// A command has the time that it asks for, and ten seconds where it asks for none.
pub proof fn law_commands_have_ten_seconds(params: ExecParams, r: std::time::Duration)
    requires
        call_ensures(ExecParams::timeout_duration, (&params,), r),
    ensures
        params.timeout_ms is None ==> r == duration_of_millis(10_000),
        params.timeout_ms is Some ==> r == duration_of_millis(params.timeout_ms->0),
{
}

/// A command is its first word with the others as arguments, and none is refused but the empty one.
pub proof fn law_commands_are_split(params: ExecParams, r: Result<CommandSpec, CodexErr>)
    requires
        call_ensures(process_exec_tool_call, (params,), r),
    ensures
        r is Ok <==> params.command@.len() > 0,
        r matches Ok(spec) ==> seq![spec.program] + spec.args@ == params.command@ && spec.cwd
            == params.cwd && spec.env == params.env && spec.timeout_ms == params.timeout_ms
            && spec.with_escalated_permissions == params.with_escalated_permissions
            && spec.justification == params.justification,
        r is Err ==> (r->Err_0 matches CodexErr::Io(m) && m@ == "command args are empty"@),
{
    if let Ok(spec) = r {
        assert(seq![spec.program] + spec.args@ =~= params.command@);
    }
}

/// The sandbox of Windows runs a command exactly where it was selected there and not everything is
/// allowed; any other command is a child process, with its own words, directory and environment.
pub proof fn law_windows_sandbox_runs_its_commands(
    params: ExecParams,
    sandbox: SandboxType,
    policy: SandboxPolicy,
    on_windows: bool,
    r: Result<Launch, CodexErr>,
)
    requires
        call_ensures(exec, (params, sandbox, &policy, on_windows), r),
    ensures
        ({
            let sandboxed = on_windows && sandbox == SandboxType::WindowsRestrictedToken && policy
                != SandboxPolicy::DangerFullAccess;
            &&& sandboxed ==> r == Ok::<Launch, CodexErr>(Launch::WindowsSandbox(params))
            &&& !sandboxed && params.command@.len() == 0 ==> r is Err
            &&& !sandboxed && params.command@.len() > 0 ==> (r matches Ok(
                Launch::Child { program, args, arg0, cwd, env, timeout },
            ) && seq![program] + args@ == params.command@ && arg0 == params.arg0 && cwd
                == params.cwd && env == params.env && timeout == duration_of_millis(
                if params.timeout_ms is Some {
                    params.timeout_ms->0
                } else {
                    10_000
                },
            ))
        }),
{
    if let Ok(Launch::Child { program, args, .. }) = r {
        assert(seq![program] + args@ =~= params.command@);
    }
}

/// What is collected of a command is what its pipes gave, and how it ended; whatever cannot be had
/// of it, the first such thing is the error.
pub proof fn law_everything_is_collected(
    has_stdout: bool,
    has_stderr: bool,
    wait: WaitOutcome,
    stdout: DrainOutcome,
    stderr: DrainOutcome,
    chunks: Vec<Vec<u8>>,
    on_windows: bool,
    r: Result<RawExecToolCallOutput, CodexErr>,
)
    requires
        call_ensures(
            consume_truncated_output,
            (has_stdout, has_stderr, wait, stdout, stderr, &chunks, on_windows),
            r,
        ),
    ensures
        r is Ok <==> has_stdout && has_stderr && wait !is WaitFailed && stdout.failure() is None
            && stderr.failure() is None,
        r matches Ok(raw) ==> {
            &&& raw.exit_status == recorded_exit(wait, on_windows)
            &&& raw.timed_out <==> wait == WaitOutcome::TimedOut
            &&& raw.stdout.text@ == stdout.bytes()
            &&& raw.stderr.text@ == stderr.bytes()
            &&& raw.aggregated_output.text@ == concatenated(chunk_bytes(chunks@))
        },
        !has_stdout ==> (r matches Err(CodexErr::Io(m)) && m@
            == "stdout pipe was unexpectedly not available"@),
        has_stdout && !has_stderr ==> (r matches Err(CodexErr::Io(m)) && m@
            == "stderr pipe was unexpectedly not available"@),
        has_stdout && has_stderr ==> match wait {
            WaitOutcome::WaitFailed(why) => r matches Err(CodexErr::Io(m)) && m@ == why@,
            _ => {
                &&& stdout.failure() is Some ==> (r matches Err(CodexErr::Io(m)) && m@
                    == stdout.failure()->0)
                &&& stdout.failure() is None && stderr.failure() is Some ==> (r matches Err(
                    CodexErr::Io(m),
                ) && m@ == stderr.failure()->0)
            },
        },
{
}

/// What the sandbox of Windows captured is the output of the command, both streams one after the
/// other where they are put together; what went wrong with it is told by its stage.
pub proof fn law_capture_is_the_output(
    outcome: WindowsSandboxOutcome,
    r: Result<RawExecToolCallOutput, CodexErr>,
)
    requires
        call_ensures(exec_windows_sandbox, (outcome,), r),
    ensures
        match outcome {
            WindowsSandboxOutcome::Captured(c) => r matches Ok(raw) && raw.exit_status.code == Some(
                c.exit_code,
            ) && raw.exit_status.signal is None && raw.stdout.text == c.stdout && raw.stderr.text
                == c.stderr && raw.aggregated_output.text@ == c.stdout@ + c.stderr@ && raw.timed_out
                == c.timed_out,
            WindowsSandboxOutcome::PolicyFailed(e) => r matches Err(CodexErr::Io(m)) && m@
                == "failed to serialize Windows sandbox policy: "@ + e@,
            WindowsSandboxOutcome::HomeFailed(e) => r matches Err(CodexErr::Io(m)) && m@
                == "windows sandbox: failed to resolve codex_home: "@ + e@,
            WindowsSandboxOutcome::Failed(e) => r matches Err(CodexErr::Io(m)) && m@
                == "windows sandbox: "@ + e@,
            WindowsSandboxOutcome::JoinFailed(e) => r matches Err(CodexErr::Io(m)) && m@
                == "windows sandbox join error: "@ + e@,
        },
{
}

/// All of the output is kept, while no more than ten thousand chunks of it are reported as they come.
pub proof fn law_output_is_kept_whole(
    chunks: Vec<Vec<u8>>,
    has_listener: bool,
    r: (StreamOutput<Vec<u8>>, usize),
)
    requires
        call_ensures(read_capped, (&chunks, has_listener), r),
    ensures
        r.0.text@ == concatenated(chunk_bytes(chunks@)),
        !has_listener ==> r.1 == 0,
        has_listener && chunks@.len() <= 10_000 ==> r.1 == chunks@.len(),
        has_listener && chunks@.len() > 10_000 ==> r.1 == 10_000,
{
}

/// A sandbox that cannot be set up is told as what is missing for it.
pub proof fn law_missing_sandbox_is_told(err: SandboxTransformError, r: CodexErr)
    requires
        call_ensures(transform_error, (err,), r),
    ensures
        err == SandboxTransformError::MissingLinuxSandboxExecutable ==> r
            == CodexErr::LandlockSandboxExecutableNotProvided,
        err == SandboxTransformError::SeatbeltUnavailable ==> (
        r matches CodexErr::UnsupportedOperation(m) && m@
            == "seatbelt sandbox is only available on macOS"@),
{
}

/// What an environment runs is run as it says, in the sandbox that it says.
pub proof fn law_environment_is_run_as_it_says(env: ExecEnv, r: (ExecParams, SandboxType))
    requires
        call_ensures(execute_exec_env, (env,), r),
    ensures
        r.0.command == env.command,
        r.0.cwd == env.cwd,
        r.0.env == env.env,
        r.0.timeout_ms == env.timeout_ms,
        r.0.with_escalated_permissions == env.with_escalated_permissions,
        r.0.justification == env.justification,
        r.0.arg0 == env.arg0,
        r.1 == env.sandbox,
{
}

/// Of each chunk that comes in everything is kept, and it is reported while there is somebody to
/// report it to and fewer than ten thousand were.
pub proof fn law_chunks_are_reported(
    reader: &mut CappedReader,
    chunk: &[u8],
    has_listener: bool,
    emit: bool,
)
    requires
        call_ensures(CappedReader::read, (reader, chunk, has_listener), emit),
    ensures
        final(reader).buffer@ == old(reader).buffer@ + chunk@,
        emit <==> has_listener && old(reader).emitted_deltas < 10_000,
        emit ==> final(reader).emitted_deltas == old(reader).emitted_deltas + 1,
        !emit ==> final(reader).emitted_deltas == old(reader).emitted_deltas,
{
}

} // verus!
