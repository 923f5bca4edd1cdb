//! The sessions of interactive commands.
use std::collections::HashMap;
use vstd::prelude::*;

use crate::exec;
use crate::exec::{ExecToolCallOutput, StreamOutput};
use crate::shell;
use crate::shell::{HostShells, Shell};
use crate::shell_words;
use crate::text;
use crate::tools::runtimes::unified_exec::UnifiedExecRequest;
use crate::tools::sandboxing::ApprovalRequirement;
use crate::unified_exec::errors::UnifiedExecError;
use crate::unified_exec::limits;

verus! {

/// A request to run a command.
#[derive(Debug)]
pub struct ExecCommandRequest {
    pub command: String,
    pub shell: String,
    pub login: bool,
    pub yield_time_ms: Option<u64>,
    pub max_output_tokens: Option<usize>,
    pub workdir: Option<String>,
    pub with_escalated_permissions: Option<bool>,
    pub justification: Option<String>,
}

/// A session that is kept.
#[derive(Debug)]
pub struct SessionEntry {
    /// What the owner of the process knows it by.
    pub process: u64,
    pub call_id: String,
    pub command: Vec<String>,
    pub cwd: String,
}

/// What the process of a session is at.
#[derive(Debug, Clone, Copy, PartialEq, Eq, Structural)]
pub struct ProcessState {
    pub has_exited: bool,
    pub exit_code: Option<i32>,
}

/// What became of a session.
#[derive(Debug)]
pub enum SessionStatus {
    Alive { exit_code: Option<i32>, call_id: String },
    Exited { exit_code: Option<i32>, entry: Box<SessionEntry> },
    Unknown,
}

/// A piece of output, ready to be given to the model.
#[derive(Debug)]
pub struct OutputChunk {
    pub chunk_id: String,
    pub output: String,
    pub original_token_count: Option<usize>,
}

/// What is said of a call.
#[derive(Debug)]
pub struct UnifiedExecResponse {
    pub event_call_id: String,
    pub chunk_id: String,
    pub output: String,
    pub session_id: Option<i32>,
    pub exit_code: Option<i32>,
    pub original_token_count: Option<usize>,
    pub session_command: Option<Vec<String>>,
}

/// What is told the user after a call.
#[derive(Debug)]
pub enum FollowUp {
    /// The command goes on; this is what it is waited for with.
    Waiting(String),
    /// The command is over, with this exit code.
    Ended(i32),
    /// Nothing.
    Silent,
}

/// The sessions that are kept.
#[derive(Debug)]
pub struct UnifiedExecSessionManager {
    next_session_id: i32,
    sessions: HashMap<i32, SessionEntry>,
}

/// What writing to a session needs.
#[derive(Debug)]
pub struct WritePlan {
    pub process: u64,
    pub command: Vec<String>,
    pub cwd: String,
    /// What is written; nothing where the call only waits for output.
    pub input: Option<String>,
    pub yield_time_ms: u64,
    pub max_tokens: usize,
}

/// How a command is opened.
#[derive(Debug)]
pub struct OpenPlan {
    pub cwd: String,
    pub yield_time_ms: u64,
    pub max_tokens: usize,
}

/// The next number after a session's.
pub open spec fn following_id(id: i32) -> i32 {
    if id == i32::MAX {
        i32::MIN
    } else {
        (id + 1) as i32
    }
}

/// The sessions after a command was run: one that goes on is kept under the next number.
pub open spec fn after_exec(
    table: Map<i32, SessionEntry>,
    next_id: i32,
    entry: SessionEntry,
    process: ProcessState,
) -> Map<i32, SessionEntry> {
    if process.has_exited {
        table
    } else {
        table.insert(next_id, entry)
    }
}

/// The sessions after one of them was written to: it is no longer kept once its process is over.
pub open spec fn after_write(
    table: Map<i32, SessionEntry>,
    session_id: i32,
    process: ProcessState,
) -> Map<i32, SessionEntry> {
    if process.has_exited {
        table.remove(session_id)
    } else {
        table
    }
}

/// The line in which the user is told what is waited for.
pub open spec fn waiting_line(command: Seq<String>) -> Seq<char> {
    "Waiting for `"@ + text::joined(text::texts(command), " "@) + "`"@
}

/// The line in which the user is told what is waited for.
fn waiting_message(command: &Vec<String>) -> (r: String)
    ensures
        r@ == waiting_line(command@),
{
    let mut message = "Waiting for `".to_owned();
    let display = text::join(command, " ");
    message.append(display.as_str());
    message.append("`");
    message
}

/// The words that make the shell of a request run its command.
pub fn request_command(request: &ExecCommandRequest, host: &HostShells) -> (r: Vec<String>)
    ensures
        exists|found: Shell|
            {
                &&& #[trigger] shell::shell_model(found) == shell::model_provided_shell(
                    *host,
                    request.shell@,
                )
                &&& text::texts(r@) == shell::exec_args(
                    found,
                    request.command@,
                    request.login,
                    shell_words::shlex_words(request.command@),
                )
            },
{
    let found = shell::get_shell_by_model_provided_path(&request.shell, host);
    found.derive_exec_args(request.command.as_str(), request.login)
}

impl UnifiedExecSessionManager {
    /// The sessions by their numbers.
    pub closed spec fn table(self) -> Map<i32, SessionEntry> {
        self.sessions@
    }

    /// The number of the session that is stored next.
    pub closed spec fn next_id(self) -> i32 {
        self.next_session_id
    }

    pub fn new() -> (r: Self)
        ensures
            r.table() == Map::<i32, SessionEntry>::empty(),
            r.next_id() == 0,
    {
        broadcast use vstd::std_specs::hash::group_hash_axioms;

        UnifiedExecSessionManager { next_session_id: 0, sessions: HashMap::new() }
    }

    /// The number of the next session.
    fn take_id(&mut self) -> (id: i32)
        ensures
            id == old(self).next_id(),
            final(self).next_id() == following_id(id),
            final(self).table() == old(self).table(),
    {
        let id = self.next_session_id;
        self.next_session_id = if id == i32::MAX {
            i32::MIN
        } else {
            id + 1
        };
        id
    }

    /// Keeps a session under a new number.
    pub fn store_session(&mut self, entry: SessionEntry) -> (id: i32)
        ensures
            id == old(self).next_id(),
            final(self).next_id() == following_id(id),
            final(self).table() == old(self).table().insert(id, entry),
    {
        broadcast use vstd::std_specs::hash::group_hash_axioms;

        let id = self.take_id();
        self.sessions.insert(id, entry);
        id
    }

    /// How a command is opened: in its own directory or that of the turn, with the time and the
    /// amount of output that are allowed.
    pub fn open_plan(request: &ExecCommandRequest, turn_cwd: &String) -> (r: OpenPlan)
        ensures
            r.cwd == match request.workdir {
                Some(dir) => dir,
                None => *turn_cwd,
            },
            r.yield_time_ms == limits::yield_time(request.yield_time_ms),
            r.max_tokens == match request.max_output_tokens {
                Some(n) => n,
                None => limits::DEFAULT_MAX_OUTPUT_TOKENS,
            },
    {
        let cwd = match &request.workdir {
            Some(dir) => dir.clone(),
            None => turn_cwd.clone(),
        };
        OpenPlan {
            cwd,
            yield_time_ms: limits::clamp_yield_time(request.yield_time_ms),
            max_tokens: limits::resolve_max_tokens(request.max_output_tokens),
        }
    }

    /// What is said of a command after its first output came in. Every command takes a number; one
    /// that goes on is kept as a session under it, and one that is over is not kept.
    pub fn exec_command(
        &mut self,
        entry: SessionEntry,
        chunk: OutputChunk,
        process: ProcessState,
    ) -> (r: (UnifiedExecResponse, FollowUp))
        ensures
            r.0.event_call_id == entry.call_id,
            r.0.chunk_id == chunk.chunk_id,
            r.0.output == chunk.output,
            r.0.original_token_count == chunk.original_token_count,
            r.0.exit_code == process.exit_code,
            r.0.session_command matches Some(c) && c@ == entry.command@,
            final(self).table() == after_exec(
                old(self).table(),
                old(self).next_id(),
                entry,
                process,
            ),
            final(self).next_id() == following_id(old(self).next_id()),
            process.has_exited ==> {
                &&& r.0.session_id is None
                &&& r.1 == FollowUp::Ended(
                    match process.exit_code {
                        Some(code) => code,
                        None => (-1int) as i32,
                    },
                )
            },
            !process.has_exited ==> {
                &&& r.0.session_id == Some(old(self).next_id())
                &&& r.1 matches FollowUp::Waiting(line)
                &&& line@ == waiting_line(entry.command@)
            },
    {
        let event_call_id = entry.call_id.clone();
        let command = text::copy_list(&entry.command);
        let (session_id, follow_up) = if process.has_exited {
            let code: i32 = match process.exit_code {
                Some(code) => code,
                None => -1,
            };
            self.take_id();
            (None, FollowUp::Ended(code))
        } else {
            let line = waiting_message(&entry.command);
            (Some(self.store_session(entry)), FollowUp::Waiting(line))
        };
        (
            UnifiedExecResponse {
                event_call_id,
                chunk_id: chunk.chunk_id,
                output: chunk.output,
                session_id,
                exit_code: process.exit_code,
                original_token_count: chunk.original_token_count,
                session_command: Some(command),
            },
            follow_up,
        )
    }

    /// What writing to a session needs; a session that is not kept cannot be written to.
    pub fn prepare_session_handles(
        &self,
        session_id: i32,
        input: &str,
        yield_time_ms: Option<u64>,
        max_output_tokens: Option<usize>,
    ) -> (r: Result<WritePlan, UnifiedExecError>)
        ensures
            match r {
                Ok(plan) => {
                    &&& self.table().contains_key(session_id)
                    &&& plan.process == self.table()[session_id].process
                    &&& plan.command@ == self.table()[session_id].command@
                    &&& plan.cwd == self.table()[session_id].cwd
                    &&& crate::path::optional_text(plan.input) == if input@.len() == 0 {
                        None
                    } else {
                        Some(input@)
                    }
                    &&& plan.yield_time_ms == limits::yield_time(yield_time_ms)
                    &&& plan.max_tokens == match max_output_tokens {
                        Some(n) => n,
                        None => limits::DEFAULT_MAX_OUTPUT_TOKENS,
                    }
                },
                Err(e) => !self.table().contains_key(session_id) && e
                    == (UnifiedExecError::UnknownSessionId { session_id }),
            },
    {
        broadcast use vstd::std_specs::hash::group_hash_axioms;

        match self.sessions.get(&session_id) {
            Some(entry) => Ok(
                WritePlan {
                    process: entry.process,
                    command: text::copy_list(&entry.command),
                    cwd: entry.cwd.clone(),
                    input: if input.is_empty() {
                        None
                    } else {
                        Some(input.to_owned())
                    },
                    yield_time_ms: limits::clamp_yield_time(yield_time_ms),
                    max_tokens: limits::resolve_max_tokens(max_output_tokens),
                },
            ),
            None => Err(UnifiedExecError::UnknownSessionId { session_id }),
        }
    }

    /// What became of a session, given what its process is at. A session whose process is over is
    /// no longer kept.
    pub fn refresh_session_state(&mut self, session_id: i32, process: ProcessState) -> (r:
        SessionStatus)
        ensures
            final(self).next_id() == old(self).next_id(),
            !old(self).table().contains_key(session_id) ==> r == SessionStatus::Unknown && final(self).table() == old(self).table(),
            old(self).table().contains_key(session_id) && !process.has_exited ==> r
                == (SessionStatus::Alive {
                exit_code: process.exit_code,
                call_id: old(self).table()[session_id].call_id,
            }) && final(self).table() == old(self).table(),
            old(self).table().contains_key(session_id) && process.has_exited ==> {
                &&& r matches SessionStatus::Exited { exit_code, entry }
                &&& exit_code == process.exit_code
                &&& *entry == old(self).table()[session_id]
                &&& final(self).table() == old(self).table().remove(session_id)
            },
    {
        broadcast use vstd::std_specs::hash::group_hash_axioms;

        if process.has_exited {
            match self.sessions.remove(&session_id) {
                Some(entry) => SessionStatus::Exited {
                    exit_code: process.exit_code,
                    entry: Box::new(entry),
                },
                None => {
                    assert(self.table() =~= old(self).table());
                    SessionStatus::Unknown
                },
            }
        } else {
            match self.sessions.get(&session_id) {
                Some(entry) => SessionStatus::Alive {
                    exit_code: process.exit_code,
                    call_id: entry.call_id.clone(),
                },
                None => SessionStatus::Unknown,
            }
        }
    }

    /// What is said of a call that wrote to a session, after its output came in, and what the user
    /// is told.
    pub fn write_stdin(
        &mut self,
        session_id: i32,
        command: Vec<String>,
        chunk: OutputChunk,
        process: ProcessState,
    ) -> (r: Result<(UnifiedExecResponse, FollowUp), UnifiedExecError>)
        ensures
            final(self).next_id() == old(self).next_id(),
            final(self).table() == after_write(old(self).table(), session_id, process),
            match r {
                Err(e) => !old(self).table().contains_key(session_id) && e
                    == (UnifiedExecError::UnknownSessionId { session_id }),
                Ok((response, follow_up)) => {
                    &&& old(self).table().contains_key(session_id)
                    &&& response.event_call_id == old(self).table()[session_id].call_id
                    &&& response.chunk_id == chunk.chunk_id
                    &&& response.output == chunk.output
                    &&& response.original_token_count == chunk.original_token_count
                    &&& response.exit_code == process.exit_code
                    &&& response.session_command matches Some(c)
                    &&& c@ == command@
                    &&& response.session_id == if process.has_exited {
                        None
                    } else {
                        Some(session_id)
                    }
                    &&& if process.has_exited {
                        follow_up == match process.exit_code {
                            Some(code) => FollowUp::Ended(code),
                            None => FollowUp::Silent,
                        }
                    } else {
                        follow_up matches FollowUp::Waiting(line) && line@ == waiting_line(command@)
                    }
                },
            },
    {
        let status = self.refresh_session_state(session_id, process);
        assert(self.table() =~= after_write(old(self).table(), session_id, process));
        let (kept_id, exit_code, event_call_id, follow_up) = match status {
            SessionStatus::Alive { exit_code, call_id } => (
                Some(session_id),
                exit_code,
                call_id,
                FollowUp::Waiting(waiting_message(&command)),
            ),
            SessionStatus::Exited { exit_code, entry } => {
                let SessionEntry { call_id, .. } = *entry;
                let follow_up = match exit_code {
                    Some(code) => FollowUp::Ended(code),
                    None => FollowUp::Silent,
                };
                (None, exit_code, call_id, follow_up)
            },
            SessionStatus::Unknown => {
                return Err(UnifiedExecError::UnknownSessionId { session_id });
            },
        };
        Ok(
            (
                UnifiedExecResponse {
                    event_call_id,
                    chunk_id: chunk.chunk_id,
                    output: chunk.output,
                    session_id: kept_id,
                    exit_code,
                    original_token_count: chunk.original_token_count,
                    session_command: Some(command),
                },
                follow_up,
            ),
        )
    }
}

/// What follows a look at the output that came in.
#[derive(Debug, Clone, Copy, PartialEq, Eq, Structural)]
pub enum CollectStep {
    /// Wait for more, until the deadline.
    Wait,
    /// Look again.
    Again,
    /// Enough.
    Stop,
}

/// Takes in what came of a command's output since the last look.
pub fn collect_output_until_deadline(
    collected: &mut Vec<u8>,
    drained: &Vec<Vec<u8>>,
    deadline_passed: bool,
) -> (r: CollectStep)
    ensures
        final(collected)@ == old(collected)@ + exec::concatenated(exec::chunk_bytes(drained@)),
        r == if deadline_passed {
            CollectStep::Stop
        } else if drained@.len() == 0 {
            CollectStep::Wait
        } else {
            CollectStep::Again
        },
{
    let all = exec::aggregate(drained);
    exec::append_all(collected, all.text.as_slice());
    if deadline_passed {
        CollectStep::Stop
    } else if drained.len() == 0 {
        CollectStep::Wait
    } else {
        CollectStep::Again
    }
}

/// The output of a command, as text.
pub fn collected_text(collected: &Vec<u8>) -> (r: String)
    ensures
        r@ == exec::utf8_lossy(collected@),
        vstd::utf8::valid_utf8(collected@) ==> r@ == vstd::utf8::decode_utf8(collected@),
{
    exec::decode_utf8_lossy(collected)
}

/// A piece of output under a new name, with the number of tokens that it had before it was cut to
/// its limit.
pub fn output_chunk(output: String, original_token_count: usize) -> (r: OutputChunk)
    ensures
        r.output == output,
        r.original_token_count == Some(original_token_count),
        exists|digits: Seq<u8>|
            digits.len() == limits::CHUNK_ID_LENGTH && (forall|i: int|
                0 <= i < digits.len() ==> #[trigger] digits[i] < 16) && r.chunk_id@
                == #[trigger] limits::hex_text(digits),
{
    OutputChunk {
        chunk_id: limits::generate_chunk_id(),
        output,
        original_token_count: Some(original_token_count),
    }
}

/// What the user is told of a call or a command that is over: everything it printed, as its
/// standard output.
pub fn finished_output(output: &String, exit_code: i32, duration: std::time::Duration) -> (r:
    ExecToolCallOutput)
    ensures
        r.exit_code == exit_code,
        r.stdout.text == *output,
        r.stdout.truncated_after_lines is None,
        r.stderr.text@ == Seq::<char>::empty(),
        r.stderr.truncated_after_lines is None,
        r.aggregated_output.text == *output,
        r.aggregated_output.truncated_after_lines is None,
        r.duration == duration,
        !r.timed_out,
{
    ExecToolCallOutput {
        exit_code,
        stdout: StreamOutput::new(output.clone()),
        stderr: StreamOutput::new(String::new()),
        aggregated_output: StreamOutput::new(output.clone()),
        duration,
        timed_out: false,
    }
}

/// What the user is told of a call that wrote to a session: its exit code is zero for as long as
/// the process gave none.
pub fn interaction_output(response: &UnifiedExecResponse, wall_time: std::time::Duration) -> (r:
    ExecToolCallOutput)
    ensures
        r.exit_code == match response.exit_code {
            Some(code) => code,
            None => 0,
        },
        r.stdout.text == response.output,
        r.stderr.text@ == Seq::<char>::empty(),
        r.aggregated_output.text == response.output,
        r.duration == wall_time,
        !r.timed_out,
{
    let code: i32 = match response.exit_code {
        Some(code) => code,
        None => 0,
    };
    finished_output(&response.output, code, wall_time)
}

/// What is told of input that could not be written.
pub fn failed_write() -> (r: (String, UnifiedExecError))
    ensures
        r.0@ == "write_stdin failed: WriteToStdin"@,
        r.1 == UnifiedExecError::WriteToStdin,
{
    ("write_stdin failed: WriteToStdin".to_owned(), UnifiedExecError::WriteToStdin)
}

/// What the orchestrator is asked to run for a session.
pub fn open_session_with_sandbox(
    command: &Vec<String>,
    cwd: String,
    env: Vec<(String, String)>,
    with_escalated_permissions: Option<bool>,
    justification: Option<String>,
    approval_requirement: ApprovalRequirement,
) -> (r: UnifiedExecRequest)
    ensures
        r.command@ == command@,
        r.cwd == cwd,
        r.env == env,
        r.with_escalated_permissions == with_escalated_permissions,
        r.justification == justification,
        r.approval_requirement == approval_requirement,
{
    UnifiedExecRequest::new(
        text::copy_list(command),
        cwd,
        env,
        with_escalated_permissions,
        justification,
        approval_requirement,
    )
}

/// The program and the arguments of a command that is to be opened.
pub fn open_session_with_exec_env(command: &Vec<String>) -> (r: Result<
    (String, Vec<String>),
    UnifiedExecError,
>)
    ensures
        match r {
            Ok((program, args)) => command@.len() > 0 && program == command@[0] && args@
                == command@.skip(1),
            Err(e) => command@.len() == 0 && e == UnifiedExecError::MissingCommandLine,
        },
{
    match exec::split_command(command) {
        Some(split) => Ok(split),
        None => Err(UnifiedExecError::MissingCommandLine),
    }
}

/// A session whose process is found to be over is unknown to every later call; every other session
/// is as it was.
pub proof fn law_ended_session_is_forgotten(
    before: Map<i32, SessionEntry>,
    session_id: i32,
    process: ProcessState,
    other: i32,
)
    requires
        process.has_exited,
    ensures
        !after_write(before, session_id, process).contains_key(session_id),
        other != session_id ==> {
            &&& after_write(before, session_id, process).contains_key(other)
                == before.contains_key(other)
            &&& before.contains_key(other) ==> after_write(before, session_id, process)[other]
                == before[other]
        },
{
}

/// A session goes on being known for as long as its process is found to be running.
pub proof fn law_running_session_is_kept(
    before: Map<i32, SessionEntry>,
    next_id: i32,
    entry: SessionEntry,
    process: ProcessState,
    later: ProcessState,
)
    requires
        !process.has_exited,
        !later.has_exited,
    ensures
        after_write(after_exec(before, next_id, entry, process), next_id, later).contains_key(
            next_id,
        ),
        after_write(after_exec(before, next_id, entry, process), next_id, later)[next_id] == entry,
{
}

/// A command that is over when its first output came in leaves no session behind.
pub proof fn law_completed_command_is_not_kept(
    before: Map<i32, SessionEntry>,
    next_id: i32,
    entry: SessionEntry,
    process: ProcessState,
)
    requires
        process.has_exited,
    ensures
        after_exec(before, next_id, entry, process) == before,
{
}

/// Sessions are numbered one after the other.
pub proof fn law_sessions_are_numbered(id: i32)
    ensures
        id < 0x7fff_ffff ==> following_id(id) == id + 1,
        id == 0x7fff_ffff ==> following_id(id) == -0x8000_0000,
{
}

/// A command that goes on is found under its number, with what belongs to it, and every other
/// session stays as it was; and so it does while a session that goes on is written to.
pub proof fn law_sessions_do_not_disturb_each_other(
    before: Map<i32, SessionEntry>,
    id: i32,
    other: i32,
    entry: SessionEntry,
    process: ProcessState,
)
    requires
        !process.has_exited,
    ensures
        after_exec(before, id, entry, process).contains_key(id),
        after_exec(before, id, entry, process)[id] == entry,
        other != id ==> {
            &&& after_exec(before, id, entry, process).contains_key(other) == before.contains_key(
                other,
            )
            &&& before.contains_key(other) ==> after_exec(before, id, entry, process)[other]
                == before[other]
        },
        after_write(before, id, process) == before,
{
}

/// A command that is waited for is named with all its words.
pub proof fn law_waiting_names_the_command(command: Seq<String>)
    ensures
        waiting_line(command) == "Waiting for `"@ + text::joined(text::texts(command), " "@) + "`"@,
{
}

/// A command runs in the directory that it asks for, else in that of the turn; it is waited for, and
/// its output kept, within the limits.
pub proof fn law_commands_are_opened_within_limits(
    request: ExecCommandRequest,
    cwd: String,
    r: OpenPlan,
)
    requires
        call_ensures(UnifiedExecSessionManager::open_plan, (&request, &cwd), r),
    ensures
        r.cwd == if request.workdir is Some {
            request.workdir->0
        } else {
            cwd
        },
        r.yield_time_ms == limits::yield_time(request.yield_time_ms),
        r.max_tokens == if request.max_output_tokens is Some {
            request.max_output_tokens->0
        } else {
            10_000
        },
{
}

/// A command that goes on is given a session, under which it can be written to; one that is over is
/// given none, and its end is told, with the exit code where there is one. Either way the response
/// holds what came out.
pub proof fn law_running_command_gets_a_session(
    manager: &mut UnifiedExecSessionManager,
    entry: SessionEntry,
    chunk: OutputChunk,
    process: ProcessState,
    r: (UnifiedExecResponse, FollowUp),
)
    requires
        call_ensures(UnifiedExecSessionManager::exec_command, (manager, entry, chunk, process), r),
    ensures
        r.0.session_id is Some <==> !process.has_exited,
        !process.has_exited ==> {
            let id = r.0.session_id->0;
            &&& final(manager).table().contains_key(id)
            &&& final(manager).table()[id] == entry
            &&& r.1 is Waiting
        },
        process.has_exited ==> final(manager).table() == old(manager).table() && r.1
            == FollowUp::Ended(
            if process.exit_code is Some {
                process.exit_code->0
            } else {
                -1i32
            },
        ),
        r.0.output == chunk.output,
        r.0.chunk_id == chunk.chunk_id,
        r.0.original_token_count == chunk.original_token_count,
        r.0.exit_code == process.exit_code,
        r.0.event_call_id == entry.call_id,
        r.0.session_command is Some && (r.0.session_command->0)@ == entry.command@,
{
}

/// Only a session that is kept can be written to, and what is written reaches its process; an empty
/// text writes nothing.
pub proof fn law_only_kept_sessions_are_written_to(
    manager: UnifiedExecSessionManager,
    id: i32,
    input: &str,
    wait: Option<u64>,
    tokens: Option<usize>,
    r: Result<WritePlan, UnifiedExecError>,
)
    requires
        call_ensures(
            UnifiedExecSessionManager::prepare_session_handles,
            (&manager, id, input, wait, tokens),
            r,
        ),
    ensures
        r is Ok <==> manager.table().contains_key(id),
        r is Err ==> r->Err_0 == (UnifiedExecError::UnknownSessionId { session_id: id }),
        r matches Ok(plan) ==> {
            &&& plan.process == manager.table()[id].process
            &&& plan.command@ == manager.table()[id].command@
            &&& plan.cwd == manager.table()[id].cwd
            &&& plan.input is Some <==> input@.len() > 0
            &&& plan.input is Some ==> (plan.input->0)@ == input@
            &&& plan.yield_time_ms == limits::yield_time(wait)
            &&& plan.max_tokens == if tokens is Some {
                tokens->0
            } else {
                10_000
            }
        },
{
}

/// A session whose process is over is forgotten, and what belonged to it given back; one that goes on
/// is kept.
pub proof fn law_sessions_are_kept_while_they_run(
    manager: &mut UnifiedExecSessionManager,
    id: i32,
    process: ProcessState,
    r: SessionStatus,
)
    requires
        call_ensures(
            UnifiedExecSessionManager::refresh_session_state,
            (manager, id, process),
            r,
        ),
    ensures
        r is Unknown <==> !old(manager).table().contains_key(id),
        r is Alive <==> old(manager).table().contains_key(id) && !process.has_exited,
        r is Exited <==> old(manager).table().contains_key(id) && process.has_exited,
        r matches SessionStatus::Exited { exit_code, entry } ==> *entry == old(manager).table()[id]
            && exit_code == process.exit_code && final(manager).table() == old(manager).table().remove(id),
        r !is Exited ==> final(manager).table() == old(manager).table(),
{
}

/// What comes out after something was written is told like any output: with the session while the
/// command goes on, and with its exit code, where there is one, when it is over.
pub proof fn law_writing_is_answered(
    manager: &mut UnifiedExecSessionManager,
    id: i32,
    command: Vec<String>,
    chunk: OutputChunk,
    process: ProcessState,
    r: Result<(UnifiedExecResponse, FollowUp), UnifiedExecError>,
)
    requires
        call_ensures(
            UnifiedExecSessionManager::write_stdin,
            (manager, id, command, chunk, process),
            r,
        ),
    ensures
        r is Ok <==> old(manager).table().contains_key(id),
        r is Err ==> r->Err_0 == (UnifiedExecError::UnknownSessionId { session_id: id }),
        r matches Ok((response, follow_up)) ==> {
            &&& response.session_id is Some <==> !process.has_exited
            &&& !process.has_exited ==> response.session_id == Some(id) && follow_up is Waiting
            &&& process.has_exited && process.exit_code is Some ==> follow_up == FollowUp::Ended(
                process.exit_code->0,
            )
            &&& process.has_exited && process.exit_code is None ==> follow_up is Silent
            &&& response.output == chunk.output
            &&& response.chunk_id == chunk.chunk_id
            &&& response.exit_code == process.exit_code
            &&& response.event_call_id == old(manager).table()[id].call_id
        },
        process.has_exited ==> !final(manager).table().contains_key(id),
        !process.has_exited ==> final(manager).table() == old(manager).table(),
{
}

/// Output is collected in order until the deadline; while it comes it is looked for again, and when
/// it does not it is waited for.
pub proof fn law_output_is_collected_until_the_deadline(
    collected: &mut Vec<u8>,
    drained: Vec<Vec<u8>>,
    late: bool,
    r: CollectStep,
)
    requires
        call_ensures(collect_output_until_deadline, (collected, &drained, late), r),
    ensures
        final(collected)@ == old(collected)@ + exec::concatenated(exec::chunk_bytes(drained@)),
        r is Stop <==> late,
        r is Wait <==> !late && drained@.len() == 0,
        r is Again <==> !late && drained@.len() > 0,
{
}

/// What is told of a command that is over, or that was written to, is its output on one stream and
/// nothing on the other; a command that goes on counts as having no error.
pub proof fn law_output_is_told_on_one_stream(
    output: String,
    code: i32,
    duration: std::time::Duration,
    response: UnifiedExecResponse,
    finished: ExecToolCallOutput,
    interaction: ExecToolCallOutput,
)
    requires
        call_ensures(finished_output, (&output, code, duration), finished),
        call_ensures(interaction_output, (&response, duration), interaction),
    ensures
        finished.exit_code == code,
        finished.stdout.text == output,
        finished.aggregated_output.text == output,
        finished.stderr.text@.len() == 0,
        !finished.timed_out,
        interaction.exit_code == if response.exit_code is Some {
            response.exit_code->0
        } else {
            0
        },
        interaction.stdout.text == response.output,
        interaction.aggregated_output.text == response.output,
        interaction.stderr.text@.len() == 0,
        !interaction.timed_out,
        finished.duration == duration,
        interaction.duration == duration,
{
}

/// A session needs a command.
pub proof fn law_session_needs_a_command(
    command: Vec<String>,
    r: Result<(String, Vec<String>), UnifiedExecError>,
)
    requires
        call_ensures(open_session_with_exec_env, (&command,), r),
    ensures
        r is Ok <==> command@.len() > 0,
        r matches Ok((program, args)) ==> seq![program] + args@ == command@,
        r is Err ==> r->Err_0 == UnifiedExecError::MissingCommandLine,
{
    if let Ok((program, args)) = r {
        assert(seq![program] + args@ =~= command@);
    }
}

} // verus!
