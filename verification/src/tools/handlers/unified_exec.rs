//! The tools for interactive commands.
use vstd::prelude::*;

use crate::protocol::AskForApproval;
use crate::text;
use crate::tools::handlers::call;
use crate::tools::handlers::call::{FunctionCallError, ToolKind, ToolOutput, ToolPayload};
use crate::tools::handlers::shell;
use crate::unified_exec::session_manager::{ExecCommandRequest, UnifiedExecResponse};

verus! {

/// What `exec_command` is given.
#[derive(Debug)]
pub struct ExecCommandArgs {
    pub cmd: String,
    pub workdir: Option<String>,
    pub shell: String,
    pub login: bool,
    pub yield_time_ms: Option<u64>,
    pub max_output_tokens: Option<usize>,
    pub with_escalated_permissions: Option<bool>,
    pub justification: Option<String>,
}

/// What `write_stdin` is given.
#[derive(Debug)]
pub struct WriteStdinArgs {
    pub session_id: i32,
    pub chars: String,
    pub yield_time_ms: Option<u64>,
    pub max_output_tokens: Option<usize>,
}

/// The shell of a command that names none.
pub fn default_shell() -> (r: String)
    ensures
        r@ == "/bin/bash"@,
{
    "/bin/bash".to_owned()
}

/// Whether the shell is a login shell where the command does not say.
pub fn default_login() -> (r: bool)
    ensures
        r,
{
    true
}

/// A call, with its arguments as JSON text.
#[derive(Debug)]
pub enum UnifiedExecCall {
    ExecCommand(String),
    WriteStdin(String),
}

/// The handler of interactive commands.
#[derive(Debug)]
pub struct UnifiedExecHandler;

/// The arguments of a payload that the handler takes.
pub open spec fn taken_arguments(payload: ToolPayload) -> Option<String> {
    match payload {
        ToolPayload::Function { arguments } => Some(arguments),
        ToolPayload::UnifiedExec { arguments } => Some(arguments),
        _ => None,
    }
}

impl UnifiedExecHandler {
    pub fn kind(&self) -> (r: ToolKind)
        ensures
            r == ToolKind::Function,
    {
        ToolKind::Function
    }

    pub fn matches_kind(&self, payload: &ToolPayload) -> (r: bool)
        ensures
            r == (taken_arguments(*payload) is Some),
    {
        match payload {
            ToolPayload::Function { .. } | ToolPayload::UnifiedExec { .. } => true,
            _ => false,
        }
    }

    /// The command whose safety decides whether a call may change anything.
    pub fn checked_command(args: &ExecCommandArgs) -> (r: Vec<String>)
        ensures
            text::texts(r@) == seq!["bash"@, "-lc"@, args.cmd@],
    {
        let mut command: Vec<String> = Vec::new();
        command.push("bash".to_owned());
        command.push("-lc".to_owned());
        command.push(args.cmd.clone());
        assert(text::texts(command@) =~= seq!["bash"@, "-lc"@, args.cmd@]);
        command
    }

    /// Whether a call may change anything: always, unless its command could be read and is known
    /// to be safe. `known_safe` is what is known of the command that is checked, and nothing for
    /// arguments that could not be read.
    pub fn is_mutating(&self, payload: &ToolPayload, known_safe: Option<bool>) -> (r: bool)
        ensures
            r == !(taken_arguments(*payload) is Some && known_safe == Some(true)),
    {
        if !self.matches_kind(payload) {
            return true;
        }
        match known_safe {
            Some(safe) => !safe,
            None => true,
        }
    }

    /// Which function is called, and with what.
    pub fn handle(&self, tool_name: &str, payload: ToolPayload) -> (r: Result<
        UnifiedExecCall,
        FunctionCallError,
    >)
        ensures
            match taken_arguments(payload) {
                Some(arguments) => if tool_name@ == "exec_command"@ {
                    r == Ok::<UnifiedExecCall, FunctionCallError>(
                        UnifiedExecCall::ExecCommand(arguments),
                    )
                } else if tool_name@ == "write_stdin"@ {
                    r == Ok::<UnifiedExecCall, FunctionCallError>(
                        UnifiedExecCall::WriteStdin(arguments),
                    )
                } else {
                    r matches Err(e) && call::responds(
                        e,
                        "unsupported unified exec function "@ + tool_name@,
                    )
                },
                None => {
                    r matches Err(e) && call::responds(
                        e,
                        "unified_exec handler received unsupported payload"@,
                    )
                },
            },
    {
        let arguments = match payload {
            ToolPayload::Function { arguments } => arguments,
            ToolPayload::UnifiedExec { arguments } => arguments,
            _ => {
                return Err(
                    FunctionCallError::RespondToModel(
                        "unified_exec handler received unsupported payload".to_owned(),
                    ),
                );
            },
        };
        if text::same(tool_name, "exec_command") {
            Ok(UnifiedExecCall::ExecCommand(arguments))
        } else if text::same(tool_name, "write_stdin") {
            Ok(UnifiedExecCall::WriteStdin(arguments))
        } else {
            Err(call::respond("unsupported unified exec function ", tool_name))
        }
    }

    /// The request of a call of `exec_command`, and where its command runs. `parsed` is what the
    /// arguments say, or why they could not be read.
    pub fn exec_command_request(
        parsed: Result<ExecCommandArgs, String>,
        approval_policy: AskForApproval,
        turn_cwd: &String,
    ) -> (r: Result<(ExecCommandRequest, String), FunctionCallError>)
        ensures
            match parsed {
                Err(err) => {
                    r matches Err(e) && call::responds(
                        e,
                        "failed to parse exec_command arguments: "@ + err@,
                    )
                },
                Ok(args) => if shell::escalation_refused(
                    args.with_escalated_permissions,
                    approval_policy,
                ) {
                    r matches Err(e) && call::responds(
                        e,
                        shell::escalation_message("cannot"@, approval_policy),
                    )
                } else {
                    &&& r matches Ok((request, cwd))
                    &&& request.command == args.cmd
                    &&& request.shell == args.shell
                    &&& request.login == args.login
                    &&& request.yield_time_ms == args.yield_time_ms
                    &&& request.max_output_tokens == args.max_output_tokens
                    &&& request.with_escalated_permissions == args.with_escalated_permissions
                    &&& request.justification == args.justification
                    &&& request.workdir == match args.workdir {
                        Some(dir) => if dir@.len() == 0 {
                            None
                        } else {
                            Some(dir)
                        },
                        None => None,
                    }
                    &&& cwd == match request.workdir {
                        Some(dir) => dir,
                        None => *turn_cwd,
                    }
                },
            },
    {
        let args = match parsed {
            Ok(args) => args,
            Err(err) => {
                return Err(
                    call::respond("failed to parse exec_command arguments: ", err.as_str()),
                );
            },
        };
        match shell::guard_escalation(args.with_escalated_permissions, approval_policy, "cannot") {
            Ok(_) => {},
            Err(e) => return Err(e),
        }
        let workdir = match args.workdir {
            Some(dir) => if dir.as_str().is_empty() {
                None
            } else {
                Some(dir)
            },
            None => None,
        };
        let cwd = match &workdir {
            Some(dir) => dir.clone(),
            None => turn_cwd.clone(),
        };
        Ok(
            (
                ExecCommandRequest {
                    command: args.cmd,
                    shell: args.shell,
                    login: args.login,
                    yield_time_ms: args.yield_time_ms,
                    max_output_tokens: args.max_output_tokens,
                    workdir,
                    with_escalated_permissions: args.with_escalated_permissions,
                    justification: args.justification,
                },
                cwd,
            ),
        )
    }

    /// The arguments of a call of `write_stdin`. `parsed` is what they say, or why they could not
    /// be read.
    pub fn write_stdin_request(parsed: Result<WriteStdinArgs, String>) -> (r: Result<
        WriteStdinArgs,
        FunctionCallError,
    >)
        ensures
            match parsed {
                Ok(args) => r == Ok::<WriteStdinArgs, FunctionCallError>(args),
                Err(err) => {
                    r matches Err(e) && call::responds(
                        e,
                        "failed to parse write_stdin arguments: "@ + err@,
                    )
                },
            },
    {
        match parsed {
            Ok(args) => Ok(args),
            Err(err) => Err(
                call::respond("failed to parse write_stdin arguments: ", err.as_str()),
            ),
        }
    }

    /// What the model is told where a call failed; `error` is the error in its debugging form.
    pub fn failed(function: &str, error: &str) -> (r: FunctionCallError)
        ensures
            call::responds(r, function@ + " failed: "@ + error@),
    {
        let mut message = function.to_owned();
        message.append(" failed: ");
        message.append(error);
        FunctionCallError::RespondToModel(message)
    }

    /// The output that the user is shown while the command goes on: the call it belongs to and
    /// its bytes, or nothing where there is no output.
    pub fn output_delta(response: &UnifiedExecResponse) -> (r: Option<(String, Vec<u8>)>)
        ensures
            match r {
                Some((call_id, chunk)) => {
                    &&& response.output@.len() > 0
                    &&& call_id == response.event_call_id
                    &&& chunk@ == vstd::utf8::encode_utf8(response.output@)
                },
                None => response.output@.len() == 0,
            },
    {
        if response.output.as_str().is_empty() {
            None
        } else {
            Some((response.event_call_id.clone(), response.output.as_str().as_bytes_vec()))
        }
    }

    /// What a call returns to the model.
    pub fn respond(response: &UnifiedExecResponse, wall_time_seconds: &str) -> (r: ToolOutput)
        ensures
            r.content@ == response_text(*response, wall_time_seconds@),
            r.content_items is None,
            r.success == Some(true),
    {
        call::succeeded(format_response(response, wall_time_seconds))
    }
}

/// The lines of a response: what is known of the call, and then its output.
pub open spec fn response_lines(
    response: UnifiedExecResponse,
    wall_time_seconds: Seq<char>,
) -> Seq<Seq<char>> {
    let chunk = if response.chunk_id@.len() == 0 {
        Seq::<Seq<char>>::empty()
    } else {
        seq!["Chunk ID: "@ + response.chunk_id@]
    };
    let wall = seq!["Wall time: "@ + wall_time_seconds + " seconds"@];
    let exit = match response.exit_code {
        Some(code) => seq!["Process exited with code "@ + text::signed_decimal(code as int)],
        None => Seq::<Seq<char>>::empty(),
    };
    let session = match response.session_id {
        Some(id) => seq!["Process running with session ID "@ + text::signed_decimal(id as int)],
        None => Seq::<Seq<char>>::empty(),
    };
    let tokens = match response.original_token_count {
        Some(count) => seq!["Original token count: "@ + text::decimal(count as nat)],
        None => Seq::<Seq<char>>::empty(),
    };
    chunk + wall + exit + session + tokens + seq!["Output:"@, response.output@]
}

/// The text of a response.
pub open spec fn response_text(
    response: UnifiedExecResponse,
    wall_time_seconds: Seq<char>,
) -> Seq<char> {
    text::joined(response_lines(response, wall_time_seconds), "\n"@)
}

/// The text of a response. The time it took is given as a decimal number with four places.
pub fn format_response(response: &UnifiedExecResponse, wall_time_seconds: &str) -> (r: String)
    ensures
        r@ == response_text(*response, wall_time_seconds@),
{
    let mut sections: Vec<String> = Vec::new();
    if !response.chunk_id.as_str().is_empty() {
        let mut line = "Chunk ID: ".to_owned();
        line.append(response.chunk_id.as_str());
        sections.push(line);
    }
    let mut line = "Wall time: ".to_owned();
    line.append(wall_time_seconds);
    line.append(" seconds");
    sections.push(line);
    if let Some(code) = response.exit_code {
        let mut line = "Process exited with code ".to_owned();
        text::push_signed(&mut line, code as i64);
        sections.push(line);
    }
    if let Some(id) = response.session_id {
        let mut line = "Process running with session ID ".to_owned();
        text::push_signed(&mut line, id as i64);
        sections.push(line);
    }
    if let Some(count) = response.original_token_count {
        let mut line = "Original token count: ".to_owned();
        text::push_decimal(&mut line, count as u64);
        sections.push(line);
    }
    sections.push("Output:".to_owned());
    sections.push(response.output.clone());
    assert(text::texts(sections@) =~= response_lines(*response, wall_time_seconds@));
    text::join(&sections, "\n")
}

/// Only the arguments of a function or of a unified execution are taken.
pub proof fn law_arguments_are_taken(payload: ToolPayload)
    ensures
        match payload {
            ToolPayload::Function { arguments } => taken_arguments(payload) == Some(arguments),
            ToolPayload::UnifiedExec { arguments } => taken_arguments(payload) == Some(arguments),
            ToolPayload::Custom { .. } => taken_arguments(payload) is None,
            ToolPayload::LocalShell { .. } => taken_arguments(payload) is None,
            ToolPayload::Mcp { .. } => taken_arguments(payload) is None,
        },
{
}

/// A response tells, each on a line of its own: the identity of the chunk where it has one, the time
/// it took, the exit code of a command that is over, the session of one that goes on, the tokens of
/// the whole output where some is gone, and last the output itself.
pub proof fn law_response_tells_everything(response: UnifiedExecResponse, seconds: Seq<char>)
    ensures
        ({
            let lines = response_lines(response, seconds);
            let n = lines.len();
            &&& n >= 3
            &&& lines[n - 2] == "Output:"@
            &&& lines[n - 1] == response.output@
            &&& lines.contains("Wall time: "@ + seconds + " seconds"@)
            &&& response.chunk_id@.len() > 0 ==> lines[0] == "Chunk ID: "@ + response.chunk_id@
            &&& response.exit_code is Some ==> lines.contains(
                "Process exited with code "@ + text::signed_decimal(response.exit_code->0 as int),
            )
            &&& response.session_id is Some ==> lines.contains(
                "Process running with session ID "@ + text::signed_decimal(
                    response.session_id->0 as int,
                ),
            )
            &&& response.original_token_count is Some ==> lines.contains(
                "Original token count: "@ + text::decimal(response.original_token_count->0 as nat),
            )
            &&& n == 3 + (if response.chunk_id@.len() > 0 {
                1int
            } else {
                0
            }) + (if response.exit_code is Some {
                1int
            } else {
                0
            }) + (if response.session_id is Some {
                1int
            } else {
                0
            }) + (if response.original_token_count is Some {
                1int
            } else {
                0
            })
            &&& response_text(response, seconds) == text::joined(lines, "\n"@)
        }),
{
    let lines = response_lines(response, seconds);
    let a: int = if response.chunk_id@.len() > 0 {
        1
    } else {
        0
    };
    let b: int = if response.exit_code is Some {
        1
    } else {
        0
    };
    let c: int = if response.session_id is Some {
        1
    } else {
        0
    };
    assert(lines[a] == "Wall time: "@ + seconds + " seconds"@);
    if response.exit_code is Some {
        assert(lines[a + 1] == "Process exited with code "@ + text::signed_decimal(
            response.exit_code->0 as int,
        ));
    }
    if response.session_id is Some {
        assert(lines[a + 1 + b] == "Process running with session ID "@ + text::signed_decimal(
            response.session_id->0 as int,
        ));
    }
    if response.original_token_count is Some {
        assert(lines[a + 1 + b + c] == "Original token count: "@ + text::decimal(
            response.original_token_count->0 as nat,
        ));
    }
}

/// A command is run by bash, as a login shell, where nothing else is asked for.
pub proof fn law_bash_is_the_usual_shell(shell: String, login: bool)
    requires
        call_ensures(default_shell, (), shell),
        call_ensures(default_login, (), login),
    ensures
        shell@ == "/bin/bash"@,
        login,
{
}

/// A call changes something unless its arguments are taken and its command is known to be safe.
pub proof fn law_unknown_calls_may_change_things(
    handler: UnifiedExecHandler,
    payload: ToolPayload,
    known_safe: Option<bool>,
    taken: bool,
    mutating: bool,
)
    requires
        call_ensures(UnifiedExecHandler::matches_kind, (&handler, &payload), taken),
        call_ensures(UnifiedExecHandler::is_mutating, (&handler, &payload, known_safe), mutating),
    ensures
        taken <==> payload is Function || payload is UnifiedExec,
        !mutating <==> taken && known_safe is Some && known_safe->0,
{
}

/// There are two tools, told by their names; any other name, and any other kind of call, is answered
/// with what is wrong.
pub proof fn law_two_tools_are_told_by_name(
    handler: UnifiedExecHandler,
    name: &str,
    payload: ToolPayload,
    r: Result<UnifiedExecCall, FunctionCallError>,
)
    requires
        call_ensures(UnifiedExecHandler::handle, (&handler, name, payload), r),
    ensures
        ({
            let arguments = match payload {
                ToolPayload::Function { arguments } => Some(arguments),
                ToolPayload::UnifiedExec { arguments } => Some(arguments),
                _ => None,
            };
            &&& arguments is Some && name@ == "exec_command"@ ==> r == Ok::<
                UnifiedExecCall,
                FunctionCallError,
            >(UnifiedExecCall::ExecCommand(arguments->0))
            &&& arguments is Some && name@ == "write_stdin"@ ==> r == Ok::<
                UnifiedExecCall,
                FunctionCallError,
            >(UnifiedExecCall::WriteStdin(arguments->0))
            &&& arguments is Some && name@ != "exec_command"@ && name@ != "write_stdin"@ ==> (
            r matches Err(FunctionCallError::RespondToModel(m)) && m@
                == "unsupported unified exec function "@ + name@)
            &&& arguments is None ==> (r matches Err(FunctionCallError::RespondToModel(m)) && m@
                == "unified_exec handler received unsupported payload"@)
        }),
{
    reveal_strlit("exec_command");
    reveal_strlit("write_stdin");
    assert("exec_command"@.len() != "write_stdin"@.len());
}

/// A command runs as it was asked for, in the directory that it names, unless the name is empty, and
/// else in that of the turn; one that asks for more than it may is refused.
pub proof fn law_command_is_asked_for(
    parsed: Result<ExecCommandArgs, String>,
    policy: AskForApproval,
    cwd: String,
    r: Result<(ExecCommandRequest, String), FunctionCallError>,
)
    requires
        call_ensures(UnifiedExecHandler::exec_command_request, (parsed, policy, &cwd), r),
    ensures
        match parsed {
            Err(why) => r matches Err(FunctionCallError::RespondToModel(m)) && m@
                == "failed to parse exec_command arguments: "@ + why@,
            Ok(args) => {
                &&& r is Err <==> args.with_escalated_permissions == Some(true) && policy
                    != AskForApproval::OnRequest
                &&& r matches Ok((request, dir)) ==> {
                    &&& request.command == args.cmd
                    &&& request.shell == args.shell
                    &&& request.login == args.login
                    &&& request.yield_time_ms == args.yield_time_ms
                    &&& request.max_output_tokens == args.max_output_tokens
                    &&& request.justification == args.justification
                    &&& request.with_escalated_permissions == args.with_escalated_permissions
                    &&& args.workdir is Some && (args.workdir->0)@.len() > 0 ==> dir
                        == args.workdir->0
                    &&& args.workdir is None || (args.workdir->0)@.len() == 0 ==> dir == cwd
                }
            },
        },
{
}

/// What came out is told live under its call, unless nothing did.
pub proof fn law_output_is_told_live(
    response: UnifiedExecResponse,
    r: Option<(String, Vec<u8>)>,
)
    requires
        call_ensures(UnifiedExecHandler::output_delta, (&response,), r),
    ensures
        r is Some <==> response.output@.len() > 0,
        r matches Some((call_id, bytes)) ==> call_id == response.event_call_id && bytes@
            == vstd::utf8::encode_utf8(response.output@),
{
}

} // verus!
