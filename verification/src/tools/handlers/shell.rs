//! The shell tools.
use vstd::prelude::*;

use crate::exec::ExecParams;
use crate::path;
use crate::protocol::AskForApproval;
use crate::shell;
use crate::shell::Shell;
use crate::shell_words;
use crate::text;
use crate::tools::handlers::call;
use crate::tools::handlers::call::{
    FunctionCallError, ShellCommandToolCallParams, ShellToolCallParams, ToolKind, ToolOutput,
    ToolPayload,
};
use crate::tools::runtimes::unified_exec;

verus! {

/// A command that goes through approval and sandbox.
#[derive(Debug)]
pub struct ShellRequest {
    pub command: Vec<String>,
    pub cwd: String,
    pub timeout_ms: Option<u64>,
    pub env: Vec<(String, String)>,
    pub with_escalated_permissions: Option<bool>,
    pub justification: Option<String>,
}

/// A patch that goes through approval and sandbox.
#[derive(Debug)]
pub struct ApplyPatchRequest {
    pub patch: String,
    pub cwd: String,
    pub timeout_ms: Option<u64>,
    pub user_explicitly_approved: bool,
    pub codex_exe: Option<String>,
}

/// What a command looks like to the patch tool.
#[derive(Debug)]
pub enum PatchCheck {
    /// It applies a patch.
    Body,
    /// It applies a patch that does not fit.
    CorrectnessError(String),
    /// It is no shell that could be read.
    ShellParseError,
    NotApplyPatch,
}

/// What the patch tool made of a patch.
#[derive(Debug)]
pub enum PatchInvocation {
    Output(Result<String, FunctionCallError>),
    DelegateToExec { patch: String, cwd: String, user_explicitly_approved: bool },
}

/// What a command leads to.
#[derive(Debug)]
pub enum ExecLike {
    /// Hand it to the patch tool.
    Patch,
    /// Run it.
    Run(ShellRequest),
}

/// What a patch leads to.
#[derive(Debug)]
pub enum PatchStep {
    Return(ToolOutput),
    Run { request: ApplyPatchRequest, auto_approved: bool },
}

/// Where a command runs: in its own directory, seen from that of the turn.
pub open spec fn working_dir(turn_cwd: Seq<char>, workdir: Option<String>, on_windows: bool) -> Seq<
    char,
> {
    match workdir {
        Some(dir) => path::joined_path(turn_cwd, dir@, on_windows),
        None => turn_cwd,
    }
}

/// A path seen from the directory of the turn.
pub fn resolve_path(turn_cwd: &String, workdir: &Option<String>, on_windows: bool) -> (r: String)
    ensures
        r@ == working_dir(turn_cwd@, *workdir, on_windows),
{
    match workdir {
        Some(dir) => path::join(turn_cwd.as_str(), dir.as_str(), on_windows),
        None => turn_cwd.clone(),
    }
}

/// Whether a request for escalated permissions is refused: they can be asked for only where the
/// model decides when to ask.
pub open spec fn escalation_refused(
    with_escalated_permissions: Option<bool>,
    policy: AskForApproval,
) -> bool {
    unified_exec::escalated(with_escalated_permissions) && policy != AskForApproval::OnRequest
}

/// What the model is told of a refused request.
pub open spec fn escalation_message(verb: Seq<char>, policy: AskForApproval) -> Seq<char> {
    "approval policy is "@ + call::policy_name(policy) + "; reject command — you "@ + verb
        + " ask for escalated permissions if the approval policy is "@ + call::policy_name(policy)
}

/// Refuses a request for escalated permissions where the policy does not let the model decide when
/// to ask.
pub fn guard_escalation(
    with_escalated_permissions: Option<bool>,
    policy: AskForApproval,
    verb: &str,
) -> (r: Result<(), FunctionCallError>)
    ensures
        match r {
            Ok(_) => !escalation_refused(with_escalated_permissions, policy),
            Err(e) => escalation_refused(with_escalated_permissions, policy) && call::responds(
                e,
                escalation_message(verb@, policy),
            ),
        },
{
    if unified_exec::is_escalated(with_escalated_permissions) && policy
        != AskForApproval::OnRequest {
        let mut message = "approval policy is ".to_owned();
        message.append(call::policy_text(policy));
        message.append("; reject command — you ");
        message.append(verb);
        message.append(" ask for escalated permissions if the approval policy is ");
        message.append(call::policy_text(policy));
        return Err(FunctionCallError::RespondToModel(message));
    }
    Ok(())
}

/// The handler of commands that are lists of words.
#[derive(Debug)]
pub struct ShellHandler;

/// The handler of commands that are one line of shell.
#[derive(Debug)]
pub struct ShellCommandHandler;

/// Whether `params` runs the call in the directory and with the environment of the turn.
pub open spec fn runs_call(
    params: ExecParams,
    workdir: Option<String>,
    timeout_ms: Option<u64>,
    with_escalated_permissions: Option<bool>,
    justification: Option<String>,
    turn_cwd: Seq<char>,
    env: Vec<(String, String)>,
    on_windows: bool,
) -> bool {
    &&& params.cwd@ == working_dir(turn_cwd, workdir, on_windows)
    &&& params.timeout_ms == timeout_ms
    &&& params.env == env
    &&& params.with_escalated_permissions == with_escalated_permissions
    &&& params.justification == justification
    &&& params.arg0 is None
}

impl ShellHandler {
    pub fn to_exec_params(
        params: ShellToolCallParams,
        turn_cwd: &String,
        env: Vec<(String, String)>,
        on_windows: bool,
    ) -> (r: ExecParams)
        ensures
            r.command == params.command,
            runs_call(
                r,
                params.workdir,
                params.timeout_ms,
                params.with_escalated_permissions,
                params.justification,
                turn_cwd@,
                env,
                on_windows,
            ),
    {
        ExecParams {
            command: params.command,
            cwd: resolve_path(turn_cwd, &params.workdir, on_windows),
            timeout_ms: params.timeout_ms,
            env,
            with_escalated_permissions: params.with_escalated_permissions,
            justification: params.justification,
            arg0: None,
        }
    }

    pub fn kind(&self) -> (r: ToolKind)
        ensures
            r == ToolKind::Function,
    {
        ToolKind::Function
    }

    pub fn matches_kind(&self, payload: &ToolPayload) -> (r: bool)
        ensures
            r == (payload is Function || payload is LocalShell),
    {
        match payload {
            ToolPayload::Function { .. } | ToolPayload::LocalShell { .. } => true,
            _ => false,
        }
    }

    /// Whether a call may change anything: always, unless its command could be read and is known
    /// to be safe. `known_safe` is what is known of the command, and nothing for arguments that
    /// could not be read.
    pub fn is_mutating(&self, payload: &ToolPayload, known_safe: Option<bool>) -> (r: bool)
        ensures
            r == !((payload is Function || payload is LocalShell) && known_safe == Some(true)),
    {
        match payload {
            ToolPayload::Function { .. } | ToolPayload::LocalShell { .. } => match known_safe {
                Some(safe) => !safe,
                None => true,
            },
            _ => true,
        }
    }

    /// The command of a call, and whether the user typed it. `parsed` is what the arguments of a
    /// function say, or why they could not be read.
    pub fn handle(
        &self,
        tool_name: &str,
        payload: ToolPayload,
        parsed: Result<ShellToolCallParams, String>,
        turn_cwd: &String,
        env: Vec<(String, String)>,
        on_windows: bool,
    ) -> (r: Result<(ExecParams, bool), FunctionCallError>)
        ensures
            match payload {
                ToolPayload::Function { .. } => match parsed {
                    Ok(params) => {
                        &&& r matches Ok((p, false))
                        &&& p.command == params.command
                        &&& runs_call(
                            p,
                            params.workdir,
                            params.timeout_ms,
                            params.with_escalated_permissions,
                            params.justification,
                            turn_cwd@,
                            env,
                            on_windows,
                        )
                    },
                    Err(err) => {
                        r matches Err(e) && call::responds(
                            e,
                            "failed to parse function arguments: "@ + err@,
                        )
                    },
                },
                ToolPayload::LocalShell { params } => {
                    &&& r matches Ok((p, true))
                    &&& p.command == params.command
                    &&& runs_call(
                        p,
                        params.workdir,
                        params.timeout_ms,
                        params.with_escalated_permissions,
                        params.justification,
                        turn_cwd@,
                        env,
                        on_windows,
                    )
                },
                _ => {
                    r matches Err(e) && call::responds(
                        e,
                        "unsupported payload for shell handler: "@ + tool_name@,
                    )
                },
            },
    {
        match payload {
            ToolPayload::Function { .. } => match parsed {
                Ok(params) => Ok((ShellHandler::to_exec_params(params, turn_cwd, env, on_windows), false)),
                Err(err) => Err(
                    call::respond("failed to parse function arguments: ", err.as_str()),
                ),
            },
            ToolPayload::LocalShell { params } => Ok(
                (ShellHandler::to_exec_params(params, turn_cwd, env, on_windows), true),
            ),
            _ => Err(call::respond("unsupported payload for shell handler: ", tool_name)),
        }
    }

    /// What a command leads to, once it is known what it looks like to the patch tool.
    pub fn run_exec_like(
        params: ExecParams,
        approval_policy: AskForApproval,
        check: PatchCheck,
    ) -> (r: Result<ExecLike, FunctionCallError>)
        ensures
            if escalation_refused(params.with_escalated_permissions, approval_policy) {
                r matches Err(e) && call::responds(
                    e,
                    escalation_message("should not"@, approval_policy),
                )
            } else {
                match check {
                    PatchCheck::Body => r == Ok::<ExecLike, FunctionCallError>(ExecLike::Patch),
                    PatchCheck::CorrectnessError(err) => {
                        r matches Err(e) && call::responds(
                            e,
                            "apply_patch verification failed: "@ + err@,
                        )
                    },
                    _ => r == Ok::<ExecLike, FunctionCallError>(
                        ExecLike::Run(
                            ShellRequest {
                                command: params.command,
                                cwd: params.cwd,
                                timeout_ms: params.timeout_ms,
                                env: params.env,
                                with_escalated_permissions: params.with_escalated_permissions,
                                justification: params.justification,
                            },
                        ),
                    ),
                }
            },
    {
        match guard_escalation(params.with_escalated_permissions, approval_policy, "should not") {
            Ok(_) => {},
            Err(e) => return Err(e),
        }
        match check {
            PatchCheck::Body => Ok(ExecLike::Patch),
            PatchCheck::CorrectnessError(err) => Err(
                call::respond("apply_patch verification failed: ", err.as_str()),
            ),
            PatchCheck::ShellParseError | PatchCheck::NotApplyPatch => Ok(
                ExecLike::Run(
                    ShellRequest {
                        command: params.command,
                        cwd: params.cwd,
                        timeout_ms: params.timeout_ms,
                        env: params.env,
                        with_escalated_permissions: params.with_escalated_permissions,
                        justification: params.justification,
                    },
                ),
            ),
        }
    }

    /// What a patch leads to, once the patch tool has seen it: its result is returned, or the
    /// patch is run like a command, approved beforehand unless the user approved it themselves.
    pub fn apply_patch(
        invocation: PatchInvocation,
        timeout_ms: Option<u64>,
        codex_exe: Option<String>,
    ) -> (r: Result<PatchStep, FunctionCallError>)
        ensures
            match invocation {
                PatchInvocation::Output(Ok(content)) => {
                    &&& r matches Ok(PatchStep::Return(out))
                    &&& out.content == content
                    &&& out.content_items is None
                    &&& out.success == Some(true)
                },
                PatchInvocation::Output(Err(e)) => r == Err::<PatchStep, FunctionCallError>(e),
                PatchInvocation::DelegateToExec { patch, cwd, user_explicitly_approved } => r
                    == Ok::<PatchStep, FunctionCallError>(
                    PatchStep::Run {
                        request: ApplyPatchRequest {
                            patch,
                            cwd,
                            timeout_ms,
                            user_explicitly_approved,
                            codex_exe,
                        },
                        auto_approved: !user_explicitly_approved,
                    },
                ),
            },
    {
        match invocation {
            PatchInvocation::Output(Ok(content)) => Ok(PatchStep::Return(call::succeeded(content))),
            PatchInvocation::Output(Err(e)) => Err(e),
            PatchInvocation::DelegateToExec { patch, cwd, user_explicitly_approved } => Ok(
                PatchStep::Run {
                    request: ApplyPatchRequest {
                        patch,
                        cwd,
                        timeout_ms,
                        user_explicitly_approved,
                        codex_exe,
                    },
                    auto_approved: !user_explicitly_approved,
                },
            ),
        }
    }
}

impl ShellCommandHandler {
    /// The command of a call: the user's shell runs the line, as a login shell.
    pub fn to_exec_params(
        params: ShellCommandToolCallParams,
        user_shell: &Shell,
        turn_cwd: &String,
        env: Vec<(String, String)>,
        on_windows: bool,
    ) -> (r: ExecParams)
        ensures
            text::texts(r.command@) == shell::exec_args(
                *user_shell,
                params.command@,
                true,
                shell_words::shlex_words(params.command@),
            ),
            runs_call(
                r,
                params.workdir,
                params.timeout_ms,
                params.with_escalated_permissions,
                params.justification,
                turn_cwd@,
                env,
                on_windows,
            ),
    {
        let command = user_shell.derive_exec_args(params.command.as_str(), true);
        ExecParams {
            command,
            cwd: resolve_path(turn_cwd, &params.workdir, on_windows),
            timeout_ms: params.timeout_ms,
            env,
            with_escalated_permissions: params.with_escalated_permissions,
            justification: params.justification,
            arg0: None,
        }
    }

    pub fn kind(&self) -> (r: ToolKind)
        ensures
            r == ToolKind::Function,
    {
        ToolKind::Function
    }

    pub fn matches_kind(&self, payload: &ToolPayload) -> (r: bool)
        ensures
            r == (payload is Function),
    {
        match payload {
            ToolPayload::Function { .. } => true,
            _ => false,
        }
    }

    /// The command of a call. `parsed` is what the arguments say, or why they could not be read.
    pub fn handle(
        &self,
        tool_name: &str,
        payload: &ToolPayload,
        parsed: Result<ShellCommandToolCallParams, String>,
        user_shell: &Shell,
        turn_cwd: &String,
        env: Vec<(String, String)>,
        on_windows: bool,
    ) -> (r: Result<ExecParams, FunctionCallError>)
        ensures
            if payload is Function {
                match parsed {
                    Ok(params) => {
                        &&& r matches Ok(p)
                        &&& text::texts(p.command@) == shell::exec_args(
                            *user_shell,
                            params.command@,
                            true,
                            shell_words::shlex_words(params.command@),
                        )
                        &&& runs_call(
                            p,
                            params.workdir,
                            params.timeout_ms,
                            params.with_escalated_permissions,
                            params.justification,
                            turn_cwd@,
                            env,
                            on_windows,
                        )
                    },
                    Err(err) => {
                        r matches Err(e) && call::responds(
                            e,
                            "failed to parse function arguments: "@ + err@,
                        )
                    },
                }
            } else {
                r matches Err(e) && call::responds(
                    e,
                    "unsupported payload for shell_command handler: "@ + tool_name@,
                )
            },
    {
        if !self.matches_kind(payload) {
            return Err(
                call::respond("unsupported payload for shell_command handler: ", tool_name),
            );
        }
        match parsed {
            Ok(params) => Ok(
                ShellCommandHandler::to_exec_params(params, user_shell, turn_cwd, env, on_windows),
            ),
            Err(err) => Err(call::respond("failed to parse function arguments: ", err.as_str())),
        }
    }
}

/// A command that asks for more than its sandbox allows is refused exactly where the model may not
/// ask for that, and the refusal names the policy.
pub proof fn law_escalation_needs_the_right_policy(
    asked: Option<bool>,
    policy: AskForApproval,
    verb: Seq<char>,
)
    ensures
        escalation_refused(asked, policy) <==> asked == Some(true) && (policy
            == AskForApproval::Never || policy == AskForApproval::OnFailure || policy
            == AskForApproval::UnlessTrusted),
        escalation_message(verb, policy) == "approval policy is "@ + call::policy_name(policy)
            + "; reject command — you "@ + verb
            + " ask for escalated permissions if the approval policy is "@ + call::policy_name(
            policy,
        ),
{
}

/// A command runs in the directory that it asks for, seen from that of the turn, and else in that of
/// the turn.
pub proof fn law_command_runs_where_it_asks(cwd: Seq<char>, dir: String, on_windows: bool)
    ensures
        working_dir(cwd, None, on_windows) == cwd,
        working_dir(cwd, Some(dir), on_windows) == path::joined_path(cwd, dir@, on_windows),
{
}

/// What is run is what the call asks for: in its directory, with its time, its permissions and its
/// reason, and under its own name.
pub proof fn law_call_is_run_as_asked(
    params: ExecParams,
    workdir: Option<String>,
    timeout_ms: Option<u64>,
    with_escalated_permissions: Option<bool>,
    justification: Option<String>,
    turn_cwd: Seq<char>,
    env: Vec<(String, String)>,
    on_windows: bool,
)
    requires
        runs_call(
            params,
            workdir,
            timeout_ms,
            with_escalated_permissions,
            justification,
            turn_cwd,
            env,
            on_windows,
        ),
    ensures
        params.cwd@ == working_dir(turn_cwd, workdir, on_windows),
        params.timeout_ms == timeout_ms,
        params.env == env,
        params.with_escalated_permissions == with_escalated_permissions,
        params.justification == justification,
        params.arg0 is None,
{
}

/// A call changes something unless it is one that runs a command and the command is known to be
/// safe.
pub proof fn law_unknown_commands_may_change_things(
    handler: ShellHandler,
    payload: ToolPayload,
    known_safe: Option<bool>,
    taken: bool,
    mutating: bool,
)
    requires
        call_ensures(ShellHandler::matches_kind, (&handler, &payload), taken),
        call_ensures(ShellHandler::is_mutating, (&handler, &payload, known_safe), mutating),
    ensures
        taken <==> payload is Function || payload is LocalShell,
        !mutating <==> taken && known_safe is Some && known_safe->0,
{
}

/// A command is taken from the arguments of a function or from a local shell call, and is told apart
/// by which of them it was; anything else is answered with what is wrong.
pub proof fn law_commands_come_from_two_kinds_of_calls(
    handler: ShellHandler,
    name: &str,
    payload: ToolPayload,
    parsed: Result<ShellToolCallParams, String>,
    cwd: String,
    env: Vec<(String, String)>,
    on_windows: bool,
    r: Result<(ExecParams, bool), FunctionCallError>,
)
    requires
        call_ensures(
            ShellHandler::handle,
            (&handler, name, payload, parsed, &cwd, env, on_windows),
            r,
        ),
    ensures
        match payload {
            ToolPayload::Function { .. } => match parsed {
                Ok(params) => r matches Ok((p, user)) && !user && p.command == params.command
                    && p.cwd@ == working_dir(cwd@, params.workdir, on_windows),
                Err(why) => r matches Err(FunctionCallError::RespondToModel(m)) && m@
                    == "failed to parse function arguments: "@ + why@,
            },
            ToolPayload::LocalShell { params } => r matches Ok((p, user)) && user && p.command
                == params.command && p.cwd@ == working_dir(cwd@, params.workdir, on_windows),
            _ => r matches Err(FunctionCallError::RespondToModel(m)) && m@
                == "unsupported payload for shell handler: "@ + name@,
        },
{
}

/// A command that asks for more than it may is refused before anything else; a patch is handed to the
/// patch tool, and refused where it does not fit; and anything else runs as it is.
pub proof fn law_patches_are_not_run(
    params: ExecParams,
    policy: AskForApproval,
    check: PatchCheck,
    r: Result<ExecLike, FunctionCallError>,
)
    requires
        call_ensures(ShellHandler::run_exec_like, (params, policy, check), r),
    ensures
        ({
            let refused = params.with_escalated_permissions == Some(true) && policy
                != AskForApproval::OnRequest;
            &&& refused ==> r is Err
            &&& !refused ==> match check {
                PatchCheck::Body => r == Ok::<ExecLike, FunctionCallError>(ExecLike::Patch),
                PatchCheck::CorrectnessError(why) => r matches Err(
                    FunctionCallError::RespondToModel(m),
                ) && m@ == "apply_patch verification failed: "@ + why@,
                _ => r matches Ok(ExecLike::Run(request)) && request.command == params.command
                    && request.cwd == params.cwd && request.timeout_ms == params.timeout_ms
                    && request.env == params.env && request.with_escalated_permissions
                    == params.with_escalated_permissions && request.justification
                    == params.justification,
            }
        }),
{
}

/// A patch that was applied is answered with what was done; one that has to be run is, and counts as
/// approved by itself unless the user approved it.
pub proof fn law_patch_is_applied_or_run(
    invocation: PatchInvocation,
    timeout_ms: Option<u64>,
    exe: Option<String>,
    r: Result<PatchStep, FunctionCallError>,
)
    requires
        call_ensures(ShellHandler::apply_patch, (invocation, timeout_ms, exe), r),
    ensures
        match invocation {
            PatchInvocation::Output(Ok(content)) => r matches Ok(PatchStep::Return(out))
                && out.content == content && out.success == Some(true),
            PatchInvocation::Output(Err(e)) => r == Err::<PatchStep, FunctionCallError>(e),
            PatchInvocation::DelegateToExec { patch, cwd, user_explicitly_approved } => r matches Ok(
                PatchStep::Run { request, auto_approved },
            ) && request.patch == patch && request.cwd == cwd && request.timeout_ms == timeout_ms
                && request.codex_exe == exe && request.user_explicitly_approved
                == user_explicitly_approved && auto_approved == !user_explicitly_approved,
        },
{
}

/// A command line is run by the user's own shell, as a login shell.
pub proof fn law_command_lines_are_run_by_the_users_shell(
    params: ShellCommandToolCallParams,
    user_shell: Shell,
    cwd: String,
    env: Vec<(String, String)>,
    on_windows: bool,
    r: ExecParams,
)
    requires
        call_ensures(
            ShellCommandHandler::to_exec_params,
            (params, &user_shell, &cwd, env, on_windows),
            r,
        ),
    ensures
        text::texts(r.command@) == shell::exec_args(
            user_shell,
            params.command@,
            true,
            shell_words::shlex_words(params.command@),
        ),
        r.cwd@ == working_dir(cwd@, params.workdir, on_windows),
        r.timeout_ms == params.timeout_ms,
        r.env == env,
        r.with_escalated_permissions == params.with_escalated_permissions,
        r.justification == params.justification,
{
}

} // verus!
