//! Runtime for interactive commands: approval and sandbox for a request, and what comes of opening
//! its session.
use vstd::prelude::*;

use crate::error::{CodexErr, SandboxErr};
use crate::exec;
use crate::exec::{CommandSpec, SandboxTransformError};
use crate::protocol::{AskForApproval, SandboxPolicy};
use crate::text;
use crate::tools::orchestrator;
use crate::tools::orchestrator::ToolTraits;
use crate::tools::sandboxing;
use crate::tools::sandboxing::{
    ApprovalRequirement, SandboxRetryData, SandboxablePreference, ToolError,
};
use crate::unified_exec::errors::UnifiedExecError;

verus! {

/// A command that is to be opened as a session.
#[derive(Debug, Clone)]
pub struct UnifiedExecRequest {
    pub command: Vec<String>,
    pub cwd: String,
    pub env: Vec<(String, String)>,
    pub with_escalated_permissions: Option<bool>,
    pub justification: Option<String>,
    pub approval_requirement: ApprovalRequirement,
}

/// What an approval of a request is given for.
#[derive(Debug, Clone, PartialEq, Eq, Hash)]
pub struct UnifiedExecApprovalKey {
    pub command: Vec<String>,
    pub cwd: String,
    pub escalated: bool,
}

/// Whether a request asks to run without its sandbox.
pub open spec fn escalated(with_escalated_permissions: Option<bool>) -> bool {
    with_escalated_permissions == Some(true)
}

/// Whether a request asks to run without its sandbox.
pub fn is_escalated(with_escalated_permissions: Option<bool>) -> (r: bool)
    ensures
        r == escalated(with_escalated_permissions),
{
    match with_escalated_permissions {
        Some(b) => b,
        None => false,
    }
}

impl UnifiedExecRequest {
    pub fn new(
        command: Vec<String>,
        cwd: String,
        env: Vec<(String, String)>,
        with_escalated_permissions: Option<bool>,
        justification: Option<String>,
        approval_requirement: ApprovalRequirement,
    ) -> (r: Self)
        ensures
            r == (UnifiedExecRequest {
                command,
                cwd,
                env,
                with_escalated_permissions,
                justification,
                approval_requirement,
            }),
    {
        UnifiedExecRequest {
            command,
            cwd,
            env,
            with_escalated_permissions,
            justification,
            approval_requirement,
        }
    }

    /// The command, for a retry without its sandbox.
    pub fn sandbox_retry_data(&self) -> (r: Option<SandboxRetryData>)
        ensures
            r matches Some(data) && data.command@ == self.command@ && data.cwd == self.cwd,
    {
        Some(SandboxRetryData { command: text::copy_list(&self.command), cwd: self.cwd.clone() })
    }

    /// What an approval of the request is given for: the command, where it runs, and whether it
    /// runs without a sandbox.
    pub fn approval_key(&self) -> (r: UnifiedExecApprovalKey)
        ensures
            r.command@ == self.command@,
            r.cwd == self.cwd,
            r.escalated == escalated(self.with_escalated_permissions),
    {
        UnifiedExecApprovalKey {
            command: text::copy_list(&self.command),
            cwd: self.cwd.clone(),
            escalated: is_escalated(self.with_escalated_permissions),
        }
    }

    /// The reason that the user is given: that of the retry, or else that of the request.
    pub fn approval_reason(&self, retry_reason: &Option<String>) -> (r: Option<String>)
        ensures
            r == match *retry_reason {
                Some(reason) => Some(reason),
                None => self.justification,
            },
    {
        match retry_reason {
            Some(reason) => Some(reason.clone()),
            None => match &self.justification {
                Some(reason) => Some(reason.clone()),
                None => None,
            },
        }
    }

    pub fn wants_escalated_first_attempt(&self) -> (r: bool)
        ensures
            r == escalated(self.with_escalated_permissions),
    {
        is_escalated(self.with_escalated_permissions)
    }

    /// What the orchestrator needs to know of the request.
    pub fn tool_traits(&self, policy: AskForApproval, sandbox_policy: &SandboxPolicy) -> (r:
        ToolTraits)
        ensures
            r == orchestrator::traits_under(
                policy,
                *sandbox_policy,
                escalated(self.with_escalated_permissions),
                true,
                true,
            ),
    {
        ToolTraits::under_policy(
            policy,
            sandbox_policy,
            self.wants_escalated_first_attempt(),
            UnifiedExecRuntime::escalate_on_failure(),
            true,
        )
    }
}

/// The runtime of interactive commands.
#[derive(Debug)]
pub struct UnifiedExecRuntime;

impl UnifiedExecRuntime {
    pub fn sandbox_preference() -> (r: SandboxablePreference)
        ensures
            r == SandboxablePreference::Auto,
    {
        SandboxablePreference::Auto
    }

    pub fn escalate_on_failure() -> (r: bool)
        ensures
            r,
    {
        true
    }

    /// The command that is put into the sandbox; an empty one is rejected.
    pub fn command_spec(req: UnifiedExecRequest) -> (r: Result<CommandSpec, ToolError>)
        ensures
            match r {
                Ok(spec) => {
                    &&& req.command@.len() > 0
                    &&& spec.program == req.command@[0]
                    &&& spec.args@ == req.command@.skip(1)
                    &&& spec.cwd == req.cwd
                    &&& spec.env == req.env
                    &&& spec.timeout_ms is None
                    &&& spec.with_escalated_permissions == req.with_escalated_permissions
                    &&& spec.justification == req.justification
                },
                Err(e) => {
                    &&& req.command@.len() == 0
                    &&& e matches ToolError::Rejected(m)
                    &&& m@ == "missing command line for PTY"@
                },
            },
    {
        match exec::split_command(&req.command) {
            Some((program, args)) => Ok(
                CommandSpec {
                    program,
                    args,
                    cwd: req.cwd,
                    env: req.env,
                    timeout_ms: None,
                    with_escalated_permissions: req.with_escalated_permissions,
                    justification: req.justification,
                },
            ),
            None => Err(ToolError::Rejected("missing command line for PTY".to_owned())),
        }
    }

    /// The error of a command that could not be put into its sandbox.
    pub fn transform_failed(err: SandboxTransformError) -> (r: ToolError)
        ensures
            r matches ToolError::Codex(e) && match err {
                SandboxTransformError::MissingLinuxSandboxExecutable => e
                    == CodexErr::LandlockSandboxExecutableNotProvided,
                SandboxTransformError::SeatbeltUnavailable => {
                    e matches CodexErr::UnsupportedOperation(m) && m@
                        == "seatbelt sandbox is only available on macOS"@
                },
            },
    {
        ToolError::Codex(exec::transform_error(err))
    }

    /// What comes of opening a session: a denial of the sandbox is told apart, with its output,
    /// and anything else is rejected with the text of the error.
    pub fn opened<T>(outcome: Result<T, UnifiedExecError>) -> (r: Result<T, ToolError>)
        ensures
            match outcome {
                Ok(session) => r == Ok::<T, ToolError>(session),
                Err(UnifiedExecError::SandboxDenied { output, .. }) => r == Err::<T, ToolError>(
                    ToolError::Codex(
                        CodexErr::Sandbox(SandboxErr::Denied { output: Box::new(output) }),
                    ),
                ),
                Err(other) => {
                    r matches Err(ToolError::Rejected(m)) && m@ == other.text()
                },
            },
    {
        match outcome {
            Ok(session) => Ok(session),
            Err(UnifiedExecError::SandboxDenied { output, .. }) => Err(
                ToolError::Codex(
                    CodexErr::Sandbox(SandboxErr::Denied { output: Box::new(output) }),
                ),
            ),
            Err(other) => Err(ToolError::Rejected(other.message())),
        }
    }
}

/// A command asks for more than its sandbox allows only where it says so.
pub proof fn law_escalation_is_explicit(asked: Option<bool>)
    ensures
        escalated(asked) <==> asked is Some && asked->0,
{
}

/// A request is known again by its command, its directory and whether it asks for more; a retry is
/// explained by its own reason before that of the request.
pub proof fn law_requests_are_known_again(
    request: UnifiedExecRequest,
    retry_reason: Option<String>,
    key: UnifiedExecApprovalKey,
    reason: Option<String>,
    first: bool,
)
    requires
        call_ensures(UnifiedExecRequest::approval_key, (&request,), key),
        call_ensures(UnifiedExecRequest::approval_reason, (&request, &retry_reason), reason),
        call_ensures(UnifiedExecRequest::wants_escalated_first_attempt, (&request,), first),
    ensures
        key.command@ == request.command@,
        key.cwd == request.cwd,
        key.escalated <==> request.with_escalated_permissions == Some(true),
        first <==> request.with_escalated_permissions == Some(true),
        retry_reason is Some ==> reason == retry_reason,
        retry_reason is None ==> reason == request.justification,
{
}

/// A command for a terminal is its first word with the others as arguments, without a limit of time.
pub proof fn law_terminal_needs_a_command(
    request: UnifiedExecRequest,
    r: Result<CommandSpec, ToolError>,
)
    requires
        call_ensures(UnifiedExecRuntime::command_spec, (request,), r),
    ensures
        r is Ok <==> request.command@.len() > 0,
        r matches Ok(spec) ==> seq![spec.program] + spec.args@ == request.command@ && spec.cwd
            == request.cwd && spec.env == request.env && spec.timeout_ms is None
            && spec.with_escalated_permissions == request.with_escalated_permissions
            && spec.justification == request.justification,
        r is Err ==> (r->Err_0 matches ToolError::Rejected(m) && m@
            == "missing command line for PTY"@),
{
    if let Ok(spec) = r {
        assert(seq![spec.program] + spec.args@ =~= request.command@);
    }
}

/// A denial keeps its output, so that it can be followed up; any other error is a rejection with its
/// words.
pub proof fn law_denial_of_a_session_is_a_denial<T>(
    outcome: Result<T, UnifiedExecError>,
    r: Result<T, ToolError>,
)
    requires
        call_ensures(UnifiedExecRuntime::opened::<T>, (outcome,), r),
    ensures
        match outcome {
            Ok(session) => r == Ok::<T, ToolError>(session),
            Err(UnifiedExecError::SandboxDenied { output, .. }) => r matches Err(
                ToolError::Codex(CodexErr::Sandbox(SandboxErr::Denied { output: kept })),
            ) && *kept == output,
            Err(other) => r matches Err(ToolError::Rejected(m)) && m@ == other.text(),
        },
{
}

/// The tool is sandboxed where possible and goes on after a denial, and its command is there to be
/// assessed.
pub proof fn law_terminal_goes_on_after_a_denial(
    request: UnifiedExecRequest,
    policy: AskForApproval,
    sandbox_policy: SandboxPolicy,
    preference: SandboxablePreference,
    goes_on: bool,
    data: Option<SandboxRetryData>,
    traits: ToolTraits,
)
    requires
        call_ensures(UnifiedExecRuntime::sandbox_preference, (), preference),
        call_ensures(UnifiedExecRuntime::escalate_on_failure, (), goes_on),
        call_ensures(UnifiedExecRequest::sandbox_retry_data, (&request,), data),
        call_ensures(UnifiedExecRequest::tool_traits, (&request, policy, &sandbox_policy), traits),
    ensures
        preference == SandboxablePreference::Auto,
        goes_on,
        data is Some && (data->0).command@ == request.command@ && (data->0).cwd == request.cwd,
        traits.escalate_on_failure,
        traits.has_retry_data,
        traits.wants_escalated_first_attempt <==> request.with_escalated_permissions == Some(true),
{
}

} // verus!
