//! Central place for approvals, sandbox selection and retries. Any tool goes through the same
//! sequence: approval, attempt in the selected sandbox, and on denial a retry without a sandbox.
use vstd::prelude::*;

use crate::error::{CodexErr, SandboxErr};
use crate::exec::{ExecToolCallOutput, SandboxType};
use crate::protocol::{AskForApproval, ReviewDecision, SandboxPolicy};
use crate::tools::sandboxing;
use crate::tools::sandboxing::ToolError;

verus! {

/// What a tool says of itself for one request.
#[derive(Clone, Copy, Debug, PartialEq, Eq, Structural)]
pub struct ToolTraits {
    /// Whether the user is asked before the first attempt.
    pub wants_initial_approval: bool,
    /// Whether the first attempt is made without a sandbox.
    pub wants_escalated_first_attempt: bool,
    /// Whether a denial is followed by a retry without a sandbox.
    pub escalate_on_failure: bool,
    /// Whether the user may be asked for a retry without a sandbox.
    pub wants_no_sandbox_approval: bool,
    /// Whether the retry needs no further approval, where there was one before the first attempt.
    pub bypass_when_approved: bool,
    /// Whether the retry needs no approval, where there was none before the first attempt.
    pub bypass_when_not_approved: bool,
    /// Whether the request names a command whose risk can be assessed.
    pub has_retry_data: bool,
}

/// What a tool says of itself where it leaves the questions to the policies.
pub open spec fn traits_under(
    policy: AskForApproval,
    sandbox_policy: SandboxPolicy,
    wants_escalated_first_attempt: bool,
    escalate_on_failure: bool,
    has_retry_data: bool,
) -> ToolTraits {
    ToolTraits {
        wants_initial_approval: sandboxing::asks_first(policy, sandbox_policy),
        wants_escalated_first_attempt,
        escalate_on_failure,
        wants_no_sandbox_approval: policy != AskForApproval::Never && policy
            != AskForApproval::OnRequest,
        bypass_when_approved: true,
        bypass_when_not_approved: policy == AskForApproval::Never,
        has_retry_data,
    }
}

impl ToolTraits {
    /// What a tool says of itself where it leaves the questions to the policies.
    pub fn under_policy(
        policy: AskForApproval,
        sandbox_policy: &SandboxPolicy,
        wants_escalated_first_attempt: bool,
        escalate_on_failure: bool,
        has_retry_data: bool,
    ) -> (r: Self)
        ensures
            r == traits_under(
                policy,
                *sandbox_policy,
                wants_escalated_first_attempt,
                escalate_on_failure,
                has_retry_data,
            ),
    {
        ToolTraits {
            wants_initial_approval: sandboxing::wants_initial_approval(policy, sandbox_policy),
            wants_escalated_first_attempt,
            escalate_on_failure,
            wants_no_sandbox_approval: sandboxing::wants_no_sandbox_approval(policy),
            bypass_when_approved: sandboxing::should_bypass_approval(policy, true),
            bypass_when_not_approved: sandboxing::should_bypass_approval(policy, false),
            has_retry_data,
        }
    }
}

/// How far a request has come.
#[derive(Clone, Copy, Debug, PartialEq, Eq, Structural)]
pub enum Stage {
    Idle,
    AssessingFirst,
    AskingFirst,
    RunningFirst { already_approved: bool },
    AssessingRetry,
    AskingRetry,
    RunningRetry,
    Finished,
}

/// What an attempt came to.
#[derive(Debug)]
pub enum AttemptOutcome<Out> {
    Done(Out),
    /// The sandbox stopped the tool; with the words in which the user is told so.
    Denied { output: Box<ExecToolCallOutput>, friendly: String },
    Failed(ToolError),
}

/// What happens to a request.
#[derive(Debug)]
pub enum OrchestratorEvent<Out> {
    Begin,
    /// The risk of the command was assessed; the assessment is JSON text.
    Assessed(Option<String>),
    Decided(ReviewDecision),
    Ran(AttemptOutcome<Out>),
}

/// What to do next with a request.
#[derive(Debug)]
pub enum OrchestratorAction<Out> {
    /// Assess the risk of the command, in view of this failure.
    Assess { failure_summary: Option<String> },
    /// Ask the user.
    Ask { retry_reason: Option<String>, risk: Option<String> },
    /// Run the tool in this sandbox, with the helper program of the sandbox or without.
    Run { sandbox: SandboxType, with_sandbox_exe: bool },
    /// The request is done with.
    Finish(Result<Out, ToolError>),
    /// The event does not fit; nothing changes.
    Ignore,
}

/// The way of one request through approval, attempt and retry.
#[derive(Debug)]
pub struct ToolOrchestrator {
    pub stage: Stage,
}

/// The sandbox of the first attempt.
pub open spec fn first_sandbox(tool: ToolTraits, selected: SandboxType) -> SandboxType {
    if tool.wants_escalated_first_attempt {
        SandboxType::Unsandboxed
    } else {
        selected
    }
}

/// Whether the answer lets the request go on.
pub open spec fn approves(decision: ReviewDecision) -> bool {
    decision == ReviewDecision::Approved || decision == ReviewDecision::ApprovedForSession
}

/// Whether a denial may be followed by a retry.
pub open spec fn may_retry(tool: ToolTraits) -> bool {
    tool.escalate_on_failure && tool.wants_no_sandbox_approval
}

/// Whether a retry needs no further approval.
pub open spec fn bypasses(tool: ToolTraits, already_approved: bool) -> bool {
    if already_approved {
        tool.bypass_when_approved
    } else {
        tool.bypass_when_not_approved
    }
}

/// The first attempt.
pub open spec fn first_run<Out>(tool: ToolTraits, selected: SandboxType) -> OrchestratorAction<
    Out,
> {
    OrchestratorAction::Run { sandbox: first_sandbox(tool, selected), with_sandbox_exe: true }
}

/// The attempt without a sandbox.
pub open spec fn bare_run<Out>() -> OrchestratorAction<Out> {
    OrchestratorAction::Run { sandbox: SandboxType::Unsandboxed, with_sandbox_exe: false }
}

/// Whether `action` asks the user for a retry.
pub open spec fn asks_for_retry<Out>(action: OrchestratorAction<Out>, risk: Option<String>) -> bool {
    action matches OrchestratorAction::Ask { retry_reason: Some(reason), risk: r } && reason@
        == "command failed; retry without sandbox?"@ && r == risk
}

/// What a denial of the first attempt leads to.
pub open spec fn denial_step<Out>(
    tool: ToolTraits,
    already_approved: bool,
    output: Box<ExecToolCallOutput>,
    friendly: Seq<char>,
    next: Stage,
    action: OrchestratorAction<Out>,
) -> bool {
    if !may_retry(tool) {
        &&& next == Stage::Finished
        &&& action == OrchestratorAction::<Out>::Finish(
            Err(ToolError::Codex(CodexErr::Sandbox(SandboxErr::Denied { output }))),
        )
    } else if bypasses(tool, already_approved) {
        next == Stage::RunningRetry && action == bare_run::<Out>()
    } else if tool.has_retry_data {
        &&& next == Stage::AssessingRetry
        &&& action matches OrchestratorAction::Assess { failure_summary: Some(summary) }
        &&& summary@ == "failed in sandbox: "@ + friendly
    } else {
        next == Stage::AskingRetry && asks_for_retry(action, None)
    }
}

/// What an event leads to.
pub open spec fn orchestrator_step<Out>(
    tool: ToolTraits,
    selected: SandboxType,
    stage: Stage,
    event: OrchestratorEvent<Out>,
    next: Stage,
    action: OrchestratorAction<Out>,
) -> bool {
    match (stage, event) {
        (Stage::Idle, OrchestratorEvent::Begin) => if !tool.wants_initial_approval {
            next == (Stage::RunningFirst { already_approved: false }) && action == first_run::<Out>(
                tool,
                selected,
            )
        } else if tool.has_retry_data {
            next == Stage::AssessingFirst && action == (OrchestratorAction::<Out>::Assess {
                failure_summary: None,
            })
        } else {
            next == Stage::AskingFirst && action == (OrchestratorAction::<Out>::Ask {
                retry_reason: None,
                risk: None,
            })
        },
        (Stage::AssessingFirst, OrchestratorEvent::Assessed(risk)) => next == Stage::AskingFirst
            && action == (OrchestratorAction::<Out>::Ask { retry_reason: None, risk }),
        (Stage::AskingFirst, OrchestratorEvent::Decided(decision)) => if approves(decision) {
            next == (Stage::RunningFirst { already_approved: true }) && action == first_run::<Out>(
                tool,
                selected,
            )
        } else {
            next == Stage::Finished && (action matches OrchestratorAction::Finish(Err(e))
                && sandboxing::is_rejected_by_user(e))
        },
        (Stage::RunningFirst { already_approved }, OrchestratorEvent::Ran(outcome)) => {
            match outcome {
                AttemptOutcome::Done(out) => next == Stage::Finished && action
                    == OrchestratorAction::<Out>::Finish(Ok(out)),
                AttemptOutcome::Failed(e) => next == Stage::Finished && action
                    == OrchestratorAction::<Out>::Finish(Err(e)),
                AttemptOutcome::Denied { output, friendly } => denial_step(
                    tool,
                    already_approved,
                    output,
                    friendly@,
                    next,
                    action,
                ),
            }
        },
        (Stage::AssessingRetry, OrchestratorEvent::Assessed(risk)) => next == Stage::AskingRetry
            && asks_for_retry(action, risk),
        (Stage::AskingRetry, OrchestratorEvent::Decided(decision)) => if approves(decision) {
            next == Stage::RunningRetry && action == bare_run::<Out>()
        } else {
            next == Stage::Finished && (action matches OrchestratorAction::Finish(Err(e))
                && sandboxing::is_rejected_by_user(e))
        },
        (Stage::RunningRetry, OrchestratorEvent::Ran(outcome)) => {
            &&& next == Stage::Finished
            &&& action == OrchestratorAction::<Out>::Finish(
                match outcome {
                    AttemptOutcome::Done(out) => Ok(out),
                    AttemptOutcome::Failed(e) => Err(e),
                    AttemptOutcome::Denied { output, .. } => Err(
                        ToolError::Codex(CodexErr::Sandbox(SandboxErr::Denied { output })),
                    ),
                },
            )
        },
        _ => next == stage && action == OrchestratorAction::<Out>::Ignore,
    }
}

/// Why the user is asked for a retry. Terse and the same for every output.
pub fn build_denial_reason_from_output(_output: &ExecToolCallOutput) -> (r: String)
    ensures
        r@ == "command failed; retry without sandbox?"@,
{
    "command failed; retry without sandbox?".to_owned()
}

impl ToolOrchestrator {
    pub fn new() -> (r: Self)
        ensures
            r.stage == Stage::Idle,
    {
        ToolOrchestrator { stage: Stage::Idle }
    }

    /// Takes note of an event and says what to do next. `selected` is the sandbox that the policy
    /// and the tool's preference select.
    pub fn run<Out>(
        &mut self,
        tool: &ToolTraits,
        selected: SandboxType,
        event: OrchestratorEvent<Out>,
    ) -> (action: OrchestratorAction<Out>)
        ensures
            orchestrator_step(
                *tool,
                selected,
                old(self).stage,
                event,
                final(self).stage,
                action,
            ),
    {
        let initial_sandbox = if tool.wants_escalated_first_attempt {
            SandboxType::Unsandboxed
        } else {
            selected
        };
        let (next, action) = match (self.stage, event) {
            (Stage::Idle, OrchestratorEvent::Begin) => {
                if !tool.wants_initial_approval {
                    (
                        Stage::RunningFirst { already_approved: false },
                        OrchestratorAction::Run { sandbox: initial_sandbox, with_sandbox_exe: true },
                    )
                } else if tool.has_retry_data {
                    (Stage::AssessingFirst, OrchestratorAction::Assess { failure_summary: None })
                } else {
                    (
                        Stage::AskingFirst,
                        OrchestratorAction::Ask { retry_reason: None, risk: None },
                    )
                }
            },
            (Stage::AssessingFirst, OrchestratorEvent::Assessed(risk)) => (
                Stage::AskingFirst,
                OrchestratorAction::Ask { retry_reason: None, risk },
            ),
            (Stage::AskingFirst, OrchestratorEvent::Decided(decision)) => {
                if decision == ReviewDecision::Approved || decision
                    == ReviewDecision::ApprovedForSession {
                    (
                        Stage::RunningFirst { already_approved: true },
                        OrchestratorAction::Run { sandbox: initial_sandbox, with_sandbox_exe: true },
                    )
                } else {
                    (
                        Stage::Finished,
                        OrchestratorAction::Finish(
                            Err(ToolError::Rejected("rejected by user".to_owned())),
                        ),
                    )
                }
            },
            (Stage::RunningFirst { already_approved }, OrchestratorEvent::Ran(outcome)) => {
                match outcome {
                    AttemptOutcome::Done(out) => (
                        Stage::Finished,
                        OrchestratorAction::Finish(Ok(out)),
                    ),
                    AttemptOutcome::Failed(e) => (
                        Stage::Finished,
                        OrchestratorAction::Finish(Err(e)),
                    ),
                    AttemptOutcome::Denied { output, friendly } => {
                        let bypass = if already_approved {
                            tool.bypass_when_approved
                        } else {
                            tool.bypass_when_not_approved
                        };
                        if !tool.escalate_on_failure || !tool.wants_no_sandbox_approval {
                            (
                                Stage::Finished,
                                OrchestratorAction::Finish(
                                    Err(
                                        ToolError::Codex(
                                            CodexErr::Sandbox(SandboxErr::Denied { output }),
                                        ),
                                    ),
                                ),
                            )
                        } else if bypass {
                            (
                                Stage::RunningRetry,
                                OrchestratorAction::Run {
                                    sandbox: SandboxType::Unsandboxed,
                                    with_sandbox_exe: false,
                                },
                            )
                        } else if tool.has_retry_data {
                            let mut summary = "failed in sandbox: ".to_owned();
                            summary.append(friendly.as_str());
                            (
                                Stage::AssessingRetry,
                                OrchestratorAction::Assess { failure_summary: Some(summary) },
                            )
                        } else {
                            (
                                Stage::AskingRetry,
                                OrchestratorAction::Ask {
                                    retry_reason: Some(build_denial_reason_from_output(&output)),
                                    risk: None,
                                },
                            )
                        }
                    },
                }
            },
            (Stage::AssessingRetry, OrchestratorEvent::Assessed(risk)) => (
                Stage::AskingRetry,
                OrchestratorAction::Ask {
                    retry_reason: Some("command failed; retry without sandbox?".to_owned()),
                    risk,
                },
            ),
            (Stage::AskingRetry, OrchestratorEvent::Decided(decision)) => {
                if decision == ReviewDecision::Approved || decision
                    == ReviewDecision::ApprovedForSession {
                    (
                        Stage::RunningRetry,
                        OrchestratorAction::Run {
                            sandbox: SandboxType::Unsandboxed,
                            with_sandbox_exe: false,
                        },
                    )
                } else {
                    (
                        Stage::Finished,
                        OrchestratorAction::Finish(
                            Err(ToolError::Rejected("rejected by user".to_owned())),
                        ),
                    )
                }
            },
            (Stage::RunningRetry, OrchestratorEvent::Ran(outcome)) => {
                let result = match outcome {
                    AttemptOutcome::Done(out) => Ok(out),
                    AttemptOutcome::Failed(e) => Err(e),
                    AttemptOutcome::Denied { output, .. } => Err(
                        ToolError::Codex(CodexErr::Sandbox(SandboxErr::Denied { output })),
                    ),
                };
                (Stage::Finished, OrchestratorAction::Finish(result))
            },
            (stage, _) => (stage, OrchestratorAction::Ignore),
        };
        self.stage = next;
        action
    }
}

/// The attempts that a request may still see from a stage on.
pub open spec fn runs_left(stage: Stage) -> nat {
    match stage {
        Stage::Idle | Stage::AssessingFirst | Stage::AskingFirst => 2,
        Stage::RunningFirst { .. } | Stage::AssessingRetry | Stage::AskingRetry => 1,
        Stage::RunningRetry | Stage::Finished => 0,
    }
}

/// A tool is run at most twice: each run takes one of the attempts that are left.
pub proof fn law_at_most_two_runs<Out>(
    tool: ToolTraits,
    selected: SandboxType,
    stage: Stage,
    event: OrchestratorEvent<Out>,
    next: Stage,
    action: OrchestratorAction<Out>,
)
    requires
        orchestrator_step(tool, selected, stage, event, next, action),
    ensures
        runs_left(next) <= runs_left(stage),
        action is Run ==> runs_left(next) == runs_left(stage) - 1,
{
}

/// Where the user is to be asked first, no tool is run before they approved.
pub proof fn law_no_run_before_approval<Out>(
    tool: ToolTraits,
    selected: SandboxType,
    stage: Stage,
    event: OrchestratorEvent<Out>,
    next: Stage,
    action: OrchestratorAction<Out>,
)
    requires
        orchestrator_step(tool, selected, stage, event, next, action),
        tool.wants_initial_approval,
        stage == Stage::Idle || stage == Stage::AssessingFirst || stage == Stage::AskingFirst,
        action is Run,
    ensures
        stage == Stage::AskingFirst,
        event matches OrchestratorEvent::Decided(decision) && approves(decision),
{
}

/// A request that the user rejects ends there.
pub proof fn law_rejection_ends_the_request<Out>(
    tool: ToolTraits,
    selected: SandboxType,
    stage: Stage,
    decision: ReviewDecision,
    next: Stage,
    action: OrchestratorAction<Out>,
)
    requires
        orchestrator_step(
            tool,
            selected,
            stage,
            OrchestratorEvent::Decided(decision),
            next,
            action,
        ),
        stage == Stage::AskingFirst || stage == Stage::AskingRetry,
        !approves(decision),
    ensures
        next == Stage::Finished,
        action matches OrchestratorAction::Finish(Err(e)) && sandboxing::is_rejected_by_user(e),
{
}

/// A denial is followed by a run without a sandbox only where the tool escalates and the policy
/// lets the user be asked; else the denial, with its output, is the outcome.
pub proof fn law_denial_keeps_its_output<Out>(
    tool: ToolTraits,
    selected: SandboxType,
    already_approved: bool,
    output: Box<ExecToolCallOutput>,
    friendly: String,
    next: Stage,
    action: OrchestratorAction<Out>,
)
    requires
        orchestrator_step(
            tool,
            selected,
            Stage::RunningFirst { already_approved },
            OrchestratorEvent::Ran(AttemptOutcome::Denied { output, friendly }),
            next,
            action,
        ),
        !may_retry(tool),
    ensures
        next == Stage::Finished,
        action == OrchestratorAction::<Out>::Finish(
            Err(ToolError::Codex(CodexErr::Sandbox(SandboxErr::Denied { output }))),
        ),
{
}

/// A tool that leaves the questions to the policies is never run again without its sandbox under
/// `Never` and `OnRequest`: the denial, with its output, is the outcome.
pub proof fn law_no_retry_under_never_or_on_request<Out>(
    policy: AskForApproval,
    sandbox_policy: SandboxPolicy,
    escalated: bool,
    escalate_on_failure: bool,
    has_retry_data: bool,
    selected: SandboxType,
    already_approved: bool,
    output: Box<ExecToolCallOutput>,
    friendly: String,
    next: Stage,
    action: OrchestratorAction<Out>,
)
    requires
        policy == AskForApproval::Never || policy == AskForApproval::OnRequest,
        orchestrator_step(
            traits_under(policy, sandbox_policy, escalated, escalate_on_failure, has_retry_data),
            selected,
            Stage::RunningFirst { already_approved },
            OrchestratorEvent::Ran(AttemptOutcome::Denied { output, friendly }),
            next,
            action,
        ),
    ensures
        next == Stage::Finished,
        action == OrchestratorAction::<Out>::Finish(
            Err(ToolError::Codex(CodexErr::Sandbox(SandboxErr::Denied { output }))),
        ),
{
}

/// One approval is enough: a tool that leaves the questions to the policies and was approved
/// before its first attempt is retried without another question.
pub proof fn law_no_second_question_after_approval<Out>(
    policy: AskForApproval,
    sandbox_policy: SandboxPolicy,
    escalated: bool,
    has_retry_data: bool,
    selected: SandboxType,
    output: Box<ExecToolCallOutput>,
    friendly: String,
    next: Stage,
    action: OrchestratorAction<Out>,
)
    requires
        policy != AskForApproval::Never && policy != AskForApproval::OnRequest,
        orchestrator_step(
            traits_under(policy, sandbox_policy, escalated, true, has_retry_data),
            selected,
            Stage::RunningFirst { already_approved: true },
            OrchestratorEvent::Ran(AttemptOutcome::Denied { output, friendly }),
            next,
            action,
        ),
    ensures
        next == Stage::RunningRetry,
        action == bare_run::<Out>(),
{
}

/// What a tool does under a policy: it asks before and after as the user wants, and goes on without
/// asking again after a failure where it was approved before, or where the user never wants to be
/// asked.
pub proof fn law_policy_sets_the_traits(
    policy: AskForApproval,
    sandbox_policy: SandboxPolicy,
    escalated: bool,
    escalate_on_failure: bool,
    has_retry_data: bool,
)
    ensures
        ({
            let tool = traits_under(
                policy,
                sandbox_policy,
                escalated,
                escalate_on_failure,
                has_retry_data,
            );
            &&& tool.wants_initial_approval <==> policy == AskForApproval::UnlessTrusted || (policy
                == AskForApproval::OnRequest && sandbox_policy != SandboxPolicy::DangerFullAccess)
            &&& tool.wants_no_sandbox_approval <==> policy == AskForApproval::UnlessTrusted
                || policy == AskForApproval::OnFailure
            &&& tool.bypass_when_approved
            &&& tool.bypass_when_not_approved <==> policy == AskForApproval::Never
            &&& tool.wants_escalated_first_attempt == escalated
            &&& tool.escalate_on_failure == escalate_on_failure
            &&& tool.has_retry_data == has_retry_data
        }),
{
}

/// A request begins with the first attempt where no approval is wanted; else the risk is assessed
/// where there is a command to assess, and the user is asked.
pub proof fn law_request_begins<Out>(
    tool: ToolTraits,
    selected: SandboxType,
    next: Stage,
    action: OrchestratorAction<Out>,
)
    requires
        orchestrator_step(
            tool,
            selected,
            Stage::Idle,
            OrchestratorEvent::<Out>::Begin,
            next,
            action,
        ),
    ensures
        !tool.wants_initial_approval ==> next == (Stage::RunningFirst { already_approved: false })
            && action == (OrchestratorAction::<Out>::Run {
            sandbox: if tool.wants_escalated_first_attempt {
                SandboxType::Unsandboxed
            } else {
                selected
            },
            with_sandbox_exe: true,
        }),
        tool.wants_initial_approval && tool.has_retry_data ==> next == Stage::AssessingFirst
            && action == (OrchestratorAction::<Out>::Assess { failure_summary: None }),
        tool.wants_initial_approval && !tool.has_retry_data ==> next == Stage::AskingFirst && action
            == (OrchestratorAction::<Out>::Ask { retry_reason: None, risk: None }),
{
}

/// The user is told the risk that was assessed.
pub proof fn law_user_is_told_the_risk<Out>(
    tool: ToolTraits,
    selected: SandboxType,
    stage: Stage,
    risk: Option<String>,
    next: Stage,
    action: OrchestratorAction<Out>,
)
    requires
        stage == Stage::AssessingFirst || stage == Stage::AssessingRetry,
        orchestrator_step(
            tool,
            selected,
            stage,
            OrchestratorEvent::<Out>::Assessed(risk),
            next,
            action,
        ),
    ensures
        action matches OrchestratorAction::Ask { retry_reason, risk: told } && told == risk && if stage
            == Stage::AssessingFirst {
            retry_reason is None && next == Stage::AskingFirst
        } else {
            retry_reason is Some && (retry_reason->0)@ == "command failed; retry without sandbox?"@
                && next == Stage::AskingRetry
        },
{
}

/// A tool runs after the user said yes, once or for the session, and only then: before the first
/// attempt in the sandbox that was selected, unless it asks for none, and before the second without
/// one. Any other answer ends the request as rejected.
pub proof fn law_users_answer_is_final<Out>(
    tool: ToolTraits,
    selected: SandboxType,
    stage: Stage,
    decision: ReviewDecision,
    next: Stage,
    action: OrchestratorAction<Out>,
)
    requires
        stage == Stage::AskingFirst || stage == Stage::AskingRetry,
        orchestrator_step(
            tool,
            selected,
            stage,
            OrchestratorEvent::<Out>::Decided(decision),
            next,
            action,
        ),
    ensures
        ({
            let yes = decision == ReviewDecision::Approved || decision
                == ReviewDecision::ApprovedForSession;
            &&& yes && stage == Stage::AskingFirst ==> next == (Stage::RunningFirst {
                already_approved: true,
            }) && action == (OrchestratorAction::<Out>::Run {
                sandbox: if tool.wants_escalated_first_attempt {
                    SandboxType::Unsandboxed
                } else {
                    selected
                },
                with_sandbox_exe: true,
            })
            &&& yes && stage == Stage::AskingRetry ==> next == Stage::RunningRetry && action == (
            OrchestratorAction::<Out>::Run {
                sandbox: SandboxType::Unsandboxed,
                with_sandbox_exe: false,
            })
            &&& !yes ==> next == Stage::Finished && (action matches OrchestratorAction::Finish(
                Err(ToolError::Rejected(m)),
            ) && m@ == "rejected by user"@)
        }),
{
}

/// What a tool gives, and any failure but a denial, ends the request as it is, at either attempt; a
/// second denial ends it as a denial.
pub proof fn law_outcome_ends_the_request<Out>(
    tool: ToolTraits,
    selected: SandboxType,
    stage: Stage,
    outcome: AttemptOutcome<Out>,
    next: Stage,
    action: OrchestratorAction<Out>,
)
    requires
        stage is RunningFirst || stage == Stage::RunningRetry,
        orchestrator_step(
            tool,
            selected,
            stage,
            OrchestratorEvent::<Out>::Ran(outcome),
            next,
            action,
        ),
    ensures
        match outcome {
            AttemptOutcome::Done(out) => next == Stage::Finished && action
                == OrchestratorAction::<Out>::Finish(Ok(out)),
            AttemptOutcome::Failed(e) => next == Stage::Finished && action
                == OrchestratorAction::<Out>::Finish(Err(e)),
            AttemptOutcome::Denied { output, .. } => stage == Stage::RunningRetry ==> next
                == Stage::Finished && action == OrchestratorAction::<Out>::Finish(
                Err(ToolError::Codex(CodexErr::Sandbox(SandboxErr::Denied { output }))),
            ),
        },
{
}

/// What follows a denial of the first attempt: the end, where the tool does not go on after one or
/// the user may not be asked; a second attempt without a sandbox, where no approval is needed; and
/// else a question to the user, after an assessment where there is a command to assess.
pub proof fn law_denial_is_followed_up<Out>(
    tool: ToolTraits,
    selected: SandboxType,
    already_approved: bool,
    output: Box<ExecToolCallOutput>,
    friendly: String,
    next: Stage,
    action: OrchestratorAction<Out>,
)
    requires
        orchestrator_step(
            tool,
            selected,
            Stage::RunningFirst { already_approved },
            OrchestratorEvent::<Out>::Ran(AttemptOutcome::Denied { output, friendly }),
            next,
            action,
        ),
    ensures
        ({
            let goes_on = tool.escalate_on_failure && tool.wants_no_sandbox_approval;
            let free = if already_approved {
                tool.bypass_when_approved
            } else {
                tool.bypass_when_not_approved
            };
            &&& !goes_on ==> next == Stage::Finished && action == OrchestratorAction::<Out>::Finish(
                Err(ToolError::Codex(CodexErr::Sandbox(SandboxErr::Denied { output }))),
            )
            &&& goes_on && free ==> next == Stage::RunningRetry && action == (
            OrchestratorAction::<Out>::Run {
                sandbox: SandboxType::Unsandboxed,
                with_sandbox_exe: false,
            })
            &&& goes_on && !free && tool.has_retry_data ==> next == Stage::AssessingRetry && (
            action matches OrchestratorAction::Assess { failure_summary } && failure_summary is Some
                && (failure_summary->0)@ == "failed in sandbox: "@ + friendly@)
            &&& goes_on && !free && !tool.has_retry_data ==> next == Stage::AskingRetry && (
            action matches OrchestratorAction::Ask { retry_reason, risk } && retry_reason is Some
                && (retry_reason->0)@ == "command failed; retry without sandbox?"@ && risk is None)
        }),
{
}

/// An event that does not fit the stage changes nothing.
pub proof fn law_unfit_events_change_nothing<Out>(
    tool: ToolTraits,
    selected: SandboxType,
    stage: Stage,
    event: OrchestratorEvent<Out>,
    next: Stage,
    action: OrchestratorAction<Out>,
)
    requires
        orchestrator_step(tool, selected, stage, event, next, action),
        match event {
            OrchestratorEvent::Begin => stage != Stage::Idle,
            OrchestratorEvent::Assessed(_) => stage != Stage::AssessingFirst && stage
                != Stage::AssessingRetry,
            OrchestratorEvent::Decided(_) => stage != Stage::AskingFirst && stage
                != Stage::AskingRetry,
            OrchestratorEvent::Ran(_) => stage !is RunningFirst && stage != Stage::RunningRetry,
        },
    ensures
        next == stage,
        action == OrchestratorAction::<Out>::Ignore,
{
}

} // verus!
