//! What the submissions of the user lead to.
use vstd::prelude::*;

use crate::codex::configuration;
use crate::codex::configuration::{SessionConfiguration, SessionSettingsUpdate};
use crate::codex::history::{InitialHistory, StartupEvent};
use crate::codex::session;
use crate::codex::session::{Session, SessionSetup};
use crate::error::CodexErr;
use crate::path;
use crate::protocol::{
    AskForApproval, ReasoningEffort, ReasoningSummary, ResponseItem, ReviewDecision, SandboxPolicy,
    UserInput,
};
use crate::text;

verus! {

/// What the user asks for.
#[allow(inconsistent_fields)]
#[derive(Debug)]
pub enum Op {
    Interrupt,
    UserInput { items: Vec<UserInput> },
    UserTurn {
        items: Vec<UserInput>,
        cwd: String,
        approval_policy: AskForApproval,
        sandbox_policy: SandboxPolicy,
        model: String,
        effort: Option<ReasoningEffort>,
        summary: ReasoningSummary,
        final_output_json_schema: Option<String>,
    },
    OverrideTurnContext {
        cwd: Option<String>,
        approval_policy: Option<AskForApproval>,
        sandbox_policy: Option<SandboxPolicy>,
        model: Option<String>,
        effort: Option<Option<ReasoningEffort>>,
        summary: Option<ReasoningSummary>,
    },
    ExecApproval { id: String, decision: ReviewDecision },
    PatchApproval { id: String, decision: ReviewDecision },
    AddToHistory { text: String },
    GetHistoryEntryRequest { offset: usize, log_id: u64 },
    ListMcpTools,
    ListCustomPrompts,
    Undo,
    Compact,
    RunUserShellCommand { command: String },
    Shutdown,
    Review { prompt: String },
    /// Anything else.
    Unknown,
}

/// How many submissions may wait.
pub const SUBMISSION_CHANNEL_CAPACITY: usize = 64;

/// What the user asks for, under an identity.
#[derive(Debug)]
pub struct Submission {
    pub id: String,
    pub op: Op,
}

/// The high-level interface to the agent: submissions go in, events come out.
#[derive(Debug)]
pub struct Codex {
    pub next_id: u64,
}

/// An agent whose session has begun, the unique identity of the session, and what the user is told
/// first.
#[derive(Debug)]
pub struct CodexSpawnOk {
    pub codex: Codex,
    pub conversation_id: String,
    pub session: Session,
    pub events: Vec<StartupEvent>,
}

impl Codex {
    pub fn new() -> (r: Self)
        ensures
            r.next_id == 0,
    {
        Codex { next_id: 0 }
    }

    /// Begins a session and an agent for it. Where the session cannot begin, because its root is
    /// no absolute path or its record cannot be written, the agent is gone.
    pub fn spawn(
        configuration: SessionConfiguration,
        initial: &InitialHistory,
        fresh_id: &String,
        setup: SessionSetup,
        on_windows: bool,
    ) -> (r: Result<CodexSpawnOk, CodexErr>)
        ensures
            match r {
                Ok(spawned) => {
                    &&& spawned.codex.next_id == 0
                    &&& spawned.conversation_id == spawned.session.conversation_id
                    &&& session::is_begun(
                        spawned.session,
                        spawned.events@,
                        configuration,
                        *initial,
                        *fresh_id,
                        setup,
                        on_windows,
                    )
                },
                Err(e) => {
                    &&& e == CodexErr::InternalAgentDied
                    &&& !path::absolute(configuration.cwd@, on_windows) || setup.rollout is Err
                },
            },
    {
        match Session::new(configuration, initial, fresh_id, setup, on_windows) {
            Ok((session, events)) => Ok(
                CodexSpawnOk {
                    codex: Codex::new(),
                    conversation_id: session.conversation_id.clone(),
                    session,
                    events,
                },
            ),
            Err(_) => Err(CodexErr::InternalAgentDied),
        }
    }

    /// Wraps the `op` in a `Submission` with a unique ID: the next number.
    pub fn submit(&mut self, op: Op) -> (r: Submission)
        ensures
            r.op == op,
            r.id@ == text::decimal(old(self).next_id as nat),
            final(self).next_id == session::following(old(self).next_id),
    {
        let n = self.next_id;
        let mut id = String::new();
        text::push_decimal(&mut id, n);
        self.next_id = session::next_number(n);
        assert(id@ =~= text::decimal(n as nat));
        Submission { id, op }
    }

    /// What comes of handing in a submission: the agent is gone where it takes none.
    pub fn submit_with_id(accepted: bool) -> (r: Result<(), CodexErr>)
        ensures
            if accepted {
                r is Ok
            } else {
                r == Err::<(), CodexErr>(CodexErr::InternalAgentDied)
            },
    {
        if accepted {
            Ok(())
        } else {
            Err(CodexErr::InternalAgentDied)
        }
    }

    /// What comes of waiting for an event: the agent is gone where none can come.
    pub fn next_event<E>(received: Option<E>) -> (r: Result<E, CodexErr>)
        ensures
            r == match received {
                Some(event) => Ok::<E, CodexErr>(event),
                None => Err(CodexErr::InternalAgentDied),
            },
    {
        match received {
            Some(event) => Ok(event),
            None => Err(CodexErr::InternalAgentDied),
        }
    }
}

/// What a submission leads to.
#[derive(Debug)]
pub enum SubmissionAction {
    /// Abort the task that runs, if any.
    InterruptTask,
    /// Change the settings.
    UpdateSettings(SessionSettingsUpdate),
    /// Begin a turn with these changes, and hand the input to the task that runs or to a new one.
    StartTurn { sub_id: String, items: Vec<UserInput>, updates: SessionSettingsUpdate },
    /// Send the decision to the request that waits for it.
    NotifyApproval { id: String, decision: ReviewDecision },
    AppendToHistory { text: String },
    LookUpHistory { sub_id: String, offset: usize, log_id: u64 },
    ListMcpTools { sub_id: String },
    ListCustomPrompts { sub_id: String },
    Undo { sub_id: String },
    Compact { sub_id: String },
    RunShellCommand { sub_id: String, command: String },
    /// Shut down, and take no more submissions.
    Shutdown { sub_id: String },
    Review { sub_id: String, prompt: String },
    /// Nothing.
    Ignore,
}

/// What an answer to a request for approval leads to: an answer that aborts interrupts the task,
/// and any other is sent to the request.
pub open spec fn approval_action(id: String, decision: ReviewDecision) -> SubmissionAction {
    if decision == ReviewDecision::Abort {
        SubmissionAction::InterruptTask
    } else {
        SubmissionAction::NotifyApproval { id, decision }
    }
}

/// The changes that a turn of the user makes.
pub open spec fn turn_updates(
    cwd: String,
    approval_policy: AskForApproval,
    sandbox_policy: SandboxPolicy,
    model: String,
    effort: Option<ReasoningEffort>,
    summary: ReasoningSummary,
    final_output_json_schema: Option<String>,
) -> SessionSettingsUpdate {
    SessionSettingsUpdate {
        cwd: Some(cwd),
        approval_policy: Some(approval_policy),
        sandbox_policy: Some(sandbox_policy),
        model: Some(model),
        reasoning_effort: Some(effort),
        reasoning_summary: Some(summary),
        final_output_json_schema: Some(final_output_json_schema),
    }
}

/// What a submission leads to.
pub open spec fn submission_action(sub_id: String, op: Op) -> SubmissionAction {
    match op {
        Op::Interrupt => SubmissionAction::InterruptTask,
        Op::OverrideTurnContext { cwd, approval_policy, sandbox_policy, model, effort, summary } => {
            SubmissionAction::UpdateSettings(
                SessionSettingsUpdate {
                    cwd,
                    approval_policy,
                    sandbox_policy,
                    model,
                    reasoning_effort: effort,
                    reasoning_summary: summary,
                    final_output_json_schema: None,
                },
            )
        },
        Op::UserInput { items } => SubmissionAction::StartTurn {
            sub_id,
            items,
            updates: configuration::no_update(),
        },
        Op::UserTurn {
            items,
            cwd,
            approval_policy,
            sandbox_policy,
            model,
            effort,
            summary,
            final_output_json_schema,
        } => SubmissionAction::StartTurn {
            sub_id,
            items,
            updates: turn_updates(
                cwd,
                approval_policy,
                sandbox_policy,
                model,
                effort,
                summary,
                final_output_json_schema,
            ),
        },
        Op::ExecApproval { id, decision } => approval_action(id, decision),
        Op::PatchApproval { id, decision } => approval_action(id, decision),
        Op::AddToHistory { text } => SubmissionAction::AppendToHistory { text },
        Op::GetHistoryEntryRequest { offset, log_id } => SubmissionAction::LookUpHistory {
            sub_id,
            offset,
            log_id,
        },
        Op::ListMcpTools => SubmissionAction::ListMcpTools { sub_id },
        Op::ListCustomPrompts => SubmissionAction::ListCustomPrompts { sub_id },
        Op::Undo => SubmissionAction::Undo { sub_id },
        Op::Compact => SubmissionAction::Compact { sub_id },
        Op::RunUserShellCommand { command } => SubmissionAction::RunShellCommand { sub_id, command },
        Op::Shutdown => SubmissionAction::Shutdown { sub_id },
        Op::Review { prompt } => SubmissionAction::Review { sub_id, prompt },
        Op::Unknown => SubmissionAction::Ignore,
    }
}

/// What a submission leads to, and whether more are taken after it.
pub fn submission_loop(sub_id: String, op: Op) -> (r: (SubmissionAction, bool))
    ensures
        r.0 == submission_action(sub_id, op),
        r.1 == !(op is Shutdown),
{
    let action = match op {
        Op::Interrupt => interrupt(),
        Op::OverrideTurnContext { cwd, approval_policy, sandbox_policy, model, effort, summary } => {
            override_turn_context(
                SessionSettingsUpdate {
                    cwd,
                    approval_policy,
                    sandbox_policy,
                    model,
                    reasoning_effort: effort,
                    reasoning_summary: summary,
                    final_output_json_schema: None,
                },
            )
        },
        Op::UserInput { .. } | Op::UserTurn { .. } => user_input_or_turn(sub_id, op),
        Op::ExecApproval { id, decision } => exec_approval(id, decision),
        Op::PatchApproval { id, decision } => patch_approval(id, decision),
        Op::AddToHistory { text } => SubmissionAction::AppendToHistory { text },
        Op::GetHistoryEntryRequest { offset, log_id } => SubmissionAction::LookUpHistory {
            sub_id,
            offset,
            log_id,
        },
        Op::ListMcpTools => SubmissionAction::ListMcpTools { sub_id },
        Op::ListCustomPrompts => SubmissionAction::ListCustomPrompts { sub_id },
        Op::Undo => SubmissionAction::Undo { sub_id },
        Op::Compact => SubmissionAction::Compact { sub_id },
        Op::RunUserShellCommand { command } => SubmissionAction::RunShellCommand { sub_id, command },
        Op::Shutdown => return (SubmissionAction::Shutdown { sub_id }, false),
        Op::Review { prompt } => SubmissionAction::Review { sub_id, prompt },
        Op::Unknown => SubmissionAction::Ignore,
    };
    (action, true)
}

pub fn interrupt() -> (r: SubmissionAction)
    ensures
        r == SubmissionAction::InterruptTask,
{
    SubmissionAction::InterruptTask
}

pub fn override_turn_context(updates: SessionSettingsUpdate) -> (r: SubmissionAction)
    ensures
        r == SubmissionAction::UpdateSettings(updates),
{
    SubmissionAction::UpdateSettings(updates)
}

/// What input of the user leads to: a turn, under the settings that it brings along or under those
/// of the session.
pub fn user_input_or_turn(sub_id: String, op: Op) -> (r: SubmissionAction)
    requires
        op is UserInput || op is UserTurn,
    ensures
        r == submission_action(sub_id, op),
{
    match op {
        Op::UserTurn {
            items,
            cwd,
            approval_policy,
            sandbox_policy,
            model,
            effort,
            summary,
            final_output_json_schema,
        } => SubmissionAction::StartTurn {
            sub_id,
            items,
            updates: SessionSettingsUpdate {
                cwd: Some(cwd),
                approval_policy: Some(approval_policy),
                sandbox_policy: Some(sandbox_policy),
                model: Some(model),
                reasoning_effort: Some(effort),
                reasoning_summary: Some(summary),
                final_output_json_schema: Some(final_output_json_schema),
            },
        },
        Op::UserInput { items } => SubmissionAction::StartTurn {
            sub_id,
            items,
            updates: SessionSettingsUpdate::default(),
        },
        _ => SubmissionAction::Ignore,
    }
}

/// What the answer to a request for the approval of a command leads to.
pub fn exec_approval(id: String, decision: ReviewDecision) -> (r: SubmissionAction)
    ensures
        r == approval_action(id, decision),
{
    if decision == ReviewDecision::Abort {
        SubmissionAction::InterruptTask
    } else {
        SubmissionAction::NotifyApproval { id, decision }
    }
}

/// What the answer to a request for the approval of a patch leads to.
pub fn patch_approval(id: String, decision: ReviewDecision) -> (r: SubmissionAction)
    ensures
        r == approval_action(id, decision),
{
    if decision == ReviewDecision::Abort {
        SubmissionAction::InterruptTask
    } else {
        SubmissionAction::NotifyApproval { id, decision }
    }
}

/// What follows once input was handed to the task that runs, if any.
#[derive(Debug)]
pub enum TurnStart {
    /// The task that runs has taken it.
    Injected,
    /// Record how the environment changed, where it did, and start a task with the input. The turn
    /// is the one that later ones are compared with.
    Spawn { environment: Option<ResponseItem>, items: Vec<UserInput> },
}

/// What follows once input was handed to the task that runs: where there was none, a new one is
/// started, after the model was told how its environment changed.
pub fn start_turn(
    injected: Result<(), Vec<UserInput>>,
    environment_update: Option<ResponseItem>,
) -> (r: TurnStart)
    ensures
        r == match injected {
            Ok(_) => TurnStart::Injected,
            Err(items) => TurnStart::Spawn { environment: environment_update, items },
        },
{
    match injected {
        Ok(_) => TurnStart::Injected,
        Err(items) => TurnStart::Spawn { environment: environment_update, items },
    }
}

/// What the user is told when a session ends.
#[derive(Debug)]
pub enum ShutdownEvent {
    Error { id: String, message: String },
    ShutdownComplete { id: String },
}

/// What the user is told when a session ends: that its record could not be closed, where it could
/// not, and that it is over.
pub fn shutdown(sub_id: String, recorder_failed: bool) -> (r: Vec<ShutdownEvent>)
    ensures
        r@.len() == if recorder_failed {
            2int
        } else {
            1
        },
        recorder_failed ==> (r@[0] matches ShutdownEvent::Error { id, message } && id == sub_id
            && message@ == "Failed to shutdown rollout recorder"@),
        r@.last() == (ShutdownEvent::ShutdownComplete { id: sub_id }),
{
    let mut events: Vec<ShutdownEvent> = Vec::new();
    if recorder_failed {
        events.push(
            ShutdownEvent::Error {
                id: sub_id.clone(),
                message: "Failed to shutdown rollout recorder".to_owned(),
            },
        );
    }
    events.push(ShutdownEvent::ShutdownComplete { id: sub_id });
    events
}

/// Identities of submissions are not used twice before the numbers run out.
pub proof fn law_submission_ids_differ(a: u64, b: u64)
    requires
        a != b,
    ensures
        text::decimal(a as nat) != text::decimal(b as nat),
{
    lemma_decimal_value(a as nat);
    lemma_decimal_value(b as nat);
}

/// The number that a text of decimal digits stands for.
pub open spec fn decimal_value(s: Seq<char>) -> int
    decreases s.len(),
{
    if s.len() == 0 {
        0
    } else {
        decimal_value(s.drop_last()) * 10 + (s.last() as int - '0' as int)
    }
}

proof fn lemma_decimal_value(n: nat)
    ensures
        decimal_value(text::decimal(n)) == n,
    decreases n,
{
    let s = text::decimal(n);
    assert(text::digit_char((n % 10) as int) as int == '0' as int + n % 10);
    if n < 10 {
        assert(s.drop_last() =~= Seq::empty());
        assert(decimal_value(s.drop_last()) == 0);
    } else {
        lemma_decimal_value(n / 10);
        assert(s.drop_last() =~= text::decimal(n / 10));
    }
}

/// A decision that aborts is never sent to the request it answers: the task is interrupted.
pub proof fn law_abort_interrupts(sub_id: String, id: String)
    ensures
        submission_action(sub_id, Op::ExecApproval { id, decision: ReviewDecision::Abort })
            == SubmissionAction::InterruptTask,
        submission_action(sub_id, Op::PatchApproval { id, decision: ReviewDecision::Abort })
            == SubmissionAction::InterruptTask,
{
}

/// Input without settings leaves the settings of the session as they are.
pub proof fn law_plain_input_changes_no_settings(
    c: configuration::SessionConfiguration,
    sub_id: String,
    items: Vec<UserInput>,
)
    ensures
        submission_action(sub_id, Op::UserInput { items }) matches SubmissionAction::StartTurn {
            updates,
            ..
        } && configuration::applied(c, updates) == c,
{
}

/// A turn of the user determines every setting that can change.
pub proof fn law_user_turn_determines_settings(
    c: configuration::SessionConfiguration,
    cwd: String,
    approval_policy: AskForApproval,
    sandbox_policy: SandboxPolicy,
    model: String,
    effort: Option<ReasoningEffort>,
    summary: ReasoningSummary,
    final_output_json_schema: Option<String>,
)
    ensures
        ({
            let r = configuration::applied(
                c,
                turn_updates(
                    cwd,
                    approval_policy,
                    sandbox_policy,
                    model,
                    effort,
                    summary,
                    final_output_json_schema,
                ),
            );
            &&& r.cwd == cwd
            &&& r.approval_policy == approval_policy
            &&& r.sandbox_policy == sandbox_policy
            &&& r.model == model
            &&& r.model_reasoning_effort == effort
            &&& r.model_reasoning_summary == summary
        }),
{
}

/// Each submission does what it says, under its own name: input and turns start turns, an interrupt
/// interrupts, and so on; what is not known does nothing.
pub proof fn law_submissions_do_what_they_say(sub_id: String, op: Op)
    ensures
        ({
            let action = submission_action(sub_id, op);
            match op {
                Op::Interrupt => action is InterruptTask,
                Op::UserInput { items } => action matches SubmissionAction::StartTurn {
                    sub_id: id,
                    items: i,
                    ..
                } && id == sub_id && i == items,
                Op::UserTurn { items, .. } => action matches SubmissionAction::StartTurn {
                    sub_id: id,
                    items: i,
                    ..
                } && id == sub_id && i == items,
                Op::OverrideTurnContext { .. } => action is UpdateSettings,
                Op::ExecApproval { id, decision } => decision != ReviewDecision::Abort ==> action
                    == (SubmissionAction::NotifyApproval { id, decision }),
                Op::PatchApproval { id, decision } => decision != ReviewDecision::Abort ==> action
                    == (SubmissionAction::NotifyApproval { id, decision }),
                Op::AddToHistory { text } => action == (SubmissionAction::AppendToHistory { text }),
                Op::GetHistoryEntryRequest { offset, log_id } => action == (
                SubmissionAction::LookUpHistory { sub_id, offset, log_id }),
                Op::ListMcpTools => action == (SubmissionAction::ListMcpTools { sub_id }),
                Op::ListCustomPrompts => action == (SubmissionAction::ListCustomPrompts { sub_id }),
                Op::Undo => action == (SubmissionAction::Undo { sub_id }),
                Op::Compact => action == (SubmissionAction::Compact { sub_id }),
                Op::RunUserShellCommand { command } => action == (
                SubmissionAction::RunShellCommand { sub_id, command }),
                Op::Shutdown => action == (SubmissionAction::Shutdown { sub_id }),
                Op::Review { prompt } => action == (SubmissionAction::Review { sub_id, prompt }),
                Op::Unknown => action is Ignore,
            }
        }),
{
}

/// A turn that comes with settings sets every one of them; an override sets those that it names, and
/// no other; neither sets anything else than what it says.
pub proof fn law_settings_are_set_as_given(sub_id: String, op: Op)
    ensures
        match op {
            Op::UserTurn {
                cwd,
                approval_policy,
                sandbox_policy,
                model,
                effort,
                summary,
                final_output_json_schema,
                ..
            } => submission_action(sub_id, op) matches SubmissionAction::StartTurn { updates, .. }
                && {
                &&& updates.cwd == Some(cwd)
                &&& updates.approval_policy == Some(approval_policy)
                &&& updates.sandbox_policy == Some(sandbox_policy)
                &&& updates.model == Some(model)
                &&& updates.reasoning_effort == Some(effort)
                &&& updates.reasoning_summary == Some(summary)
                &&& updates.final_output_json_schema == Some(final_output_json_schema)
            },
            Op::OverrideTurnContext {
                cwd,
                approval_policy,
                sandbox_policy,
                model,
                effort,
                summary,
            } => submission_action(sub_id, op) matches SubmissionAction::UpdateSettings(updates)
                && {
                &&& updates.cwd == cwd
                &&& updates.approval_policy == approval_policy
                &&& updates.sandbox_policy == sandbox_policy
                &&& updates.model == model
                &&& updates.reasoning_effort == effort
                &&& updates.reasoning_summary == summary
                &&& updates.final_output_json_schema is None
            },
            _ => true,
        },
{
}

/// Submissions are numbered from zero on, and carry what was submitted.
pub proof fn law_submissions_are_numbered(codex: &mut Codex, op: Op, r: Submission)
    requires
        call_ensures(Codex::submit, (codex, op), r),
    ensures
        r.op == op,
        r.id@ == text::decimal(old(codex).next_id as nat),
        old(codex).next_id < u64::MAX ==> final(codex).next_id == old(codex).next_id + 1,
{
}

/// Only a shutdown ends the session's work.
pub proof fn law_only_shutdown_ends_the_loop(sub_id: String, op: Op, r: (SubmissionAction, bool))
    requires
        call_ensures(submission_loop, (sub_id, op), r),
    ensures
        r.1 <==> op !is Shutdown,
        r.0 == submission_action(sub_id, op),
{
}

/// What cannot be handed over, and an event that never comes, mean that the agent is gone.
pub proof fn law_silent_agent_is_gone<E>(
    accepted: bool,
    sent: Result<(), CodexErr>,
    received: Option<E>,
    event: Result<E, CodexErr>,
)
    requires
        call_ensures(Codex::submit_with_id, (accepted,), sent),
        call_ensures(Codex::next_event::<E>, (received,), event),
    ensures
        accepted <==> sent is Ok,
        !accepted ==> sent == Err::<(), CodexErr>(CodexErr::InternalAgentDied),
        received is Some ==> event == Ok::<E, CodexErr>(received->0),
        received is None ==> event == Err::<E, CodexErr>(CodexErr::InternalAgentDied),
{
}

/// Input that the task that runs has taken starts no other; input that it has not starts one, with
/// what changed of the environment.
pub proof fn law_input_starts_one_task(
    injected: Result<(), Vec<UserInput>>,
    environment: Option<ResponseItem>,
    r: TurnStart,
)
    requires
        call_ensures(start_turn, (injected, environment), r),
    ensures
        r is Injected <==> injected is Ok,
        injected matches Err(items) ==> r == (TurnStart::Spawn { environment, items }),
{
}

/// A shutdown always ends with its completion, and tells before if the record could not be closed.
pub proof fn law_shutdown_is_completed(sub_id: String, failed: bool, r: Vec<ShutdownEvent>)
    requires
        call_ensures(shutdown, (sub_id, failed), r),
    ensures
        r@.last() == (ShutdownEvent::ShutdownComplete { id: sub_id }),
        r@.len() == 2 <==> failed,
        r@.len() == 1 <==> !failed,
        failed ==> (r@[0] matches ShutdownEvent::Error { id, message } && id == sub_id && message@
            == "Failed to shutdown rollout recorder"@),
{
}

} // verus!
