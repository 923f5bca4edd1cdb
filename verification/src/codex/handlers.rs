//! What becomes of a session when a submission is carried out.
use vstd::prelude::*;

use crate::client::model_client::{ModelFamily, ModelInfo};
use crate::codex::configuration;
use crate::codex::configuration::{Config, ReviewThread, SessionSettingsUpdate, TurnContext};
use crate::codex::mcp_errors::McpAuthStatusEntry;
use crate::codex::session::Session;
use crate::mcp_connection_manager;
use crate::mcp_connection_manager::McpConnectionManager;
use crate::protocol::{ResponseInputItem, UserInput};
use crate::tasks::kinds::CompactTask;
use crate::tasks::user_shell::UserShellCommandTask;

verus! {

/// A task that is started.
#[derive(Debug)]
pub enum SpawnedTask {
    Compact(CompactTask),
    /// Takes back what the last turn did.
    Undo,
    UserShellCommand(UserShellCommandTask),
}

/// A task that is started for a turn, with its input.
#[derive(Debug)]
pub struct TaskStart {
    pub context: TurnContext,
    pub items: Vec<UserInput>,
    pub task: SpawnedTask,
}

/// What is known of the model of a turn: the family that it belongs to, and what is known of the
/// family that the turn uses.
#[derive(Debug)]
pub struct KnownModel {
    pub family: Option<ModelFamily>,
    pub info: Option<ModelInfo>,
}

/// Whether `r` is the context of a turn under the settings of a session as they are.
pub open spec fn is_plain_turn(
    r: TurnContext,
    session: Session,
    known: KnownModel,
    sub_id: String,
) -> bool {
    configuration::is_turn_context(
        r,
        session.configuration,
        known.family,
        known.info,
        session.conversation_id@,
        sub_id,
        None,
    )
}

/// The context of a turn that changes no settings.
fn plain_turn(session: &mut Session, sub_id: String, known: KnownModel) -> (r: TurnContext)
    ensures
        *final(session) == *old(session),
        is_plain_turn(r, *old(session), known, sub_id),
{
    session.new_turn_with_sub_id(
        sub_id,
        SessionSettingsUpdate::default(),
        known.family,
        known.info,
    )
}

/// Begins a turn with input of the user: the changes are made to the session whether or not a task
/// runs that takes the input. Returns the context of the turn, and the input where no task took it.
/// `item` is the input as it is sent to the model.
pub fn begin_user_turn(
    session: &mut Session,
    sub_id: String,
    items: Vec<UserInput>,
    item: ResponseInputItem,
    updates: SessionSettingsUpdate,
    known: KnownModel,
) -> (r: (TurnContext, Result<(), Vec<UserInput>>))
    ensures
        *final(session) == (Session {
            configuration: configuration::applied(old(session).configuration, updates),
            active_turn: final(session).active_turn,
            ..*old(session)
        }),
        configuration::is_turn_context(
            r.0,
            final(session).configuration,
            known.family,
            known.info,
            old(session).conversation_id@,
            sub_id,
            match updates.final_output_json_schema {
                Some(schema) => schema,
                None => None,
            },
        ),
        match old(session).active_turn {
            Some(at) => {
                &&& r.1 is Ok
                &&& final(session).active_turn matches Some(now)
                &&& now.pending_input@ == at.pending_input@.push(item)
                &&& now.pending_approvals == at.pending_approvals
            },
            None => r.1 == Err::<(), Vec<UserInput>>(items) && final(session).active_turn is None,
        },
{
    let context = session.new_turn_with_sub_id(sub_id, updates, known.family, known.info);
    let injected = session.inject_input(items, item);
    (context, injected)
}

/// Starts a command that the user typed. It takes no input.
pub fn run_user_shell_command(
    session: &mut Session,
    sub_id: String,
    command: String,
    known: KnownModel,
) -> (r: TaskStart)
    ensures
        *final(session) == *old(session),
        is_plain_turn(r.context, *old(session), known, sub_id),
        r.items@.len() == 0,
        r.task == SpawnedTask::UserShellCommand(UserShellCommandTask { command }),
{
    let context = plain_turn(session, sub_id, known);
    TaskStart {
        context,
        items: Vec::new(),
        task: SpawnedTask::UserShellCommand(UserShellCommandTask::new(command)),
    }
}

/// Starts to take back what the last turn did.
pub fn undo(session: &mut Session, sub_id: String, known: KnownModel) -> (r: TaskStart)
    ensures
        *final(session) == *old(session),
        is_plain_turn(r.context, *old(session), known, sub_id),
        r.items@.len() == 0,
        r.task == SpawnedTask::Undo,
{
    let context = plain_turn(session, sub_id, known);
    TaskStart { context, items: Vec::new(), task: SpawnedTask::Undo }
}

/// The input that asks for a summary: the prompt of the session, or else the usual one.
pub open spec fn is_summary_input(input: Seq<UserInput>, session: Session, usual: String) -> bool {
    input == seq![
        UserInput::Text {
            text: configuration::changed(usual, session.configuration.compact_prompt),
        },
    ]
}

/// Asks for a summary of the conversation: the task that runs takes the prompt, or else a task is
/// started with it. `as_item` makes an item for the model of input.
pub fn compact<F: Fn(&Vec<UserInput>) -> ResponseInputItem>(
    session: &mut Session,
    sub_id: String,
    usual: &String,
    as_item: F,
    known: KnownModel,
) -> (r: Option<TaskStart>)
    requires
        forall|input: &Vec<UserInput>| #[trigger] call_requires(as_item, (input,)),
    ensures
        *final(session) == (Session { active_turn: final(session).active_turn, ..*old(session) }),
        match old(session).active_turn {
            Some(at) => {
                &&& r is None
                &&& final(session).active_turn matches Some(now)
                &&& now.pending_approvals == at.pending_approvals
                &&& now.pending_input@.len() == at.pending_input@.len() + 1
                &&& now.pending_input@.drop_last() == at.pending_input@
                &&& exists|input: &Vec<UserInput>|
                    {
                        &&& is_summary_input(input@, *old(session), *usual)
                        &&& #[trigger] call_ensures(as_item, (input,), now.pending_input@.last())
                    }
            },
            None => {
                &&& r matches Some(start)
                &&& is_plain_turn(start.context, *old(session), known, sub_id)
                &&& is_summary_input(start.items@, *old(session), *usual)
                &&& start.task == SpawnedTask::Compact(CompactTask)
                &&& final(session).active_turn is None
            },
        },
{
    let context = plain_turn(session, sub_id, known);
    let mut input: Vec<UserInput> = Vec::new();
    input.push(UserInput::Text { text: context.compact_prompt(usual) });
    assert(is_summary_input(input@, *old(session), *usual));
    let item = as_item(&input);
    let ghost asked = &input;
    let ghost sent = item;
    assert(call_ensures(as_item, (asked,), sent));
    match session.inject_input(input, item) {
        Ok(_) => {
            proof {
                let now = session.active_turn->0;
                let at = old(session).active_turn->0;
                assert(now.pending_input@.drop_last() =~= at.pending_input@);
                assert(now.pending_input@.last() == sent);
            }
            None
        },
        Err(items) => Some(
            TaskStart { context, items, task: SpawnedTask::Compact(CompactTask) },
        ),
    }
}

/// Starts a review for a turn that changes no settings. `review_model` is what is known of the model for
/// reviews.
pub fn review(
    session: &mut Session,
    config: &Config,
    sub_id: String,
    known: KnownModel,
    review_model: KnownModel,
    review_instructions: &String,
    review_prompt: String,
) -> (r: ReviewThread)
    ensures
        *final(session) == *old(session),
        exists|parent: TurnContext|
            {
                &&& #[trigger] is_plain_turn(parent, *old(session), known, sub_id)
                &&& configuration::is_review_thread(
                    r,
                    *config,
                    parent,
                    review_model.family,
                    review_model.info,
                    old(session).conversation_id@,
                    sub_id,
                    *review_instructions,
                    review_prompt,
                )
            },
{
    let parent = plain_turn(session, sub_id.clone(), known);
    assert(is_plain_turn(parent, *old(session), known, sub_id));
    configuration::spawn_review_thread(
        config,
        &parent,
        review_model.family,
        review_model.info,
        &session.conversation_id,
        sub_id,
        review_instructions,
        review_prompt,
    )
}

/// A text that is added to the history of messages, under the session that it belongs to.
#[derive(Debug)]
pub struct HistoryAddition {
    pub conversation_id: String,
    pub text: String,
}

/// What is added to the history of messages.
pub fn add_to_history(session: &Session, text: String) -> (r: HistoryAddition)
    ensures
        r.conversation_id == session.conversation_id,
        r.text == text,
{
    HistoryAddition { conversation_id: session.conversation_id.clone(), text }
}

/// An entry of the history of messages, as it is kept.
#[derive(Debug)]
pub struct KeptEntry {
    pub session_id: String,
    pub ts: u64,
    pub text: String,
}

/// An entry of the history of messages, as the user is told of it.
#[derive(Debug)]
pub struct HistoryEntry {
    pub conversation_id: String,
    pub ts: u64,
    pub text: String,
}

/// The answer to a request for an entry of the history.
#[derive(Debug)]
pub struct GetHistoryEntryResponse {
    pub id: String,
    pub offset: usize,
    pub log_id: u64,
    pub entry: Option<HistoryEntry>,
}

/// The answer to a request for an entry of the history; `found` is what was looked up.
pub fn get_history_entry_request(
    sub_id: String,
    offset: usize,
    log_id: u64,
    found: Option<KeptEntry>,
) -> (r: GetHistoryEntryResponse)
    ensures
        r == (GetHistoryEntryResponse {
            id: sub_id,
            offset,
            log_id,
            entry: match found {
                Some(e) => Some(
                    HistoryEntry { conversation_id: e.session_id, ts: e.ts, text: e.text },
                ),
                None => None,
            },
        }),
{
    GetHistoryEntryResponse {
        id: sub_id,
        offset,
        log_id,
        entry: match found {
            Some(e) => Some(
                HistoryEntry { conversation_id: e.session_id, ts: e.ts, text: e.text },
            ),
            None => None,
        },
    }
}

/// The answer to a request for the tools of all servers. What a server lists is JSON text.
#[derive(Debug)]
pub struct McpListToolsResponse {
    pub id: String,
    pub tools: Vec<(String, String)>,
    pub resources: Vec<(String, String)>,
    pub resource_templates: Vec<(String, String)>,
    pub auth_statuses: Vec<(String, String)>,
}

/// The answer to a request for the tools of all servers: all tools under their names, and, by
/// server, what those that could list their resources and templates listed, and how the user is
/// logged in.
pub fn list_mcp_tools(
    sub_id: String,
    manager: &McpConnectionManager,
    resources: Vec<(String, Option<String>)>,
    resource_templates: Vec<(String, Option<String>)>,
    auth_status_entries: &Vec<(String, McpAuthStatusEntry)>,
) -> (r: McpListToolsResponse)
    ensures
        r.id == sub_id,
        r.tools@.len() == manager.tools@.len(),
        forall|i: int|
            0 <= i < r.tools@.len() ==> (#[trigger] r.tools@[i]).0 == manager.tools@[i].0
                && r.tools@[i].1 == manager.tools@[i].1.tool,
        r.resources@ == mcp_connection_manager::given_lists(resources@),
        r.resource_templates@ == mcp_connection_manager::given_lists(resource_templates@),
        r.auth_statuses@.len() == auth_status_entries@.len(),
        forall|i: int|
            0 <= i < r.auth_statuses@.len() ==> (#[trigger] r.auth_statuses@[i]).0
                == auth_status_entries@[i].0 && r.auth_statuses@[i].1
                == auth_status_entries@[i].1.auth_status,
{
    let mut auth_statuses: Vec<(String, String)> = Vec::new();
    let mut i: usize = 0;
    while i < auth_status_entries.len()
        invariant
            i <= auth_status_entries@.len(),
            auth_statuses@.len() == i,
            forall|j: int|
                0 <= j < i ==> (#[trigger] auth_statuses@[j]).0 == auth_status_entries@[j].0
                    && auth_statuses@[j].1 == auth_status_entries@[j].1.auth_status,
        decreases auth_status_entries@.len() - i,
    {
        let entry = &auth_status_entries[i];
        auth_statuses.push((entry.0.clone(), entry.1.auth_status.clone()));
        i += 1;
    }
    McpListToolsResponse {
        id: sub_id,
        tools: manager.list_all_tools(),
        resources: McpConnectionManager::list_all_resources(resources),
        resource_templates: McpConnectionManager::list_all_resource_templates(resource_templates),
        auth_statuses,
    }
}

/// The answer to a request for the user's prompts, each of which is JSON text.
#[derive(Debug)]
pub struct ListCustomPromptsResponse {
    pub id: String,
    pub custom_prompts: Vec<String>,
}

/// The answer to a request for the user's prompts: those that were found, none where there is no
/// directory for them.
pub fn list_custom_prompts(sub_id: String, found: Option<Vec<String>>) -> (r:
    ListCustomPromptsResponse)
    ensures
        r.id == sub_id,
        match found {
            Some(prompts) => r.custom_prompts == prompts,
            None => r.custom_prompts@.len() == 0,
        },
{
    ListCustomPromptsResponse {
        id: sub_id,
        custom_prompts: match found {
            Some(prompts) => prompts,
            None => Vec::new(),
        },
    }
}

/// Input of the user changes the settings as it says, and begins a turn under its name with the
/// settings so changed; it goes to the task that runs, behind what waits there, and else comes back
/// to start one.
pub proof fn law_input_of_the_user_begins_a_turn(
    session: &mut Session,
    sub_id: String,
    items: Vec<UserInput>,
    item: ResponseInputItem,
    updates: SessionSettingsUpdate,
    known: KnownModel,
    r: (TurnContext, Result<(), Vec<UserInput>>),
)
    requires
        call_ensures(begin_user_turn, (session, sub_id, items, item, updates, known), r),
    ensures
        final(session).configuration == configuration::applied(
            old(session).configuration,
            updates,
        ),
        r.0.sub_id == sub_id,
        r.0.cwd == final(session).configuration.cwd,
        r.0.approval_policy == final(session).configuration.approval_policy,
        r.0.final_output_json_schema == if updates.final_output_json_schema is Some {
            updates.final_output_json_schema->0
        } else {
            None
        },
        r.1 is Ok <==> old(session).active_turn is Some,
        r.1 matches Err(back) ==> back == items,
        old(session).active_turn matches Some(turn) ==> (final(session).active_turn matches Some(now) && now.pending_input@ == turn.pending_input@.push(item)),
{
}

/// A command of the user and taking back the last turn are tasks of their own, with no other input,
/// in the settings as they are.
pub proof fn law_other_tasks_change_no_settings(
    session: &mut Session,
    later: &mut Session,
    sub_id: String,
    command: String,
    known: KnownModel,
    shell: TaskStart,
    undone: TaskStart,
)
    requires
        call_ensures(run_user_shell_command, (session, sub_id, command, known), shell),
        call_ensures(undo, (later, sub_id, known), undone),
    ensures
        *final(session) == *old(session),
        *final(later) == *old(later),
        shell.items@.len() == 0,
        undone.items@.len() == 0,
        shell.context.sub_id == sub_id,
        undone.context.sub_id == sub_id,
        shell.context.cwd == old(session).configuration.cwd,
        undone.context.cwd == old(later).configuration.cwd,
        shell.task matches SpawnedTask::UserShellCommand(task) && task.command == command,
        undone.task is Undo,
{
}

/// An entry of the history is answered under the request that asked for it, with what was found and
/// where it was looked for.
pub proof fn law_entry_is_answered(
    sub_id: String,
    offset: usize,
    log_id: u64,
    found: Option<KeptEntry>,
    r: GetHistoryEntryResponse,
)
    requires
        call_ensures(get_history_entry_request, (sub_id, offset, log_id, found), r),
    ensures
        r.id == sub_id,
        r.offset == offset,
        r.log_id == log_id,
        r.entry is Some <==> found is Some,
        r.entry is Some ==> (r.entry->0).conversation_id == (found->0).session_id && (r.entry->0).ts
            == (found->0).ts && (r.entry->0).text == (found->0).text,
{
}

/// The prompts that were found are listed, and none where they could not be looked for.
pub proof fn law_prompts_are_listed(
    sub_id: String,
    found: Option<Vec<String>>,
    r: ListCustomPromptsResponse,
)
    requires
        call_ensures(list_custom_prompts, (sub_id, found), r),
    ensures
        r.id == sub_id,
        found is Some ==> r.custom_prompts == found->0,
        found is None ==> r.custom_prompts@.len() == 0,
{
}

/// A summary is asked for with the prompt of the session, if it has one, and else with the usual one.
pub proof fn law_summary_is_asked_for_with_the_prompt(
    input: Seq<UserInput>,
    session: Session,
    usual: String,
)
    requires
        is_summary_input(input, session, usual),
    ensures
        input.len() == 1,
        input[0] matches UserInput::Text { text } && text
            == if session.configuration.compact_prompt is Some {
            session.configuration.compact_prompt->0
        } else {
            usual
        },
{
}

/// A plain turn has the settings of the session, under its own name, and asks for no form of its
/// output.
pub proof fn law_plain_turn_has_the_settings(
    r: TurnContext,
    session: Session,
    known: KnownModel,
    sub_id: String,
)
    requires
        is_plain_turn(r, session, known, sub_id),
    ensures
        r.sub_id == sub_id,
        r.cwd == session.configuration.cwd,
        r.approval_policy == session.configuration.approval_policy,
        configuration::same_policy(r.sandbox_policy, session.configuration.sandbox_policy),
        r.client.config_model().model == session.configuration.model,
        r.client.conversation() == session.conversation_id@,
        r.final_output_json_schema is None,
{
}

/// A review is a turn of its own beside the session, which it does not change: with the model and the
/// instructions for reviews, and in the place and under the policy of the session.
pub proof fn law_review_leaves_the_session_alone(
    session: &mut Session,
    config: Config,
    sub_id: String,
    known: KnownModel,
    review_model: KnownModel,
    instructions: String,
    prompt: String,
    r: ReviewThread,
)
    requires
        call_ensures(
            review,
            (session, &config, sub_id, known, review_model, &instructions, prompt),
            r,
        ),
    ensures
        *final(session) == *old(session),
        r.context.sub_id == sub_id,
        r.context.cwd == old(session).configuration.cwd,
        r.context.approval_policy == old(session).configuration.approval_policy,
        r.context.base_instructions == Some(instructions),
        r.context.client.config_model().model == config.review_model,
        r.input@ == seq![UserInput::Text { text: prompt }],
{
}

} // verus!
