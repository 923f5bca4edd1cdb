//! How a session begins: what is recorded of earlier conversations, and what the user is told.
use vstd::prelude::*;

use crate::client::model_client::SessionSource;
use crate::codex::mcp_errors;
use crate::codex::mcp_errors::{McpClientError, McpAuthStatusEntry};
use crate::path;
use crate::protocol::{ReasoningEffort, ResponseItem};
use crate::text;

verus! {

/// A line of the record of a conversation.
#[derive(Debug, Clone)]
pub enum RolloutItem {
    ResponseItem(ResponseItem),
    /// The conversation so far was summarised in this message.
    Compacted { message: String },
    /// A turn began with this model; what else is recorded of it is JSON text.
    TurnContext { model: String, body: String },
    /// Anything else, as JSON text.
    Other { body: String },
}

/// What a session begins with.
#[derive(Debug)]
pub enum InitialHistory {
    New,
    Resumed { conversation_id: String, rollout_path: String, history: Vec<RolloutItem> },
    Forked { history: Vec<RolloutItem> },
}

/// The model of the last turn that is recorded.
pub open spec fn last_model(items: Seq<RolloutItem>) -> Option<String>
    decreases items.len(),
{
    if items.len() == 0 {
        None
    } else {
        match items.last() {
            RolloutItem::TurnContext { model, .. } => Some(model),
            _ => last_model(items.drop_last()),
        }
    }
}

/// The model of the last turn that is recorded.
pub fn recorded_model(items: &Vec<RolloutItem>) -> (r: Option<&String>)
    ensures
        match r {
            Some(model) => last_model(items@) == Some(*model),
            None => last_model(items@) is None,
        },
{
    let mut i: usize = items.len();
    assert(items@.take(i as int) =~= items@);
    while i > 0
        invariant
            i <= items@.len(),
            last_model(items@) == last_model(items@.take(i as int)),
        decreases i,
    {
        assert(items@.take(i as int).drop_last() =~= items@.take(i - 1));
        assert(items@.take(i as int).last() == items@[i - 1]);
        i -= 1;
        if let RolloutItem::TurnContext { model, .. } = &items[i] {
            return Some(model);
        }
    }
    None
}

/// The warning for a session that goes on with another model.
pub open spec fn model_warning(prev: Seq<char>, curr: Seq<char>) -> Seq<char> {
    "This session was recorded with model `"@ + prev + "` but is resuming with `"@ + curr
        + "`. Consider switching back to `"@ + prev + "` as it may affect Codex performance."@
}

/// The warning for a session that goes on with another model, where it does.
pub fn resume_warning(history: &Vec<RolloutItem>, current_model: &str) -> (r: Option<String>)
    ensures
        match last_model(history@) {
            Some(prev) => if prev@ == current_model@ {
                r is None
            } else {
                r matches Some(m) && m@ == model_warning(prev@, current_model@)
            },
            None => r is None,
        },
{
    match recorded_model(history) {
        Some(prev) => {
            if text::same(prev.as_str(), current_model) {
                None
            } else {
                let mut message = "This session was recorded with model `".to_owned();
                message.append(prev.as_str());
                message.append("` but is resuming with `");
                message.append(current_model);
                message.append("`. Consider switching back to `");
                message.append(prev.as_str());
                message.append("` as it may affect Codex performance.");
                Some(message)
            }
        },
        None => None,
    }
}

/// What is done with what a session begins with.
#[derive(Debug)]
pub enum InitialRecord {
    /// Record the initial context.
    RecordContext,
    /// Warn the user, where there is a warning; record what the history comes to, where it comes
    /// to anything; and, where it is to be kept, add it to the record of the new session.
    Replay { warning: Option<String>, history: Vec<RolloutItem>, persist: bool },
}

/// What is done with what a session begins with. Only the user of a session that is resumed is
/// warned of another model; only what was forked is recorded anew.
pub fn record_initial_history(initial: InitialHistory, current_model: &str) -> (r: InitialRecord)
    ensures
        match initial {
            InitialHistory::New => r == InitialRecord::RecordContext,
            InitialHistory::Resumed { history, .. } => {
                &&& r matches InitialRecord::Replay { warning, history: h, persist: false }
                &&& h == history
                &&& match last_model(history@) {
                    Some(prev) => if prev@ == current_model@ {
                        warning is None
                    } else {
                        warning matches Some(m) && m@ == model_warning(prev@, current_model@)
                    },
                    None => warning is None,
                }
            },
            InitialHistory::Forked { history } => {
                &&& r matches InitialRecord::Replay { warning: None, history: h, persist }
                &&& h == history
                &&& persist == (history@.len() > 0)
            },
        },
{
    match initial {
        InitialHistory::New => InitialRecord::RecordContext,
        InitialHistory::Resumed { history, .. } => {
            let warning = resume_warning(&history, current_model);
            InitialRecord::Replay { warning, history, persist: false }
        },
        InitialHistory::Forked { history } => {
            let persist = history.len() > 0;
            InitialRecord::Replay { warning: None, history, persist }
        },
    }
}

/// Whether a history follows from another by one line of a record.
pub open spec fn replayed<R: Fn(Vec<ResponseItem>, ResponseItem) -> Vec<ResponseItem>, C: Fn(
    Vec<ResponseItem>,
    String,
) -> Vec<ResponseItem>>(
    record: R,
    compact: C,
    before: Vec<ResponseItem>,
    item: RolloutItem,
    after: Vec<ResponseItem>,
) -> bool {
    match item {
        RolloutItem::ResponseItem(response_item) => call_ensures(
            record,
            (before, response_item),
            after,
        ),
        RolloutItem::Compacted { message } => call_ensures(compact, (before, message), after),
        _ => after == before,
    }
}

/// Whether `states` are the histories after each line of a record, beginning with none.
pub open spec fn is_replay<R: Fn(Vec<ResponseItem>, ResponseItem) -> Vec<ResponseItem>, C: Fn(
    Vec<ResponseItem>,
    String,
) -> Vec<ResponseItem>>(
    record: R,
    compact: C,
    items: Seq<RolloutItem>,
    states: Seq<Vec<ResponseItem>>,
) -> bool {
    &&& states.len() == items.len() + 1
    &&& states[0]@.len() == 0
    &&& forall|i: int|
        0 <= i < items.len() ==> replayed(
            record,
            compact,
            #[trigger] states[i],
            items[i],
            states[i + 1],
        )
}

/// The history that a record comes to: its items are recorded one by one, and each summary is put
/// in place of the history before it. Lines of other kinds change nothing.
pub fn reconstruct_history_from_rollout<
    R: Fn(Vec<ResponseItem>, ResponseItem) -> Vec<ResponseItem>,
    C: Fn(Vec<ResponseItem>, String) -> Vec<ResponseItem>,
>(rollout_items: Vec<RolloutItem>, record: R, compact: C) -> (r: Vec<ResponseItem>)
    requires
        forall|h: Vec<ResponseItem>, item: ResponseItem| #[trigger]
            call_requires(record, (h, item)),
        forall|h: Vec<ResponseItem>, message: String| #[trigger]
            call_requires(compact, (h, message)),
    ensures
        exists|states: Seq<Vec<ResponseItem>>| #[trigger]
            is_replay(record, compact, rollout_items@, states) && states.last() == r,
{
    let ghost all = rollout_items@;
    let mut rest = rollout_items;
    let mut history: Vec<ResponseItem> = Vec::new();
    let ghost mut states: Seq<Vec<ResponseItem>> = seq![history];
    let ghost mut k: int = 0;
    assert(rest@ =~= all.skip(0));
    while rest.len() > 0
        invariant
            0 <= k <= all.len(),
            rest@ == all.skip(k),
            is_replay(record, compact, all.take(k), states),
            states.last() == history,
            forall|h: Vec<ResponseItem>, item: ResponseItem| #[trigger]
                call_requires(record, (h, item)),
            forall|h: Vec<ResponseItem>, message: String| #[trigger]
                call_requires(compact, (h, message)),
        decreases rest@.len(),
    {
        let ghost before = history;
        let item = rest.remove(0);
        let ghost line = item;
        proof {
            assert(item == all[k]);
            assert(rest@ =~= all.skip(k + 1));
        }
        match item {
            RolloutItem::ResponseItem(response_item) => {
                history = record(history, response_item);
            },
            RolloutItem::Compacted { message } => {
                history = compact(history, message);
            },
            _ => {},
        }
        proof {
            let next = states.push(history);
            assert(replayed(record, compact, before, line, history));
            assert forall|i: int| 0 <= i < all.take(k + 1).len() implies replayed(
                record,
                compact,
                #[trigger] next[i],
                all.take(k + 1)[i],
                next[i + 1],
            ) by {
                if i < k {
                    assert(next[i] == states[i] && next[i + 1] == states[i + 1]);
                    assert(all.take(k + 1)[i] == all.take(k)[i]);
                }
            }
            states = next;
            k = k + 1;
        }
    }
    assert(all.take(k) =~= all);
    history
}

/// The items that a new conversation begins with, in order: what the developer and the user say of
/// how to work, where they say anything, and the environment.
pub fn build_initial_context(
    developer_instructions: Option<ResponseItem>,
    user_instructions: Option<ResponseItem>,
    environment: ResponseItem,
) -> (r: Vec<ResponseItem>)
    ensures
        r@ == optional_item(developer_instructions) + optional_item(user_instructions)
            + seq![environment],
{
    let mut items: Vec<ResponseItem> = Vec::new();
    if let Some(item) = developer_instructions {
        items.push(item);
    }
    if let Some(item) = user_instructions {
        items.push(item);
    }
    items.push(environment);
    assert(items@ =~= optional_item(developer_instructions) + optional_item(user_instructions)
        + seq![environment]);
    items
}

/// The item, where there is one.
pub open spec fn optional_item(item: Option<ResponseItem>) -> Seq<ResponseItem> {
    match item {
        Some(i) => seq![i],
        None => Seq::empty(),
    }
}

/// The item that tells the model how its environment changed: none for the first turn, and none
/// where nothing but the shell may have changed. `unchanged` says so of a turn that follows another.
pub fn build_environment_update_item(unchanged: Option<bool>, difference: ResponseItem) -> (r: Option<
    ResponseItem,
>)
    ensures
        r == if unchanged == Some(false) {
            Some(difference)
        } else {
            None
        },
{
    match unchanged {
        Some(false) => Some(difference),
        _ => None,
    }
}

/// What the user is told of a session that is ready. The messages of an earlier conversation are
/// JSON text.
#[derive(Debug)]
pub struct SessionConfigured {
    pub session_id: String,
    pub model: String,
    pub reasoning_effort: Option<ReasoningEffort>,
    pub history_log_id: u64,
    pub history_entry_count: usize,
    pub initial_messages: Option<String>,
    pub rollout_path: String,
}

/// What the user is told when a session has begun.
#[derive(Debug)]
pub enum StartupEvent {
    /// The session is ready.
    SessionConfigured(SessionConfigured),
    Error { message: String },
    DeprecationNotice { summary: String, details: Option<String> },
}

/// Whether an event is an error with this message.
pub open spec fn is_error(e: StartupEvent, message: Seq<char>) -> bool {
    e matches StartupEvent::Error { message: m } && m@ == message
}

/// Whether an event says that a name of a feature is deprecated.
pub open spec fn is_notice(e: StartupEvent, alias: Seq<char>, canonical: Seq<char>) -> bool {
    match e {
        StartupEvent::DeprecationNotice { summary, details } => {
            &&& summary@ == "`"@ + alias + "` is deprecated. Use `"@ + canonical + "` instead."@
            &&& if alias == canonical {
                details is None
            } else {
                &&& details matches Some(d)
                &&& d@ == "Enable it with `--enable "@ + canonical + "` or `[features]."@
                    + canonical
                    + "` in config.toml. See https://github.com/openai/codex/blob/main/docs/config.md#feature-flags for details."@
            }
        },
        _ => false,
    }
}

/// A server that could not be reached, with what is known of its settings.
#[derive(Debug)]
pub struct FailedClient {
    pub server_name: String,
    pub entry: Option<McpAuthStatusEntry>,
    pub error: McpClientError,
}

/// The notice that a name of a feature is deprecated.
fn deprecation_notice(alias: &str, canonical: &str) -> (r: StartupEvent)
    ensures
        is_notice(r, alias@, canonical@),
{
    let mut summary = "`".to_owned();
    summary.append(alias);
    summary.append("` is deprecated. Use `");
    summary.append(canonical);
    summary.append("` instead.");
    let details = if text::same(alias, canonical) {
        None
    } else {
        let mut d = "Enable it with `--enable ".to_owned();
        d.append(canonical);
        d.append("` or `[features].");
        d.append(canonical);
        d.append(
            "` in config.toml. See https://github.com/openai/codex/blob/main/docs/config.md#feature-flags for details.",
        );
        Some(d)
    };
    StartupEvent::DeprecationNotice { summary, details }
}

/// Whether `events` are what the user is told when a session has begun.
pub open spec fn are_startup_events(
    events: Seq<StartupEvent>,
    configured: SessionConfigured,
    failures: Result<Vec<FailedClient>, String>,
    legacy: Seq<(String, String)>,
) -> bool {
    let n = match failures {
        Ok(list) => list@.len(),
        Err(_) => 1,
    };
    &&& events.len() == 1 + n + legacy.len()
    &&& events[0] == StartupEvent::SessionConfigured(configured)
    &&& match failures {
        Ok(list) => forall|i: int|
            0 <= i < n ==> is_error(
                #[trigger] events[1 + i],
                mcp_errors::display(list@[i].server_name@, list@[i].entry, list@[i].error),
            ),
        Err(e) => is_error(events[1], "Failed to create MCP connection manager: "@ + e@),
    }
    &&& forall|j: int|
        0 <= j < legacy.len() ==> is_notice(
            events[1 + n + j],
            (#[trigger] legacy[j]).0@,
            legacy[j].1@,
        )
}

/// What the user is told when a session has begun: first that it is ready, then of the servers that
/// could not be reached, and then of the deprecated names of features that are in use. `failures`
/// are those servers, or why there is no connection to any server.
pub fn startup_events(
    configured: SessionConfigured,
    failures: &Result<Vec<FailedClient>, String>,
    legacy_feature_usages: &Vec<(String, String)>,
) -> (r: Vec<StartupEvent>)
    ensures
        are_startup_events(r@, configured, *failures, legacy_feature_usages@),
{
    let mut events: Vec<StartupEvent> = Vec::new();
    events.push(StartupEvent::SessionConfigured(configured));
    match failures {
        Ok(list) => {
            let mut i: usize = 0;
            while i < list.len()
                invariant
                    i <= list@.len(),
                    events@.len() == 1 + i,
                    events@[0] == StartupEvent::SessionConfigured(configured),
                    forall|k: int|
                        0 <= k < i ==> is_error(
                            #[trigger] events@[1 + k],
                            mcp_errors::display(
                                list@[k].server_name@,
                                list@[k].entry,
                                list@[k].error,
                            ),
                        ),
                decreases list@.len() - i,
            {
                let failed = &list[i];
                let message = mcp_errors::mcp_init_error_display(
                    failed.server_name.as_str(),
                    failed.entry.as_ref(),
                    &failed.error,
                );
                events.push(StartupEvent::Error { message });
                i += 1;
            }
        },
        Err(e) => {
            let mut message = "Failed to create MCP connection manager: ".to_owned();
            message.append(e.as_str());
            events.push(StartupEvent::Error { message });
        },
    }
    let ghost before = events@;
    let ghost n: int = before.len() - 1;
    let mut j: usize = 0;
    while j < legacy_feature_usages.len()
        invariant
            j <= legacy_feature_usages@.len(),
            before.len() == 1 + n,
            events@.len() == before.len() + j,
            forall|i: int| 0 <= i < before.len() ==> #[trigger] events@[i] == before[i],
            forall|k: int|
                0 <= k < j ==> is_notice(
                    #[trigger] events@[1 + n + k],
                    legacy_feature_usages@[k].0@,
                    legacy_feature_usages@[k].1@,
                ),
        decreases legacy_feature_usages@.len() - j,
    {
        let usage = &legacy_feature_usages[j];
        events.push(deprecation_notice(usage.0.as_str(), usage.1.as_str()));
        j += 1;
    }
    events
}

/// A path in quotation marks.
pub uninterp spec fn quoted_path(path: Seq<char>) -> Seq<char>;

/// `{:?}` writes a `std::path::Path` in quotation marks, with some of its characters escaped. What
/// is written depends on the path alone; which characters are escaped, and how, is left unsaid.
#[verifier::external_body]
fn quote_path(path: &str) -> (r: String)
    ensures
        r@ == quoted_path(path@),
{
    format!("{:?}", std::path::Path::new(path))
}

/// Why a session cannot begin in a directory: it has to be given by an absolute path.
pub fn check_cwd(cwd: &str, on_windows: bool) -> (r: Result<(), String>)
    ensures
        match r {
            Ok(_) => path::absolute(cwd@, on_windows),
            Err(m) => !path::absolute(cwd@, on_windows) && m@ == "cwd is not absolute: "@
                + quoted_path(cwd@),
        },
{
    if path::is_absolute(cwd, on_windows) {
        Ok(())
    } else {
        let quoted = quote_path(cwd);
        let mut message = "cwd is not absolute: ".to_owned();
        message.append(quoted.as_str());
        Err(message)
    }
}

/// Why a session whose record cannot be written cannot begin.
pub fn rollout_failed(error: &str) -> (r: String)
    ensures
        r@ == "failed to initialize rollout recorder: "@ + error@,
{
    let mut message = "failed to initialize rollout recorder: ".to_owned();
    message.append(error);
    message
}

/// How the record of a session is written.
#[derive(Debug)]
pub enum RolloutRecorderParams {
    /// Into a new file.
    Create {
        conversation_id: String,
        instructions: Option<String>,
        source: SessionSource,
    },
    /// On into a file.
    Resume { path: String },
}

/// The identity of a session: one that is resumed keeps its own.
pub open spec fn session_id(initial: InitialHistory, fresh_id: String) -> String {
    match initial {
        InitialHistory::Resumed { conversation_id, .. } => conversation_id,
        _ => fresh_id,
    }
}

/// The identity of a session and how its record is written: one that is resumed keeps both, and any
/// other gets `fresh_id` and a new file.
pub fn rollout_params(
    initial: &InitialHistory,
    fresh_id: &String,
    user_instructions: &Option<String>,
    session_source: &SessionSource,
) -> (r: (String, RolloutRecorderParams))
    ensures
        r.0 == session_id(*initial, *fresh_id),
        match *initial {
            InitialHistory::Resumed { rollout_path, .. } => r.1 == (RolloutRecorderParams::Resume {
                path: rollout_path,
            }),
            _ => r.1 == (RolloutRecorderParams::Create {
                conversation_id: *fresh_id,
                instructions: *user_instructions,
                source: *session_source,
            }),
        },
{
    match initial {
        InitialHistory::Resumed { conversation_id, rollout_path, .. } => (
            conversation_id.clone(),
            RolloutRecorderParams::Resume { path: rollout_path.clone() },
        ),
        _ => (
            fresh_id.clone(),
            RolloutRecorderParams::Create {
                conversation_id: fresh_id.clone(),
                instructions: match user_instructions {
                    Some(text) => Some(text.clone()),
                    None => None,
                },
                source: session_source.copy(),
            },
        ),
    }
}

/// Where recording an item appends it, a record without summaries comes to its items, in order.
pub proof fn law_plain_record_is_replayed_in_order<
    R: Fn(Vec<ResponseItem>, ResponseItem) -> Vec<ResponseItem>,
    C: Fn(Vec<ResponseItem>, String) -> Vec<ResponseItem>,
>(record: R, compact: C, items: Seq<RolloutItem>, states: Seq<Vec<ResponseItem>>)
    requires
        is_replay(record, compact, items, states),
        forall|i: int| 0 <= i < items.len() ==> (#[trigger] items[i]) is ResponseItem,
        forall|h: Vec<ResponseItem>, item: ResponseItem, after: Vec<ResponseItem>| #[trigger]
            call_ensures(record, (h, item), after) ==> after@ == h@.push(item),
    ensures
        states.last()@ == Seq::new(items.len(), |i: int| items[i]->ResponseItem_0),
    decreases items.len(),
{
    if items.len() == 0 {
        assert(states.last()@ =~= Seq::new(items.len(), |i: int| items[i]->ResponseItem_0));
    } else {
        let n = items.len() - 1;
        let shorter = items.drop_last();
        let earlier = states.drop_last();
        assert forall|i: int| 0 <= i < shorter.len() implies replayed(
            record,
            compact,
            #[trigger] earlier[i],
            shorter[i],
            earlier[i + 1],
        ) by {
            assert(earlier[i] == states[i] && earlier[i + 1] == states[i + 1]);
        }
        law_plain_record_is_replayed_in_order(record, compact, shorter, earlier);
        assert(earlier.last() == states[n]);
        assert(replayed(record, compact, states[n], items[n], states[n + 1]));
        assert(items[n] is ResponseItem);
        assert(states.last()@ =~= Seq::new(items.len(), |i: int| items[i]->ResponseItem_0));
    }
}

/// Each history on the way is what the lines before it come to by themselves.
pub proof fn law_every_prefix_is_replayed<
    R: Fn(Vec<ResponseItem>, ResponseItem) -> Vec<ResponseItem>,
    C: Fn(Vec<ResponseItem>, String) -> Vec<ResponseItem>,
>(record: R, compact: C, items: Seq<RolloutItem>, states: Seq<Vec<ResponseItem>>, k: int)
    requires
        is_replay(record, compact, items, states),
        0 <= k <= items.len(),
    ensures
        is_replay(record, compact, items.take(k), states.take(k + 1)),
{
    let front = states.take(k + 1);
    assert forall|i: int| 0 <= i < items.take(k).len() implies replayed(
        record,
        compact,
        #[trigger] front[i],
        items.take(k)[i],
        front[i + 1],
    ) by {
        assert(front[i] == states[i] && front[i + 1] == states[i + 1]);
    }
}

/// The model that a session was recorded with is that of its last turn.
pub proof fn law_last_turn_tells_the_model(items: Seq<RolloutItem>, i: int, model: String, body: String)
    requires
        0 <= i < items.len(),
        items[i] == (RolloutItem::TurnContext { model, body }),
        forall|j: int| i < j < items.len() ==> !((#[trigger] items[j]) is TurnContext),
    ensures
        last_model(items) == Some(model),
    decreases items.len(),
{
    if i < items.len() - 1 {
        let shorter = items.drop_last();
        assert(!(items[items.len() - 1] is TurnContext));
        assert forall|j: int| i < j < shorter.len() implies !((#[trigger] shorter[j])
            is TurnContext) by {
            assert(shorter[j] == items[j]);
        }
        law_last_turn_tells_the_model(shorter, i, model, body);
    }
}

/// A record without turns tells no model.
pub proof fn law_record_without_turns_tells_no_model(items: Seq<RolloutItem>)
    requires
        forall|j: int| 0 <= j < items.len() ==> !((#[trigger] items[j]) is TurnContext),
    ensures
        last_model(items) is None,
    decreases items.len(),
{
    if items.len() > 0 {
        let shorter = items.drop_last();
        assert(!(items[items.len() - 1] is TurnContext));
        assert forall|j: int| 0 <= j < shorter.len() implies !((#[trigger] shorter[j])
            is TurnContext) by {
            assert(shorter[j] == items[j]);
        }
        law_record_without_turns_tells_no_model(shorter);
    }
}

/// The warning names the model of the record, the one that is used now, and the one to go back to.
pub proof fn law_warning_names_both_models(prev: Seq<char>, curr: Seq<char>)
    ensures
        model_warning(prev, curr) == "This session was recorded with model `"@ + prev
            + "` but is resuming with `"@ + curr + "`. Consider switching back to `"@ + prev
            + "` as it may affect Codex performance."@,
{
}

/// A replay begins with nothing, and each entry of the record does what it says: an item is
/// recorded, a summary takes the place of what came before, and anything else changes nothing.
pub proof fn law_each_entry_is_replayed<
    R: Fn(Vec<ResponseItem>, ResponseItem) -> Vec<ResponseItem>,
    C: Fn(Vec<ResponseItem>, String) -> Vec<ResponseItem>,
>(record: R, compact: C, items: Seq<RolloutItem>, states: Seq<Vec<ResponseItem>>, i: int)
    requires
        is_replay(record, compact, items, states),
        0 <= i < items.len(),
    ensures
        states.len() == items.len() + 1,
        states[0]@.len() == 0,
        match items[i] {
            RolloutItem::ResponseItem(item) => call_ensures(
                record,
                (states[i], item),
                states[i + 1],
            ),
            RolloutItem::Compacted { message } => call_ensures(
                compact,
                (states[i], message),
                states[i + 1],
            ),
            RolloutItem::TurnContext { .. } => states[i + 1] == states[i],
            RolloutItem::Other { .. } => states[i + 1] == states[i],
        },
{
    assert(replayed(record, compact, states[i], items[i], states[i + 1]));
}

/// An item that is there is one item, and one that is not is none.
pub proof fn law_optional_items(item: ResponseItem)
    ensures
        optional_item(Some(item)) == seq![item],
        optional_item(None).len() == 0,
{
}

/// A resumed conversation keeps its identity; a new or a forked one gets a fresh one.
pub proof fn law_resumed_conversation_keeps_its_identity(initial: InitialHistory, fresh_id: String)
    ensures
        match initial {
            InitialHistory::Resumed { conversation_id, .. } => session_id(initial, fresh_id)
                == conversation_id,
            InitialHistory::New => session_id(initial, fresh_id) == fresh_id,
            InitialHistory::Forked { .. } => session_id(initial, fresh_id) == fresh_id,
        },
{
}

/// A session that starts says first that it is ready, next what went wrong with each server, or with
/// all of them, and last which names of features are deprecated, each with the one to use.
pub proof fn law_startup_tells_everything(
    events: Seq<StartupEvent>,
    configured: SessionConfigured,
    failures: Result<Vec<FailedClient>, String>,
    legacy: Seq<(String, String)>,
    i: int,
    j: int,
)
    requires
        are_startup_events(events, configured, failures, legacy),
        0 <= j < legacy.len(),
        failures matches Ok(list) ==> 0 <= i < list@.len(),
    ensures
        events[0] == StartupEvent::SessionConfigured(configured),
        match failures {
            Ok(list) => {
                &&& events.len() == 1 + list@.len() + legacy.len()
                &&& events[1 + i] matches StartupEvent::Error { message }
                &&& message@ == mcp_errors::display(
                    list@[i].server_name@,
                    list@[i].entry,
                    list@[i].error,
                )
            },
            Err(e) => {
                &&& events.len() == 2 + legacy.len()
                &&& events[1] matches StartupEvent::Error { message }
                &&& message@ == "Failed to create MCP connection manager: "@ + e@
            },
        },
        events[events.len() - legacy.len() + j] matches StartupEvent::DeprecationNotice {
            summary,
            details,
        } && {
            let alias = legacy[j].0@;
            let canonical = legacy[j].1@;
            &&& summary@ == "`"@ + alias + "` is deprecated. Use `"@ + canonical + "` instead."@
            &&& details is None <==> alias == canonical
            &&& details is Some ==> (details->0)@ == "Enable it with `--enable "@ + canonical
                + "` or `[features]."@ + canonical
                + "` in config.toml. See https://github.com/openai/codex/blob/main/docs/config.md#feature-flags for details."@
        },
{
    match failures {
        Ok(list) => {
            let n = list@.len();
            assert(is_error(
                events[1 + i],
                mcp_errors::display(list@[i].server_name@, list@[i].entry, list@[i].error),
            ));
            assert(is_notice(events[1 + n + j], legacy[j].0@, legacy[j].1@));
        },
        Err(_) => {
            let n: nat = 1;
            assert(is_notice(events[1 + n + j], legacy[j].0@, legacy[j].1@));
        },
    }
}

/// The user is warned exactly where a session was recorded with another model than the one in use.
pub proof fn law_other_model_is_warned_of(
    history: Vec<RolloutItem>,
    current: &str,
    r: Option<String>,
)
    requires
        call_ensures(resume_warning, (&history, current), r),
    ensures
        r is Some <==> last_model(history@) is Some && (last_model(history@)->0)@ != current@,
        r is Some ==> (r->0)@ == model_warning((last_model(history@)->0)@, current@),
{
}

/// A new conversation begins with its context; a resumed one with its history, and a warning where
/// there is one; and a forked one with the history that it takes over, which is kept where there is
/// any.
pub proof fn law_conversation_begins_with_its_history(
    initial: InitialHistory,
    current: &str,
    r: InitialRecord,
)
    requires
        call_ensures(record_initial_history, (initial, current), r),
    ensures
        match initial {
            InitialHistory::New => r is RecordContext,
            InitialHistory::Resumed { history, .. } => r matches InitialRecord::Replay {
                warning,
                history: h,
                persist,
            } && h == history && !persist && (warning is Some <==> last_model(history@) is Some && (
            last_model(history@)->0)@ != current@),
            InitialHistory::Forked { history } => r matches InitialRecord::Replay {
                warning,
                history: h,
                persist,
            } && h == history && warning is None && (persist <==> history@.len() > 0),
        },
{
}

/// The context begins with the instructions of the developer, next those of the user, where there
/// are any, and ends with the environment.
pub proof fn law_context_has_its_order(
    developer: Option<ResponseItem>,
    user: Option<ResponseItem>,
    environment: ResponseItem,
    r: Vec<ResponseItem>,
)
    requires
        call_ensures(build_initial_context, (developer, user, environment), r),
    ensures
        r@.last() == environment,
        developer is Some ==> r@[0] == developer->0,
        user is Some ==> r@.len() >= 2 && r@[r@.len() - 2] == user->0,
        r@.len() == 1 + (if developer is Some {
            1int
        } else {
            0
        }) + (if user is Some {
            1int
        } else {
            0
        }),
{
}

/// The model is told of the environment where it is known to have changed, and only there.
pub proof fn law_changed_environment_is_told(
    unchanged: Option<bool>,
    difference: ResponseItem,
    r: Option<ResponseItem>,
)
    requires
        call_ensures(build_environment_update_item, (unchanged, difference), r),
    ensures
        r == Some(difference) <==> unchanged is Some && !unchanged->0,
        r is None <==> unchanged is None || unchanged->0,
{
}

/// A resumed conversation goes on in its own record; any other gets a new one, under its own name.
pub proof fn law_record_goes_on(
    initial: InitialHistory,
    fresh_id: String,
    instructions: Option<String>,
    source: SessionSource,
    r: (String, RolloutRecorderParams),
)
    requires
        call_ensures(rollout_params, (&initial, &fresh_id, &instructions, &source), r),
    ensures
        match initial {
            InitialHistory::Resumed { conversation_id, rollout_path, .. } => r.0 == conversation_id
                && r.1 == (RolloutRecorderParams::Resume { path: rollout_path }),
            _ => r.0 == fresh_id && r.1 == (RolloutRecorderParams::Create {
                conversation_id: fresh_id,
                instructions,
                source,
            }),
        },
{
}

/// A session needs an absolute directory; one that is not is named in the error.
pub proof fn law_directory_must_be_absolute(cwd: &str, on_windows: bool, r: Result<(), String>)
    requires
        call_ensures(check_cwd, (cwd, on_windows), r),
    ensures
        r is Ok <==> path::absolute(cwd@, on_windows),
        r is Err ==> (r->Err_0)@ == "cwd is not absolute: "@ + quoted_path(cwd@),
{
}

} // verus!
