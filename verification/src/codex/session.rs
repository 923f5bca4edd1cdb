//! A session: its settings, the turn that runs, and the approvals and inputs that are waited for.
use vstd::prelude::*;

use crate::client::model_client::{ModelFamily, ModelInfo};
use crate::codex::configuration;
use crate::codex::configuration::{
    SessionConfiguration, SessionSettingsUpdate, TurnContext,
};
use crate::codex::history;
use crate::codex::history::{FailedClient, InitialHistory, SessionConfigured, StartupEvent};
use crate::named;
use crate::path;
use crate::protocol::{
    RateLimitSnapshot, ResponseInputItem, ReviewDecision, TokenUsage, TokenUsageInfo, UserInput,
};
use crate::tasks::ghost_snapshot::GhostSnapshotTask;
use crate::text;

verus! {

/// The identity of a submission that the session makes itself when it starts.
pub const INITIAL_SUBMIT_ID: &'static str = "";

/// The number after a number; after the largest comes zero.
pub open spec fn following(n: u64) -> u64 {
    if n == u64::MAX {
        0
    } else {
        (n + 1) as u64
    }
}

/// The number after a number; after the largest comes zero.
pub fn next_number(n: u64) -> (r: u64)
    ensures
        r == following(n),
{
    if n == u64::MAX {
        0
    } else {
        n + 1
    }
}

/// The turn that runs: the approvals that it waits for, by the submission they belong to, each with
/// what its answer is to be sent through, and the input that was put in since it began.
#[derive(Debug)]
pub struct ActiveTurn {
    pub pending_approvals: Vec<(String, u64)>,
    pub pending_input: Vec<ResponseInputItem>,
}

/// A session. It has at most 1 running task at a time, and can be interrupted by user input.
#[derive(Debug)]
pub struct Session {
    pub conversation_id: String,
    pub configuration: SessionConfiguration,
    pub active_turn: Option<ActiveTurn>,
    pub next_internal_sub_id: u64,
    pub token_info: Option<TokenUsageInfo>,
    pub rate_limits: Option<RateLimitSnapshot>,
}

/// What is found when a session is set up.
#[derive(Debug)]
pub struct SessionSetup {
    /// Where the record of the session is written, or why it cannot be.
    pub rollout: Result<String, String>,
    /// The servers that could not be reached, or why none can be.
    pub failed_clients: Result<Vec<FailedClient>, String>,
    /// The deprecated names of features that are in use, with those that take their place.
    pub legacy_feature_usages: Vec<(String, String)>,
    pub history_log_id: u64,
    pub history_entry_count: usize,
    /// The messages of an earlier conversation, as JSON text.
    pub initial_messages: Option<String>,
}

/// The identity of a turn that the session makes itself.
pub open spec fn internal_sub_id(n: u64) -> Seq<char> {
    "auto-compact-"@ + text::decimal(n as nat)
}

/// The approval that a turn waits for under an identity.
pub open spec fn awaited(turn: Option<ActiveTurn>, sub_id: Seq<char>) -> Option<u64> {
    match turn {
        Some(at) => named::lookup(at.pending_approvals@, sub_id),
        None => None,
    }
}

/// The input that waits for the turn that runs.
pub open spec fn waiting_input(turn: Option<ActiveTurn>) -> Seq<ResponseInputItem> {
    match turn {
        Some(at) => at.pending_input@,
        None => Seq::empty(),
    }
}

/// Whether `after` is `before` waiting for one more approval, in place of the one that was waited
/// for under the same identity.
pub open spec fn is_requested(
    before: Option<ActiveTurn>,
    after: Option<ActiveTurn>,
    sub_id: Seq<char>,
    reply: u64,
) -> bool {
    &&& same_input(before, after)
    &&& before is Some ==> awaited(after, sub_id) == Some(reply)
    &&& forall|other: Seq<char>|
        other != sub_id ==> #[trigger] awaited(after, other) == awaited(before, other)
}

/// Whether `after` is `before` after an answer, which is sent through `reply` where one was waited
/// for.
pub open spec fn is_answered(
    before: Option<ActiveTurn>,
    after: Option<ActiveTurn>,
    sub_id: Seq<char>,
    reply: Option<u64>,
) -> bool {
    &&& same_input(before, after)
    &&& reply == awaited(before, sub_id)
    &&& awaited(after, sub_id) is None
    &&& forall|other: Seq<char>|
        other != sub_id ==> #[trigger] awaited(after, other) == awaited(before, other)
}

/// Whether a session has begun as it was set up, and `events` are what the user is told: it is
/// rooted in an absolute path, its record is writable, and nothing runs in it yet.
pub open spec fn is_begun(
    session: Session,
    events: Seq<StartupEvent>,
    configuration: SessionConfiguration,
    initial: InitialHistory,
    fresh_id: String,
    setup: SessionSetup,
    on_windows: bool,
) -> bool {
    &&& path::absolute(configuration.cwd@, on_windows)
    &&& setup.rollout matches Ok(rollout_path)
    &&& session.wf()
    &&& session.conversation_id == history::session_id(initial, fresh_id)
    &&& session.configuration == configuration
    &&& session.active_turn is None
    &&& session.next_internal_sub_id == 0
    &&& session.token_info is None
    &&& session.rate_limits is None
    &&& history::are_startup_events(
        events,
        SessionConfigured {
            session_id: session.conversation_id,
            model: configuration.model,
            reasoning_effort: configuration.model_reasoning_effort,
            history_log_id: setup.history_log_id,
            history_entry_count: setup.history_entry_count,
            initial_messages: setup.initial_messages,
            rollout_path,
        },
        setup.failed_clients,
        setup.legacy_feature_usages@,
    )
}

/// Whether a turn differs from another only in the approvals that it waits for.
pub open spec fn same_input(a: Option<ActiveTurn>, b: Option<ActiveTurn>) -> bool {
    match (a, b) {
        (Some(x), Some(y)) => x.pending_input == y.pending_input,
        (None, None) => true,
        _ => false,
    }
}

impl Session {
    /// Whether the turn that runs waits for no two approvals under one identity.
    pub open spec fn wf(self) -> bool {
        match self.active_turn {
            Some(at) => named::unique(at.pending_approvals@),
            None => true,
        }
    }

    /// Begins a session: it has to be rooted in an absolute path, and its record has to be
    /// writable. Returns the session and what the user is told, in order. `fresh_id` is the
    /// identity of a session that does not go on with an earlier one; `on_windows` tells whether
    /// paths are those of Windows.
    pub fn new(
        configuration: SessionConfiguration,
        initial: &InitialHistory,
        fresh_id: &String,
        setup: SessionSetup,
        on_windows: bool,
    ) -> (r: Result<(Self, Vec<StartupEvent>), String>)
        ensures
            match r {
                Ok((session, events)) => is_begun(
                    session,
                    events@,
                    configuration,
                    *initial,
                    *fresh_id,
                    setup,
                    on_windows,
                ),
                Err(m) => if !path::absolute(configuration.cwd@, on_windows) {
                    m@ == "cwd is not absolute: "@ + history::quoted_path(configuration.cwd@)
                } else {
                    setup.rollout matches Err(e) && m@
                        == "failed to initialize rollout recorder: "@ + e@
                },
            },
    {
        match history::check_cwd(configuration.cwd.as_str(), on_windows) {
            Ok(_) => {},
            Err(m) => return Err(m),
        }
        let rollout_path = match setup.rollout {
            Ok(p) => p,
            Err(e) => return Err(history::rollout_failed(e.as_str())),
        };
        let conversation_id = match initial {
            InitialHistory::Resumed { conversation_id, .. } => conversation_id.clone(),
            _ => fresh_id.clone(),
        };
        let events = history::startup_events(
            SessionConfigured {
                session_id: conversation_id.clone(),
                model: configuration.model.clone(),
                reasoning_effort: configuration.model_reasoning_effort,
                history_log_id: setup.history_log_id,
                history_entry_count: setup.history_entry_count,
                initial_messages: setup.initial_messages,
                rollout_path,
            },
            &setup.failed_clients,
            &setup.legacy_feature_usages,
        );
        let session = Session {
            conversation_id,
            configuration,
            active_turn: None,
            next_internal_sub_id: 0,
            token_info: None,
            rate_limits: None,
        };
        Ok((session, events))
    }

    /// Begins a turn, in place of the one that ran.
    pub fn begin_turn(&mut self)
        ensures
            final(self).wf(),
            *final(self) == (Session { active_turn: final(self).active_turn, ..*old(self) }),
            final(self).active_turn is Some,
            waiting_input(final(self).active_turn).len() == 0,
            forall|id: Seq<char>| (#[trigger] awaited(final(self).active_turn, id)) is None,
    {
        let turn = ActiveTurn { pending_approvals: Vec::new(), pending_input: Vec::new() };
        proof {
            assert forall|id: Seq<char>| (#[trigger] awaited(Some(turn), id)) is None by {
                named::lemma_position_is(turn.pending_approvals@, id, 0);
            }
        }
        self.active_turn = Some(turn);
    }

    /// Ends the turn that runs; what it waited for is given up.
    pub fn end_turn(&mut self)
        ensures
            final(self).wf(),
            *final(self) == (Session { active_turn: None, ..*old(self) }),
    {
        self.active_turn = None;
    }

    /// The identity of a turn that the session makes itself.
    pub fn next_internal_sub_id(&mut self) -> (r: String)
        ensures
            r@ == internal_sub_id(old(self).next_internal_sub_id),
            *final(self) == (Session {
                next_internal_sub_id: following(old(self).next_internal_sub_id),
                ..*old(self)
            }),
    {
        let id = self.next_internal_sub_id;
        self.next_internal_sub_id = next_number(id);
        let mut name = "auto-compact-".to_owned();
        text::push_decimal(&mut name, id);
        name
    }

    /// Changes the settings.
    pub fn update_settings(&mut self, updates: SessionSettingsUpdate)
        ensures
            *final(self) == (Session {
                configuration: configuration::applied(old(self).configuration, updates),
                ..*old(self)
            }),
    {
        self.configuration.update(updates);
    }

    /// The context of a turn: the changes are made to the session, and last; the schema of the
    /// final output holds for this turn alone.
    pub fn new_turn_with_sub_id(
        &mut self,
        sub_id: String,
        updates: SessionSettingsUpdate,
        family: Option<ModelFamily>,
        info: Option<ModelInfo>,
    ) -> (r: TurnContext)
        ensures
            *final(self) == (Session {
                configuration: configuration::applied(old(self).configuration, updates),
                ..*old(self)
            }),
            configuration::is_turn_context(
                r,
                final(self).configuration,
                family,
                info,
                old(self).conversation_id@,
                sub_id,
                match updates.final_output_json_schema {
                    Some(schema) => schema,
                    None => None,
                },
            ),
    {
        let SessionSettingsUpdate {
            cwd,
            approval_policy,
            sandbox_policy,
            model,
            reasoning_effort,
            reasoning_summary,
            final_output_json_schema,
        } = updates;
        self.configuration.update(
            SessionSettingsUpdate {
                cwd,
                approval_policy,
                sandbox_policy,
                model,
                reasoning_effort,
                reasoning_summary,
                final_output_json_schema: None,
            },
        );
        let mut turn_context = configuration::make_turn_context(
            &self.configuration,
            family,
            info,
            &self.conversation_id,
            sub_id,
        );
        if let Some(schema) = final_output_json_schema {
            turn_context.final_output_json_schema = schema;
        }
        turn_context
    }

    /// The context of a turn that the session makes itself.
    pub fn new_turn(
        &mut self,
        updates: SessionSettingsUpdate,
        family: Option<ModelFamily>,
        info: Option<ModelInfo>,
    ) -> (r: TurnContext)
        ensures
            r.sub_id@ == internal_sub_id(old(self).next_internal_sub_id),
            *final(self) == (Session {
                next_internal_sub_id: following(old(self).next_internal_sub_id),
                configuration: configuration::applied(old(self).configuration, updates),
                ..*old(self)
            }),
            configuration::is_turn_context(
                r,
                final(self).configuration,
                family,
                info,
                old(self).conversation_id@,
                r.sub_id,
                match updates.final_output_json_schema {
                    Some(schema) => schema,
                    None => None,
                },
            ),
    {
        let sub_id = self.next_internal_sub_id();
        self.new_turn_with_sub_id(sub_id, updates, family, info)
    }

    /// Waits for an approval: its answer is to be sent through `reply`. Returns what the answer was
    /// to be sent through where one was waited for under the same identity. Where no turn runs,
    /// nothing is waited for.
    fn insert_pending_approval(&mut self, sub_id: String, reply: u64) -> (previous: Option<u64>)
        requires
            old(self).wf(),
        ensures
            final(self).wf(),
            *final(self) == (Session { active_turn: final(self).active_turn, ..*old(self) }),
            is_requested(old(self).active_turn, final(self).active_turn, sub_id@, reply),
            previous == awaited(old(self).active_turn, sub_id@),
    {
        match self.active_turn.take() {
            Some(mut at) => {
                let previous = match named::find(&at.pending_approvals, sub_id.as_str()) {
                    Some(i) => Some(at.pending_approvals[i].1),
                    None => None,
                };
                let ghost before = at.pending_approvals@;
                let ghost id = sub_id@;
                named::put(&mut at.pending_approvals, sub_id, reply);
                proof {
                    assert forall|other: Seq<char>| other != id implies #[trigger] awaited(
                        Some(at),
                        other,
                    ) == awaited(old(self).active_turn, other) by {
                        assert(named::lookup(at.pending_approvals@, other) == named::lookup(
                            before,
                            other,
                        ));
                    }
                }
                self.active_turn = Some(at);
                previous
            },
            None => None,
        }
    }

    /// Waits for the approval of a command: the user's decision is to be sent through `reply`. The
    /// request is keyed by `sub_id` so that the matching answer is delivered to it. Returns what
    /// the decision was to be sent through where one was waited for under the same identity. Where
    /// no turn runs, nothing is waited for.
    pub fn request_command_approval(&mut self, sub_id: String, reply: u64) -> (previous: Option<u64>)
        requires
            old(self).wf(),
        ensures
            final(self).wf(),
            *final(self) == (Session { active_turn: final(self).active_turn, ..*old(self) }),
            is_requested(old(self).active_turn, final(self).active_turn, sub_id@, reply),
            previous == awaited(old(self).active_turn, sub_id@),
    {
        self.insert_pending_approval(sub_id, reply)
    }

    /// Waits for the approval of a patch, as for that of a command.
    pub fn request_patch_approval(&mut self, sub_id: String, reply: u64) -> (previous: Option<u64>)
        requires
            old(self).wf(),
        ensures
            final(self).wf(),
            *final(self) == (Session { active_turn: final(self).active_turn, ..*old(self) }),
            is_requested(old(self).active_turn, final(self).active_turn, sub_id@, reply),
            previous == awaited(old(self).active_turn, sub_id@),
    {
        self.insert_pending_approval(sub_id, reply)
    }

    /// Takes note of an answer of the user: returns what it is to be sent through, or nothing where
    /// no approval was waited for under the identity.
    pub fn notify_approval(&mut self, sub_id: &str) -> (reply: Option<u64>)
        requires
            old(self).wf(),
        ensures
            final(self).wf(),
            *final(self) == (Session { active_turn: final(self).active_turn, ..*old(self) }),
            is_answered(old(self).active_turn, final(self).active_turn, sub_id@, reply),
    {
        match self.active_turn.take() {
            Some(mut at) => {
                let ghost before = at.pending_approvals@;
                let reply = named::take(&mut at.pending_approvals, sub_id);
                proof {
                    assert forall|other: Seq<char>| other != sub_id@ implies #[trigger] awaited(
                        Some(at),
                        other,
                    ) == awaited(old(self).active_turn, other) by {
                        assert(named::lookup(at.pending_approvals@, other) == named::lookup(
                            before,
                            other,
                        ));
                    }
                }
                self.active_turn = Some(at);
                reply
            },
            None => None,
        }
    }

    /// Returns the input if there was no task running to inject into. `item` is the input as it is
    /// sent to the model.
    pub fn inject_input(&mut self, input: Vec<UserInput>, item: ResponseInputItem) -> (r: Result<
        (),
        Vec<UserInput>,
    >)
        ensures
            *final(self) == (Session { active_turn: final(self).active_turn, ..*old(self) }),
            match old(self).active_turn {
                Some(at) => {
                    &&& r is Ok
                    &&& final(self).active_turn matches Some(now)
                    &&& now.pending_input@ == at.pending_input@.push(item)
                    &&& now.pending_approvals == at.pending_approvals
                },
                None => r == Err::<(), Vec<UserInput>>(input) && final(self).active_turn is None,
            },
    {
        match self.active_turn.take() {
            Some(mut at) => {
                at.pending_input.push(item);
                self.active_turn = Some(at);
                Ok(())
            },
            None => Err(input),
        }
    }

    /// Takes the input that waits for the turn that runs.
    pub fn get_pending_input(&mut self) -> (r: Vec<ResponseInputItem>)
        ensures
            *final(self) == (Session { active_turn: final(self).active_turn, ..*old(self) }),
            r@ == waiting_input(old(self).active_turn),
            match old(self).active_turn {
                Some(at) => {
                    &&& final(self).active_turn matches Some(now)
                    &&& now.pending_input@.len() == 0
                    &&& now.pending_approvals == at.pending_approvals
                },
                None => final(self).active_turn is None,
            },
    {
        match self.active_turn.take() {
            Some(at) => {
                let ActiveTurn { pending_approvals, pending_input } = at;
                self.active_turn = Some(
                    ActiveTurn { pending_approvals, pending_input: Vec::new() },
                );
                pending_input
            },
            None => Vec::new(),
        }
    }

    /// Takes an estimate of the tokens that the conversation takes up for those of the last
    /// request.
    pub fn override_last_token_usage_estimate(
        &mut self,
        estimated_total_tokens: i64,
        context_window: Option<i64>,
    )
        ensures
            *final(self) == (Session {
                token_info: Some(
                    estimated_info(
                        old(self).token_info,
                        estimated_total_tokens,
                        context_window,
                    ),
                ),
                ..*old(self)
            }),
    {
        let mut info = match self.token_info {
            Some(info) => info,
            None => TokenUsageInfo {
                total_token_usage: TokenUsage::default(),
                last_token_usage: TokenUsage::default(),
                model_context_window: None,
            },
        };
        info.last_token_usage = TokenUsage {
            input_tokens: 0,
            cached_input_tokens: 0,
            output_tokens: 0,
            reasoning_output_tokens: 0,
            total_tokens: if estimated_total_tokens < 0 {
                0
            } else {
                estimated_total_tokens
            },
        };
        if info.model_context_window.is_none() {
            info.model_context_window = context_window;
        }
        self.token_info = Some(info);
    }

    /// Takes note of the tokens that the session used after a turn, where the model gave them for
    /// the turn. Returns what the user is told.
    pub fn update_token_usage_info(&mut self, updated: Option<TokenUsageInfo>) -> (r: TokenCount)
        ensures
            *final(self) == (Session {
                token_info: match updated {
                    Some(info) => Some(info),
                    None => old(self).token_info,
                },
                ..*old(self)
            }),
            r.info == final(self).token_info,
            r.rate_limits == final(self).rate_limits,
    {
        if let Some(info) = updated {
            self.token_info = Some(info);
        }
        self.token_count()
    }

    /// Takes note of the rate limits. Returns what the user is told.
    pub fn update_rate_limits(&mut self, new_rate_limits: RateLimitSnapshot) -> (r: TokenCount)
        ensures
            *final(self) == (Session { rate_limits: Some(new_rate_limits), ..*old(self) }),
            r.info == final(self).token_info,
            r.rate_limits == final(self).rate_limits,
    {
        self.rate_limits = Some(new_rate_limits);
        self.token_count()
    }

    /// Takes note that the conversation fills the context window, where it is known; `full` is what
    /// the session then used. Returns what the user is told, where anything.
    pub fn set_total_tokens_full(&mut self, context_window: Option<i64>, full: TokenUsageInfo) -> (r:
        Option<TokenCount>)
        ensures
            match context_window {
                Some(_) => {
                    &&& *final(self) == (Session { token_info: Some(full), ..*old(self) })
                    &&& r matches Some(count)
                    &&& count.info == Some(full)
                    &&& count.rate_limits == old(self).rate_limits
                },
                None => r is None && *final(self) == *old(self),
            },
    {
        match context_window {
            Some(_) => {
                self.token_info = Some(full);
                Some(self.token_count())
            },
            None => None,
        }
    }

    /// The task that takes a snapshot, where the session takes any: `token` is what the tool calls
    /// of the turn wait for, where they can be made to wait.
    pub fn maybe_start_ghost_snapshot(&self, token: Option<i32>) -> (r: Option<GhostSnapshotTask>)
        ensures
            match r {
                Some(task) => self.configuration.features.ghost_commit && token == Some(task.token),
                None => !self.configuration.features.ghost_commit || token is None,
            },
    {
        if !self.configuration.features.ghost_commit {
            return None;
        }
        match token {
            Some(token) => Some(GhostSnapshotTask::new(token)),
            None => None,
        }
    }

    /// What the user is told of tokens and rate limits.
    pub fn token_count(&self) -> (r: TokenCount)
        ensures
            r.info == self.token_info,
            r.rate_limits == self.rate_limits,
    {
        TokenCount {
            info: self.token_info,
            rate_limits: match &self.rate_limits {
                Some(limits) => Some(limits.copy()),
                None => None,
            },
        }
    }
}

/// What the user is told of tokens and rate limits.
#[derive(Debug)]
pub struct TokenCount {
    pub info: Option<TokenUsageInfo>,
    pub rate_limits: Option<RateLimitSnapshot>,
}

/// The use of tokens after an estimate took the place of that of the last request.
pub open spec fn estimated_info(
    info: Option<TokenUsageInfo>,
    estimated_total_tokens: i64,
    context_window: Option<i64>,
) -> TokenUsageInfo {
    let none = TokenUsage {
        input_tokens: 0,
        cached_input_tokens: 0,
        output_tokens: 0,
        reasoning_output_tokens: 0,
        total_tokens: 0,
    };
    TokenUsageInfo {
        total_token_usage: match info {
            Some(i) => i.total_token_usage,
            None => none,
        },
        last_token_usage: TokenUsage {
            total_tokens: if estimated_total_tokens < 0 {
                0
            } else {
                estimated_total_tokens
            },
            ..none
        },
        model_context_window: match info {
            Some(i) => if i.model_context_window is Some {
                i.model_context_window
            } else {
                context_window
            },
            None => context_window,
        },
    }
}

/// The answer to a request for approval. If the task is aborted before there is one, it is the
/// default `ReviewDecision` (`Denied`).
pub fn decision_or_default(answer: Option<ReviewDecision>) -> (r: ReviewDecision)
    ensures
        r == match answer {
            Some(decision) => decision,
            None => ReviewDecision::Denied,
        },
{
    match answer {
        Some(decision) => decision,
        None => ReviewDecision::Denied,
    }
}

/// An answer goes to the request that it belongs to, whatever other request was answered before.
pub proof fn law_answer_reaches_its_request(
    before: Option<ActiveTurn>,
    requested: Option<ActiveTurn>,
    later: Option<ActiveTurn>,
    answered: Option<ActiveTurn>,
    sub_id: Seq<char>,
    other: Seq<char>,
    sent: u64,
    other_reply: Option<u64>,
    reply: Option<u64>,
)
    requires
        before is Some,
        other != sub_id,
        is_requested(before, requested, sub_id, sent),
        is_answered(requested, later, other, other_reply),
        is_answered(later, answered, sub_id, reply),
    ensures
        reply == Some(sent),
        other_reply == awaited(before, other),
{
}

/// A request is answered once: a second answer finds nothing that it could be sent through.
pub proof fn law_request_is_answered_once(
    before: Option<ActiveTurn>,
    once: Option<ActiveTurn>,
    twice: Option<ActiveTurn>,
    sub_id: Seq<char>,
    first: Option<u64>,
    second: Option<u64>,
)
    requires
        is_answered(before, once, sub_id, first),
        is_answered(once, twice, sub_id, second),
    ensures
        second is None,
{
}

/// Numbers are taken one after the other, and begin again only after the last.
pub proof fn law_numbers_follow_each_other(n: u64)
    ensures
        n < 0xffff_ffff_ffff_ffff ==> following(n) == n + 1,
        n == 0xffff_ffff_ffff_ffff ==> following(n) == 0,
{
}

/// The name of an internal turn is that of a summary with its number.
pub proof fn law_internal_turns_are_named(n: u64)
    ensures
        internal_sub_id(n) == "auto-compact-"@ + text::decimal(n as nat),
{
}

/// An estimate replaces what the last request used, and never what all used together; it is never
/// negative, and the size of the window, once known, stays.
pub proof fn law_estimate_replaces_the_last_usage(
    info: Option<TokenUsageInfo>,
    estimate: i64,
    window: Option<i64>,
)
    ensures
        ({
            let r = estimated_info(info, estimate, window);
            &&& r.last_token_usage.total_tokens == if estimate < 0 {
                0
            } else {
                estimate
            }
            &&& r.last_token_usage.input_tokens == 0
            &&& r.last_token_usage.cached_input_tokens == 0
            &&& r.last_token_usage.output_tokens == 0
            &&& r.last_token_usage.reasoning_output_tokens == 0
            &&& info is Some ==> r.total_token_usage == (info->0).total_token_usage
            &&& info is None ==> {
                &&& r.total_token_usage.total_tokens == 0
                &&& r.total_token_usage.input_tokens == 0
                &&& r.total_token_usage.cached_input_tokens == 0
                &&& r.total_token_usage.output_tokens == 0
                &&& r.total_token_usage.reasoning_output_tokens == 0
            }
            &&& info is Some && (info->0).model_context_window is Some ==> r.model_context_window
                == (info->0).model_context_window
            &&& info is None || (info->0).model_context_window is None ==> r.model_context_window
                == window
        }),
{
}

/// What a turn waits for is what it was told: its requests by their names, and its input in the
/// order in which it came; without a turn nothing waits.
pub proof fn law_turn_waits_for_what_it_was_told(turn: ActiveTurn, sub_id: Seq<char>)
    ensures
        awaited(Some(turn), sub_id) == named::lookup(turn.pending_approvals@, sub_id),
        awaited(None, sub_id) is None,
        waiting_input(Some(turn)) == turn.pending_input@,
        waiting_input(None).len() == 0,
{
}

/// A session begins in an absolute directory with a record, with the settings it was given and under
/// the identity of the conversation, with no turn, no count and no limits yet.
pub proof fn law_session_begins_afresh(
    session: Session,
    events: Seq<StartupEvent>,
    configuration: SessionConfiguration,
    initial: InitialHistory,
    fresh_id: String,
    setup: SessionSetup,
    on_windows: bool,
)
    requires
        is_begun(session, events, configuration, initial, fresh_id, setup, on_windows),
    ensures
        path::absolute(configuration.cwd@, on_windows),
        setup.rollout is Ok,
        session.configuration == configuration,
        session.conversation_id == history::session_id(initial, fresh_id),
        session.active_turn is None,
        session.next_internal_sub_id == 0,
        session.token_info is None,
        session.rate_limits is None,
        events.len() > 0,
        events[0] matches StartupEvent::SessionConfigured(configured) && {
            &&& configured.session_id == session.conversation_id
            &&& configured.model == configuration.model
            &&& configured.reasoning_effort == configuration.model_reasoning_effort
            &&& configured.history_log_id == setup.history_log_id
            &&& configured.history_entry_count == setup.history_entry_count
            &&& configured.initial_messages == setup.initial_messages
            &&& setup.rollout == Ok::<String, String>(configured.rollout_path)
        },
{
}

/// What is handed to a turn that runs is what it finds waiting, behind what waited before, and it
/// finds it once; without a turn the input comes back.
pub proof fn law_injected_input_is_found(
    session: &mut Session,
    later: &mut Session,
    input: Vec<UserInput>,
    item: ResponseInputItem,
    injected: Result<(), Vec<UserInput>>,
    found: Vec<ResponseInputItem>,
)
    requires
        call_ensures(Session::inject_input, (session, input, item), injected),
        *old(later) == *final(session),
        call_ensures(Session::get_pending_input, (later,), found),
    ensures
        old(session).active_turn is Some ==> injected is Ok && found@ == (old(session).active_turn->0).pending_input@.push(item) && waiting_input(
            final(later).active_turn,
        ).len() == 0,
        old(session).active_turn is None ==> injected == Err::<(), Vec<UserInput>>(input)
            && found@.len() == 0,
{
}

/// Counts are told as they are now: a new count replaces the old one, a missing one does not, and
/// the limits stay.
pub proof fn law_counts_are_replaced(
    session: &mut Session,
    updated: Option<TokenUsageInfo>,
    r: TokenCount,
)
    requires
        call_ensures(Session::update_token_usage_info, (session, updated), r),
    ensures
        updated is Some ==> r.info == updated,
        updated is None ==> r.info == old(session).token_info,
        final(session).token_info == r.info,
        r.rate_limits == old(session).rate_limits,
        final(session).rate_limits == old(session).rate_limits,
{
}

/// New limits replace the old ones, and the count stays.
pub proof fn law_limits_are_replaced(
    session: &mut Session,
    limits: RateLimitSnapshot,
    r: TokenCount,
)
    requires
        call_ensures(Session::update_rate_limits, (session, limits), r),
    ensures
        r.rate_limits == Some(limits),
        final(session).rate_limits == Some(limits),
        r.info == old(session).token_info,
        final(session).token_info == old(session).token_info,
{
}

/// The conversation is marked full where the size of the window is known, and only there.
pub proof fn law_full_window_is_marked(
    session: &mut Session,
    window: Option<i64>,
    full: TokenUsageInfo,
    r: Option<TokenCount>,
)
    requires
        call_ensures(Session::set_total_tokens_full, (session, window, full), r),
    ensures
        window is Some ==> final(session).token_info == Some(full) && r is Some && (r->0).info
            == Some(full) && (r->0).rate_limits == old(session).rate_limits,
        window is None ==> r is None && *final(session) == *old(session),
{
}

/// A snapshot is taken where the feature is on and there is something to release with it.
pub proof fn law_snapshot_needs_the_feature(
    session: Session,
    token: Option<i32>,
    r: Option<GhostSnapshotTask>,
)
    requires
        call_ensures(Session::maybe_start_ghost_snapshot, (&session, token), r),
    ensures
        r is Some <==> session.configuration.features.ghost_commit && token is Some,
        r is Some ==> (r->0).token == token->0,
{
}

/// A question that is never answered counts as denied.
pub proof fn law_silence_is_denial(answer: Option<ReviewDecision>, r: ReviewDecision)
    requires
        call_ensures(decision_or_default, (answer,), r),
    ensures
        answer is None ==> r == ReviewDecision::Denied,
        answer is Some ==> r == answer->0,
{
}

/// A turn begins with nothing waiting, and nothing is left of it when it ends; the rest of the
/// session stays.
pub proof fn law_turns_leave_nothing_behind(session: &mut Session, later: &mut Session)
    requires
        call_ensures(Session::begin_turn, (session,), ()),
        call_ensures(Session::end_turn, (later,), ()),
    ensures
        final(session).active_turn is Some,
        waiting_input(final(session).active_turn).len() == 0,
        final(session).configuration == old(session).configuration,
        final(session).conversation_id == old(session).conversation_id,
        final(later).active_turn is None,
        final(later).configuration == old(later).configuration,
        final(later).conversation_id == old(later).conversation_id,
{
}

/// A session begins exactly where its directory is absolute and its record can be written; else it is
/// said which of these fails.
pub proof fn law_session_begins_where_it_can(
    configuration: SessionConfiguration,
    initial: InitialHistory,
    fresh_id: String,
    setup: SessionSetup,
    on_windows: bool,
    r: Result<(Session, Vec<StartupEvent>), String>,
)
    requires
        call_ensures(Session::new, (configuration, &initial, &fresh_id, setup, on_windows), r),
    ensures
        r is Ok <==> path::absolute(configuration.cwd@, on_windows) && setup.rollout is Ok,
        !path::absolute(configuration.cwd@, on_windows) ==> (r->Err_0)@ == "cwd is not absolute: "@
            + history::quoted_path(configuration.cwd@),
        path::absolute(configuration.cwd@, on_windows) && setup.rollout is Err ==> (r->Err_0)@
            == "failed to initialize rollout recorder: "@ + (setup.rollout->Err_0)@,
        r matches Ok((session, _)) ==> session.configuration == configuration
            && session.conversation_id == history::session_id(initial, fresh_id),
{
}

} // verus!
