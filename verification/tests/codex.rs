use codex_core::client::model_client::{
    ModelConfig, ModelFamily, ModelInfo, ModelProviderInfo, SessionSource, WireApi,
};
use codex_core::client::sse::ResponseEvent;
use codex_core::codex::configuration::{
    spawn_review_thread, turn_context_item, Config, Features, SessionConfiguration,
    SessionSettingsUpdate,
};
use codex_core::codex::handlers::{
    add_to_history, begin_user_turn, compact, get_history_entry_request, list_custom_prompts,
    list_mcp_tools, review, run_user_shell_command, undo, HistoryEntry, KeptEntry, KnownModel,
    SpawnedTask,
};
use codex_core::codex::history::{
    build_environment_update_item, build_initial_context, reconstruct_history_from_rollout,
    record_initial_history, rollout_params, FailedClient,
    InitialHistory, InitialRecord, RolloutItem, RolloutRecorderParams, StartupEvent,
};
use codex_core::codex::mcp_errors::{mcp_init_error_display, McpAuthStatusEntry, McpClientError};
use codex_core::codex::session::{decision_or_default, Session, SessionSetup};
use codex_core::codex::submission::{
    shutdown, start_turn, submission_loop, Codex, Op, ShutdownEvent, SubmissionAction,
    TurnStart,
};
use codex_core::codex::task::{
    get_last_assistant_message_from_turn, has_task, TaskNext, TaskState,
};
use codex_core::codex::turn::{
    aborted_turn, collect_output, completed_turn, run_turn, turn_diff, DeltaKind, ItemReading, OutputSlot,
    ProcessedResponseItem, SettledSlot, TurnAction, TurnEvent, TurnItem, TurnRunResult, TurnState,
    TurnVerdict,
};
use codex_core::error::{CodexErr, RetryAfter, RetryUnit};
use codex_core::mcp_connection_manager::{
    McpConnectionManager, McpServerConfig, McpServerTransportConfig, Timeout, ToolInfo,
};
use codex_core::protocol::{
    AskForApproval, ContentItem, FunctionCallOutputPayload, McpCallResult, RateLimitSnapshot,
    ReasoningEffort, ReasoningSummary, ResponseInputItem, ResponseItem, ReviewDecision,
    SandboxPolicy, TokenUsage, TokenUsageInfo, UserInput,
};
use codex_core::response_processing::process_items;
use codex_core::tools::handlers::call::FunctionCallError;

fn family(slug: &str) -> ModelFamily {
    ModelFamily {
        slug: slug.to_string(),
        effective_context_window_percent: 100,
        supports_reasoning_summaries: false,
        default_reasoning_effort: None,
        support_verbosity: false,
        default_verbosity: None,
        supports_parallel_tool_calls: false,
    }
}

fn config() -> Config {
    Config {
        model_config: ModelConfig {
            model: "configured".to_string(),
            model_family: family("configured-family"),
            model_info: None,
            model_context_window: Some(10),
            model_auto_compact_token_limit: None,
            model_verbosity: None,
            show_raw_agent_reasoning: false,
        },
        features: Features {
            web_search_request: true,
            view_image_tool: true,
            ghost_commit: true,
            other: "{}".to_string(),
        },
        shell_environment_policy: "{}".to_string(),
        codex_linux_sandbox_exe: Some("/sandbox".to_string()),
        review_model: "gpt-review".to_string(),
    }
}

fn configuration() -> SessionConfiguration {
    SessionConfiguration {
        provider: ModelProviderInfo {
            name: "test".to_string(),
            wire_api: WireApi::Responses,
            request_max_retries: 0,
            stream_max_retries: 0,
            stream_idle_timeout_ms: 1000,
            is_azure_responses_endpoint: false,
        },
        model: "gpt-test".to_string(),
        model_reasoning_effort: Some(ReasoningEffort::Low),
        model_reasoning_summary: ReasoningSummary::Auto,
        developer_instructions: Some("dev".to_string()),
        user_instructions: Some("user".to_string()),
        base_instructions: None,
        compact_prompt: None,
        approval_policy: AskForApproval::OnRequest,
        sandbox_policy: SandboxPolicy::ReadOnly,
        cwd: "/work".to_string(),
        features: config().features,
        original_config: config(),
        session_source: SessionSource::FrontEnd("exec".to_string()),
    }
}

fn setup() -> SessionSetup {
    SessionSetup {
        rollout: Ok("/tmp/rollout.jsonl".to_string()),
        failed_clients: Ok(vec![]),
        legacy_feature_usages: vec![],
        history_log_id: 1,
        history_entry_count: 2,
        initial_messages: None,
    }
}

fn begin(
    configuration: SessionConfiguration,
    setup: SessionSetup,
) -> Result<(Session, Vec<StartupEvent>), String> {
    Session::new(
        configuration,
        &InitialHistory::New,
        &"conv".to_string(),
        setup,
        false,
    )
}

fn session() -> Session {
    begin(configuration(), setup()).expect("a session").0
}

fn message(role: &str, text: &str) -> ResponseItem {
    ResponseItem::Message {
        id: None,
        role: role.to_string(),
        content: vec![ContentItem::OutputText {
            text: text.to_string(),
        }],
    }
}

fn function_output(call_id: &str, content: &str) -> ResponseInputItem {
    ResponseInputItem::FunctionCallOutput {
        call_id: call_id.to_string(),
        output: FunctionCallOutputPayload {
            content: content.to_string(),
            content_items: None,
            success: None,
        },
    }
}

fn processed(item: ResponseItem, response: Option<ResponseInputItem>) -> ProcessedResponseItem {
    ProcessedResponseItem { item, response }
}

fn text_input(text: &str) -> Vec<UserInput> {
    vec![UserInput::Text {
        text: text.to_string(),
    }]
}

#[test]
fn settings_change_only_where_they_are_named() {
    let changed = configuration().apply(SessionSettingsUpdate {
        model: Some("other".to_string()),
        reasoning_effort: Some(None),
        ..SessionSettingsUpdate::default()
    });
    assert_eq!(changed.model, "other");
    assert_eq!(changed.model_reasoning_effort, None);
    assert_eq!(changed.cwd, "/work");
    assert_eq!(changed.approval_policy, AskForApproval::OnRequest);
}

#[test]
fn the_context_of_a_turn_follows_the_settings() {
    let mut session = session();
    let turn = session.new_turn_with_sub_id(
        "1".to_string(),
        SessionSettingsUpdate {
            cwd: Some("/other".to_string()),
            final_output_json_schema: Some(Some("{}".to_string())),
            ..SessionSettingsUpdate::default()
        },
        Some(family("known")),
        Some(ModelInfo {
            context_window: 400,
            auto_compact_token_limit: None,
        }),
    );
    assert_eq!(turn.sub_id, "1");
    assert_eq!(turn.cwd, "/other");
    assert_eq!(turn.client.get_model(), "gpt-test");
    assert_eq!(turn.client.get_model_family().slug, "known");
    assert_eq!(turn.client.get_model_context_window(), Some(400));
    assert_eq!(turn.final_output_json_schema.as_deref(), Some("{}"));
    assert_eq!(turn.resolve_path(&Some("sub".to_string()), false), "/other/sub");
    assert_eq!(turn.compact_prompt(&"usual".to_string()), "usual");

    let next = session.new_turn(SessionSettingsUpdate::default(), None, None);
    assert_eq!(next.sub_id, "auto-compact-0");
    assert_eq!(next.cwd, "/other");
    assert_eq!(next.client.get_model_family().slug, "configured-family");
    assert_eq!(next.final_output_json_schema, None);
    assert_eq!(session.next_internal_sub_id(), "auto-compact-1");
    let item = turn_context_item(&next);
    assert_eq!(item.model, "gpt-test");
    assert_eq!(item.effort, Some(ReasoningEffort::Low));
}

#[test]
fn reviews_run_with_less() {
    let mut session = session();
    let parent = session.new_turn(SessionSettingsUpdate::default(), Some(family("parent")), None);
    let review = spawn_review_thread(
        &config(),
        &parent,
        None,
        None,
        &"conv".to_string(),
        "sub".to_string(),
        &"review rules".to_string(),
        "look at this".to_string(),
    );
    assert_eq!(review.context.client.get_model(), "gpt-review");
    assert_eq!(review.context.client.get_model_family().slug, "parent");
    assert_eq!(review.context.client.get_reasoning_effort(), Some(ReasoningEffort::Low));
    assert_eq!(review.context.client.get_reasoning_summary(), ReasoningSummary::Detailed);
    assert!(!review.context.tools_config.features.web_search_request);
    assert!(!review.context.tools_config.features.view_image_tool);
    assert!(review.context.tools_config.features.ghost_commit);
    assert_eq!(review.context.base_instructions.as_deref(), Some("review rules"));
    assert_eq!(review.context.user_instructions, None);
    assert_eq!(review.input, text_input("look at this"));
}

#[test]
fn approvals_reach_their_requests_once() {
    let mut session = session();
    assert_eq!(session.request_command_approval("a".to_string(), 1), None);
    assert_eq!(session.notify_approval("a"), None);
    session.begin_turn();
    assert_eq!(session.request_command_approval("a".to_string(), 1), None);
    assert_eq!(session.request_patch_approval("b".to_string(), 2), None);
    assert_eq!(session.request_command_approval("a".to_string(), 3), Some(1));
    assert_eq!(session.notify_approval("b"), Some(2));
    assert_eq!(session.notify_approval("a"), Some(3));
    assert_eq!(session.notify_approval("a"), None);
    session.request_command_approval("c".to_string(), 4);
    session.end_turn();
    assert_eq!(session.notify_approval("c"), None);
    assert_eq!(decision_or_default(None), ReviewDecision::Denied);
    assert_eq!(
        decision_or_default(Some(ReviewDecision::Approved)),
        ReviewDecision::Approved
    );
}

#[test]
fn input_waits_for_the_task_that_runs() {
    let mut session = session();
    let item = || function_output("c", "x");
    assert_eq!(session.inject_input(text_input("hi"), item()), Err(text_input("hi")));
    assert!(session.get_pending_input().is_empty());
    session.begin_turn();
    assert!(session.inject_input(text_input("hi"), item()).is_ok());
    assert_eq!(session.get_pending_input(), vec![item()]);
    assert!(session.get_pending_input().is_empty());
}

fn usage(total_tokens: i64) -> TokenUsage {
    TokenUsage {
        total_tokens,
        ..TokenUsage::default()
    }
}

#[test]
fn tokens_are_counted() {
    let mut session = session();
    session.override_last_token_usage_estimate(-5, Some(100));
    let info = session.token_info.expect("info");
    assert_eq!(info.last_token_usage, usage(0));
    assert_eq!(info.model_context_window, Some(100));
    session.override_last_token_usage_estimate(7, Some(200));
    let info = session.token_info.expect("info");
    assert_eq!(info.last_token_usage, usage(7));
    assert_eq!(info.model_context_window, Some(100));

    let updated = TokenUsageInfo {
        total_token_usage: usage(30),
        last_token_usage: usage(20),
        model_context_window: Some(100),
    };
    assert_eq!(session.update_token_usage_info(Some(updated)).info, Some(updated));
    assert_eq!(session.update_token_usage_info(None).info, Some(updated));
    assert!(session.set_total_tokens_full(None, updated).is_none());
    let full = TokenUsageInfo {
        total_token_usage: usage(100),
        ..updated
    };
    let count = session.set_total_tokens_full(Some(100), full).expect("a count");
    assert_eq!(count.info, Some(full));
    let limits = RateLimitSnapshot {
        primary: None,
        secondary: None,
        credits: None,
    };
    assert_eq!(session.update_rate_limits(limits.clone()).rate_limits, Some(limits));
}

#[test]
fn snapshots_are_taken_where_the_feature_is_on() {
    let mut session = session();
    assert_eq!(session.maybe_start_ghost_snapshot(Some(3)).expect("a task").token, 3);
    assert!(session.maybe_start_ghost_snapshot(None).is_none());
    session.configuration.features.ghost_commit = false;
    assert!(session.maybe_start_ghost_snapshot(Some(3)).is_none());
}

#[test]
fn submissions_are_numbered() {
    let mut codex = Codex::new();
    assert_eq!(codex.submit(Op::Interrupt).id, "0");
    assert_eq!(codex.submit(Op::Compact).id, "1");
    assert!(Codex::submit_with_id(true).is_ok());
    assert!(matches!(
        Codex::submit_with_id(false),
        Err(CodexErr::InternalAgentDied)
    ));
    assert!(matches!(Codex::next_event(Some(1)), Ok(1)));
    assert!(matches!(
        Codex::next_event::<u32>(None),
        Err(CodexErr::InternalAgentDied)
    ));
}

#[test]
fn submissions_lead_to_actions() {
    let go = |op: Op| submission_loop("7".to_string(), op);
    assert!(matches!(go(Op::Interrupt), (SubmissionAction::InterruptTask, true)));
    match go(Op::UserInput {
        items: text_input("hi"),
    }) {
        (
            SubmissionAction::StartTurn {
                sub_id,
                items,
                updates,
            },
            true,
        ) => {
            assert_eq!(sub_id, "7");
            assert_eq!(items, text_input("hi"));
            assert!(updates.model.is_none());
        }
        other => panic!("unexpected {other:?}"),
    }
    match go(Op::UserTurn {
        items: vec![],
        cwd: "/w".to_string(),
        approval_policy: AskForApproval::Never,
        sandbox_policy: SandboxPolicy::DangerFullAccess,
        model: "m".to_string(),
        effort: None,
        summary: ReasoningSummary::Off,
        final_output_json_schema: None,
    }) {
        (SubmissionAction::StartTurn { updates, .. }, true) => {
            assert_eq!(updates.model.as_deref(), Some("m"));
            assert_eq!(updates.reasoning_effort, Some(None));
            assert_eq!(updates.final_output_json_schema, Some(None));
        }
        other => panic!("unexpected {other:?}"),
    }
    for op in [
        Op::ExecApproval {
            id: "a".to_string(),
            decision: ReviewDecision::Abort,
        },
        Op::PatchApproval {
            id: "a".to_string(),
            decision: ReviewDecision::Abort,
        },
    ] {
        assert!(matches!(go(op), (SubmissionAction::InterruptTask, true)));
    }
    assert!(matches!(
        go(Op::ExecApproval {
            id: "a".to_string(),
            decision: ReviewDecision::Denied
        }),
        (
            SubmissionAction::NotifyApproval {
                decision: ReviewDecision::Denied,
                ..
            },
            true
        )
    ));
    assert!(matches!(go(Op::Unknown), (SubmissionAction::Ignore, true)));
    assert!(matches!(go(Op::Shutdown), (SubmissionAction::Shutdown { .. }, false)));
    assert!(matches!(
        go(Op::RunUserShellCommand {
            command: "ls".to_string()
        }),
        (SubmissionAction::RunShellCommand { .. }, true)
    ));
    assert!(matches!(
        go(Op::OverrideTurnContext {
            cwd: None,
            approval_policy: Some(AskForApproval::Never),
            sandbox_policy: None,
            model: None,
            effort: None,
            summary: None
        }),
        (SubmissionAction::UpdateSettings(u), true) if u.approval_policy == Some(AskForApproval::Never)
    ));
}

#[test]
fn input_is_injected_or_starts_a_task() {
    assert!(matches!(start_turn(Ok(()), None), TurnStart::Injected));
    match start_turn(Err(text_input("hi")), Some(ResponseItem::Other)) {
        TurnStart::Spawn { environment, items } => {
            assert_eq!(environment, Some(ResponseItem::Other));
            assert_eq!(items, text_input("hi"));
        }
        other => panic!("unexpected {other:?}"),
    }
}

#[test]
fn shutting_down_is_reported() {
    assert!(matches!(
        &shutdown("9".to_string(), false)[..],
        [ShutdownEvent::ShutdownComplete { id }] if id == "9"
    ));
    assert!(matches!(
        &shutdown("9".to_string(), true)[..],
        [ShutdownEvent::Error { message, .. }, ShutdownEvent::ShutdownComplete { .. }]
            if message == "Failed to shutdown rollout recorder"
    ));
}

#[test]
fn items_and_outputs_are_recorded() {
    let (responses, recorded) = process_items(vec![
        processed(message("assistant", "a"), None),
        processed(ResponseItem::Other, Some(function_output("c1", "out"))),
        processed(
            ResponseItem::Other,
            Some(ResponseInputItem::McpToolCallOutput {
                call_id: "c2".to_string(),
                result: McpCallResult::Failed("boom".to_string()),
            }),
        ),
        processed(
            ResponseItem::Other,
            Some(ResponseInputItem::CustomToolCallOutput {
                call_id: "c3".to_string(),
                output: "custom".to_string(),
            }),
        ),
    ]);
    assert_eq!(responses.len(), 3);
    assert_eq!(
        recorded,
        vec![
            message("assistant", "a"),
            ResponseItem::Other,
            ResponseItem::Other,
            ResponseItem::Other,
            ResponseItem::FunctionCallOutput {
                call_id: "c1".to_string(),
                output: FunctionCallOutputPayload {
                    content: "out".to_string(),
                    content_items: None,
                    success: None
                }
            },
            ResponseItem::FunctionCallOutput {
                call_id: "c2".to_string(),
                output: FunctionCallOutputPayload {
                    content: "boom".to_string(),
                    content_items: None,
                    success: Some(false)
                }
            },
            ResponseItem::CustomToolCallOutput {
                call_id: "c3".to_string(),
                output: "custom".to_string()
            },
        ]
    );
}

fn reading(call: Result<bool, FunctionCallError>, id: Option<&str>) -> ItemReading {
    ItemReading {
        is_tool_call: call,
        turn_item: id.map(|id| TurnItem {
            id: id.to_string(),
            body: "{}".to_string(),
        }),
    }
}

fn received(event: ResponseEvent, reading: ItemReading) -> TurnEvent {
    TurnEvent::Received { event, reading }
}

#[test]
fn a_turn_goes_through_its_items() {
    let mut turn = TurnState::new();
    assert!(matches!(
        turn.try_run_turn(received(ResponseEvent::Created, reading(Ok(false), None))),
        TurnAction::Wait
    ));
    assert!(matches!(
        turn.try_run_turn(received(
            ResponseEvent::OutputItemAdded(message("assistant", "")),
            reading(Ok(false), Some("i1"))
        )),
        TurnAction::Show {
            started: Some(_),
            completed: None
        }
    ));
    match turn.try_run_turn(received(
        ResponseEvent::OutputTextDelta("he".to_string()),
        reading(Ok(false), None),
    )) {
        TurnAction::Delta {
            kind,
            item_id,
            delta,
        } => {
            assert_eq!(kind, DeltaKind::AgentMessage);
            assert_eq!(item_id, "i1");
            assert_eq!(delta, "he");
        }
        other => panic!("unexpected {other:?}"),
    }
    assert!(matches!(
        turn.try_run_turn(received(
            ResponseEvent::OutputItemDone(message("assistant", "hello")),
            reading(Ok(false), Some("i1"))
        )),
        TurnAction::Show {
            started: None,
            completed: Some(_)
        }
    ));
    assert!(matches!(
        turn.try_run_turn(received(
            ResponseEvent::OutputItemDone(ResponseItem::Other),
            reading(Ok(true), None)
        )),
        TurnAction::StartCall
    ));
    assert_eq!(turn.output.len(), 2);
    assert!(matches!(turn.output[1], OutputSlot::Call(_)));
    assert!(matches!(
        turn.try_run_turn(received(
            ResponseEvent::Completed {
                response_id: "r".to_string(),
                token_usage: Some(usage(3))
            },
            reading(Ok(false), None)
        )),
        TurnAction::Complete {
            token_usage: Some(_)
        }
    ));
}

#[test]
fn an_item_that_was_not_added_is_started_and_completed() {
    let mut turn = TurnState::new();
    assert!(matches!(
        turn.try_run_turn(received(
            ResponseEvent::OutputItemDone(message("assistant", "hello")),
            reading(Ok(false), Some("i1"))
        )),
        TurnAction::Show {
            started: Some(_),
            completed: Some(_)
        }
    ));
}

#[test]
fn calls_that_cannot_be_made_are_answered() {
    for (error, expected) in [
        (
            FunctionCallError::MissingLocalShellCallId,
            "LocalShellCall without call_id or id",
        ),
        (FunctionCallError::RespondToModel("bad".to_string()), "bad"),
        (FunctionCallError::Denied("no".to_string()), "no"),
    ] {
        let mut turn = TurnState::new();
        assert!(matches!(
            turn.try_run_turn(received(
                ResponseEvent::OutputItemDone(ResponseItem::Other),
                reading(Err(error), None)
            )),
            TurnAction::Wait
        ));
        match &turn.output[0] {
            OutputSlot::Ready(ProcessedResponseItem {
                response: Some(response),
                ..
            }) => assert_eq!(response, &function_output("", expected)),
            other => panic!("unexpected {other:?}"),
        }
    }
}

#[test]
fn fatal_tool_error_stops_turn_and_reports_error() {
    let mut turn = TurnState::new();
    match turn.try_run_turn(received(
        ResponseEvent::OutputItemDone(ResponseItem::CustomToolCall {
            id: None,
            status: None,
            call_id: "call-1".to_string(),
            name: "shell".to_string(),
            input: "{}".to_string(),
        }),
        reading(
            Err(FunctionCallError::Fatal(
                "tool shell invoked with incompatible payload".to_string(),
            )),
            None,
        ),
    )) {
        TurnAction::Fail(CodexErr::Fatal(message)) => {
            assert_eq!(message, "tool shell invoked with incompatible payload");
        }
        other => panic!("expected a fatal error, got {other:?}"),
    }
    assert!(turn.output.is_empty());
}

#[test]
fn a_turn_ends_with_its_stream() {
    let mut turn = TurnState::new();
    match turn.try_run_turn(TurnEvent::Closed) {
        TurnAction::Fail(CodexErr::Stream(m, None)) => {
            assert_eq!(m, "stream closed before response.completed")
        }
        other => panic!("unexpected {other:?}"),
    }
    assert!(matches!(turn.try_run_turn(TurnEvent::Cancelled), TurnAction::Abort));
    assert!(matches!(
        turn.try_run_turn(TurnEvent::Failed(CodexErr::Interrupted)),
        TurnAction::Fail(CodexErr::Interrupted)
    ));
    assert!(matches!(
        turn.try_run_turn(received(
            ResponseEvent::ReasoningContentDelta {
                delta: "x".to_string(),
                content_index: 0
            },
            reading(Ok(false), None)
        )),
        TurnAction::Broken(m) if m == "ReasoningRawContentDelta without active item"
    ));
}

fn slots(second: Result<ResponseInputItem, CodexErr>) -> Vec<SettledSlot> {
    vec![
        SettledSlot::Ready(processed(message("assistant", "a"), None)),
        SettledSlot::Called {
            item: ResponseItem::Other,
            outcome: second,
        },
    ]
}

#[test]
fn outcomes_are_collected_in_order() {
    let items = collect_output(slots(Ok(function_output("c", "x")))).expect("items");
    assert_eq!(items[0].item, message("assistant", "a"));
    assert_eq!(items[1].response, Some(function_output("c", "x")));
    assert!(matches!(
        collect_output(slots(Err(CodexErr::Interrupted))),
        Err(CodexErr::Interrupted)
    ));
    let done = completed_turn(slots(Ok(function_output("c", "x"))), Some(usage(1))).expect("done");
    assert_eq!(done.total_token_usage, Some(usage(1)));
    match aborted_turn(slots(Ok(function_output("c", "x")))) {
        CodexErr::TurnAborted { dangling_artifacts } => assert_eq!(dangling_artifacts.len(), 2),
        other => panic!("unexpected {other:?}"),
    }
}

#[test]
fn turns_are_retried_while_there_are_retries() {
    let delay = RetryAfter {
        value: "1".to_string(),
        unit: RetryUnit::Seconds,
    };
    match run_turn(
        Err(CodexErr::Stream("x".to_string(), Some(delay))),
        0,
        2,
    ) {
        TurnVerdict::Retry {
            message,
            delay: Some(_),
            retries: 1,
        } => assert_eq!(message, "Reconnecting... 1/2"),
        other => panic!("unexpected {other:?}"),
    }
    assert!(matches!(
        run_turn(Err(CodexErr::InternalServerError), 2, 2),
        TurnVerdict::Return(Err(CodexErr::InternalServerError))
    ));
    assert!(matches!(
        run_turn(Err(CodexErr::ContextWindowExceeded), 0, 2),
        TurnVerdict::ReturnFull(_)
    ));
    for e in [
        CodexErr::Interrupted,
        CodexErr::QuotaExceeded,
        CodexErr::UsageNotIncluded,
        CodexErr::Fatal("x".to_string()),
        CodexErr::EnvVar("x".to_string()),
        CodexErr::RefreshTokenFailed("x".to_string()),
    ] {
        assert!(matches!(run_turn(Err(e), 0, 2), TurnVerdict::Return(Err(_))));
    }
    assert!(matches!(
        run_turn(
            Err(CodexErr::UsageLimitReached {
                plan_type: None,
                resets_at: None,
                rate_limits: Some(RateLimitSnapshot {
                    primary: None,
                    secondary: None,
                    credits: None
                })
            }),
            0,
            2
        ),
        TurnVerdict::ReturnLimited { .. }
    ));
}

fn turn_output(items: Vec<ProcessedResponseItem>) -> Result<TurnRunResult, CodexErr> {
    Ok(TurnRunResult {
        processed_items: items,
        total_token_usage: None,
    })
}

#[test]
fn a_task_ends_with_the_last_message() {
    let mut task = TaskState::new();
    let step = task.run_task(
        turn_output(vec![processed(ResponseItem::Other, Some(function_output("c", "x")))]),
        None,
        None,
    );
    assert!(matches!(step.next, TaskNext::GoOn));
    assert_eq!(step.to_record.len(), 2);
    let step = task.run_task(
        turn_output(vec![processed(message("assistant", "bye"), None)]),
        None,
        None,
    );
    assert!(matches!(step.next, TaskNext::Done(Some(m)) if m == "bye"));
    assert!(!has_task(&vec![]));
    assert!(has_task(&text_input("x")));
}

#[test]
fn a_conversation_is_summarised_once_in_a_row() {
    let mut task = TaskState::new();
    let go = |task: &mut TaskState, tokens: i64| {
        task.run_task(turn_output(vec![]), Some(100), Some(tokens)).next
    };
    assert!(matches!(go(&mut task, 100), TaskNext::AutoCompact));
    match go(&mut task, 150) {
        TaskNext::StillAboveLimit(m) => assert_eq!(
            m,
            "Conversation is still above the token limit after automatic summarization (limit 100, current 150). Please start a new session or trim your input."
        ),
        other => panic!("unexpected {other:?}"),
    }
    let mut task = TaskState::new();
    assert!(matches!(go(&mut task, 100), TaskNext::AutoCompact));
    assert!(matches!(go(&mut task, 99), TaskNext::Done(None)));
    assert!(matches!(go(&mut task, 100), TaskNext::AutoCompact));
}

#[test]
fn an_aborted_turn_keeps_what_there_is() {
    let mut task = TaskState::new();
    let step = task.run_task(
        Err(CodexErr::TurnAborted {
            dangling_artifacts: vec![processed(message("assistant", "half"), None)],
        }),
        None,
        None,
    );
    assert_eq!(step.to_record, vec![message("assistant", "half")]);
    assert!(matches!(step.next, TaskNext::Aborted));
    assert!(matches!(
        task.run_task(Err(CodexErr::QuotaExceeded), None, None).next,
        TaskNext::Failed(CodexErr::QuotaExceeded)
    ));
}

#[test]
fn the_last_text_of_the_assistant_counts() {
    let items = vec![
        message("assistant", "first"),
        message("assistant", "second"),
        message("user", "third"),
        ResponseItem::Message {
            id: None,
            role: "assistant".to_string(),
            content: vec![ContentItem::InputText {
                text: "not output".to_string(),
            }],
        },
    ];
    assert_eq!(
        get_last_assistant_message_from_turn(&items).as_deref(),
        Some("second")
    );
    assert_eq!(get_last_assistant_message_from_turn(&vec![]), None);
}

fn initial_context() -> Vec<ResponseItem> {
    build_initial_context(None, None, message("user", "<environment_context/>"))
}

fn record_item(mut history: Vec<ResponseItem>, item: ResponseItem) -> Vec<ResponseItem> {
    history.push(item);
    history
}

/// The initial context, what the user said, and the summary.
fn compacted(history: Vec<ResponseItem>, summary: String) -> Vec<ResponseItem> {
    let known = initial_context();
    let said: Vec<ResponseItem> = history
        .into_iter()
        .filter(|item| matches!(item, ResponseItem::Message { role, .. } if role == "user"))
        .filter(|item| !known.contains(item))
        .collect();
    let mut rebuilt = initial_context();
    rebuilt.extend(said);
    rebuilt.push(message("user", &summary));
    rebuilt
}

fn sample_rollout() -> (Vec<RolloutItem>, Vec<ResponseItem>) {
    let mut rollout_items = vec![];
    let mut live_history = vec![];
    let turns = [
        ("first user", "assistant reply one", Some("summary one")),
        ("second user", "assistant reply two", Some("summary two")),
        ("third user", "assistant reply three", None),
    ];
    for item in initial_context() {
        rollout_items.push(RolloutItem::ResponseItem(item.clone()));
        live_history = record_item(live_history, item);
    }
    for (user, assistant, summary) in turns {
        for item in [message("user", user), message("assistant", assistant)] {
            live_history = record_item(live_history, item.clone());
            rollout_items.push(RolloutItem::ResponseItem(item));
        }
        if let Some(summary) = summary {
            live_history = compacted(live_history, summary.to_string());
            rollout_items.push(RolloutItem::Compacted {
                message: summary.to_string(),
            });
        }
    }
    (rollout_items, live_history)
}

#[test]
fn reconstruct_history_matches_live_compactions() {
    let (rollout_items, expected) = sample_rollout();

    let reconstructed = reconstruct_history_from_rollout(rollout_items, record_item, compacted);

    assert_eq!(expected, reconstructed);
}

fn recorded_initially(initial: InitialHistory) -> Vec<ResponseItem> {
    match record_initial_history(initial, "gpt-test") {
        InitialRecord::Replay { history, .. } => {
            reconstruct_history_from_rollout(history, record_item, compacted)
        }
        InitialRecord::RecordContext => panic!("a history is replayed"),
    }
}

#[test]
fn record_initial_history_reconstructs_resumed_transcript() {
    let (rollout_items, expected) = sample_rollout();

    let actual = recorded_initially(InitialHistory::Resumed {
        conversation_id: "conv".to_string(),
        rollout_path: "/tmp/resume.jsonl".to_string(),
        history: rollout_items,
    });

    assert_eq!(expected, actual);
}

#[test]
fn record_initial_history_reconstructs_forked_transcript() {
    let (rollout_items, expected) = sample_rollout();

    let actual = recorded_initially(InitialHistory::Forked {
        history: rollout_items,
    });

    assert_eq!(expected, actual);
}

#[test]
fn lines_of_other_kinds_change_nothing() {
    let history = reconstruct_history_from_rollout(
        vec![
            RolloutItem::Other {
                body: "{}".to_string(),
            },
            RolloutItem::ResponseItem(message("user", "one")),
            turn_context("gpt-test"),
        ],
        record_item,
        compacted,
    );
    assert_eq!(history, vec![message("user", "one")]);
}

fn turn_context(model: &str) -> RolloutItem {
    RolloutItem::TurnContext {
        model: model.to_string(),
        body: "{}".to_string(),
    }
}

#[test]
fn resuming_with_another_model_is_warned_of() {
    let resumed = |history: Vec<RolloutItem>| InitialHistory::Resumed {
        conversation_id: "conv".to_string(),
        rollout_path: "/tmp/resume.jsonl".to_string(),
        history,
    };
    match record_initial_history(resumed(vec![turn_context("old"), turn_context("new")]), "curr") {
        InitialRecord::Replay {
            warning: Some(m),
            persist: false,
            ..
        } => assert_eq!(
            m,
            "This session was recorded with model `new` but is resuming with `curr`. Consider switching back to `new` as it may affect Codex performance."
        ),
        other => panic!("unexpected {other:?}"),
    }
    assert!(matches!(
        record_initial_history(resumed(vec![turn_context("curr")]), "curr"),
        InitialRecord::Replay { warning: None, .. }
    ));
    assert!(matches!(
        record_initial_history(
            InitialHistory::Forked {
                history: vec![turn_context("old")]
            },
            "curr"
        ),
        InitialRecord::Replay {
            warning: None,
            persist: true,
            ..
        }
    ));
    assert!(matches!(
        record_initial_history(InitialHistory::New, "curr"),
        InitialRecord::RecordContext
    ));
    let (id, params) = rollout_params(
        &resumed(vec![]),
        &"fresh".to_string(),
        &None,
        &SessionSource::FrontEnd("cli".to_string()),
    );
    assert_eq!(id, "conv");
    assert!(matches!(
        params,
        RolloutRecorderParams::Resume { path } if path == "/tmp/resume.jsonl"
    ));
    let (id, params) = rollout_params(
        &InitialHistory::New,
        &"fresh".to_string(),
        &Some("be kind".to_string()),
        &SessionSource::FrontEnd("cli".to_string()),
    );
    assert_eq!(id, "fresh");
    assert!(matches!(
        params,
        RolloutRecorderParams::Create {
            conversation_id,
            instructions: Some(text),
            source: SessionSource::FrontEnd(name),
        } if conversation_id == "fresh" && text == "be kind" && name == "cli"
    ));
}

#[test]
fn a_conversation_begins_with_instructions_and_environment() {
    assert_eq!(
        build_initial_context(
            Some(message("developer", "d")),
            Some(message("user", "u")),
            message("user", "env")
        ),
        vec![message("developer", "d"), message("user", "u"), message("user", "env")]
    );
    assert_eq!(
        build_initial_context(None, None, message("user", "env")),
        vec![message("user", "env")]
    );
    assert_eq!(build_environment_update_item(None, ResponseItem::Other), None);
    assert_eq!(build_environment_update_item(Some(true), ResponseItem::Other), None);
    assert_eq!(
        build_environment_update_item(Some(false), ResponseItem::Other),
        Some(ResponseItem::Other)
    );
}

#[test]
fn the_user_is_told_how_a_session_begins() {
    let (session, events) = begin(
        configuration(),
        SessionSetup {
            failed_clients: Ok(vec![FailedClient {
                server_name: "s".to_string(),
                entry: None,
                error: client_error("boom"),
            }]),
            legacy_feature_usages: vec![
                ("old".to_string(), "new".to_string()),
                ("same".to_string(), "same".to_string()),
            ],
            ..setup()
        },
    )
    .expect("a session");
    assert_eq!(session.conversation_id, "conv");
    assert_eq!(events.len(), 4);
    assert!(matches!(
        &events[0],
        StartupEvent::SessionConfigured(c)
            if c.session_id == "conv" && c.model == "gpt-test" && c.rollout_path == "/tmp/rollout.jsonl"
    ));
    assert!(matches!(
        &events[1],
        StartupEvent::Error { message } if message == "MCP client for `s` failed to start: boom"
    ));
    match &events[2] {
        StartupEvent::DeprecationNotice {
            summary,
            details: Some(details),
        } => {
            assert_eq!(summary, "`old` is deprecated. Use `new` instead.");
            assert_eq!(
                details,
                "Enable it with `--enable new` or `[features].new` in config.toml. See https://github.com/openai/codex/blob/main/docs/config.md#feature-flags for details."
            );
        }
        other => panic!("unexpected {other:?}"),
    }
    assert!(matches!(
        &events[3],
        StartupEvent::DeprecationNotice { details: None, .. }
    ));
    let (_, events) = begin(
        configuration(),
        SessionSetup {
            failed_clients: Err("x".to_string()),
            ..setup()
        },
    )
    .expect("a session");
    assert!(matches!(
        &events[1],
        StartupEvent::Error { message }
            if message == "Failed to create MCP connection manager: x"
    ));
}

#[test]
fn a_session_begins_in_a_directory_of_windows() {
    let on = |cwd: &str, on_windows: bool| {
        Session::new(
            SessionConfiguration {
                cwd: cwd.to_string(),
                ..configuration()
            },
            &InitialHistory::New,
            &"conv".to_string(),
            setup(),
            on_windows,
        )
    };
    assert!(on(r"C:\work", true).is_ok());
    assert!(on(r"\\server\share", true).is_ok());
    assert!(on(r"C:work", true).is_err());
    assert!(on("/work", true).is_err());
    assert!(on(r"C:\work", false).is_err());
}

#[test]
fn a_session_needs_a_root_and_a_record() {
    let relative = SessionConfiguration {
        cwd: "work".to_string(),
        ..configuration()
    };
    assert_eq!(
        begin(relative, setup()).unwrap_err(),
        "cwd is not absolute: \"work\""
    );
    let awkward = SessionConfiguration {
        cwd: "a \"b\"\n".to_string(),
        ..configuration()
    };
    assert_eq!(
        begin(awkward, setup()).unwrap_err(),
        "cwd is not absolute: \"a \\\"b\\\"\\n\""
    );
    let unwritable = SessionSetup {
        rollout: Err("disk full".to_string()),
        ..setup()
    };
    assert_eq!(
        begin(configuration(), unwritable).unwrap_err(),
        "failed to initialize rollout recorder: disk full"
    );
}

fn client_error(text: &str) -> McpClientError {
    let err = anyhow::Error::msg(text.to_string());
    McpClientError {
        message: err.to_string(),
        chain: format!("{err:#}"),
    }
}

fn entry(url: &str, token: Option<&str>, startup: Option<u64>) -> McpAuthStatusEntry {
    McpAuthStatusEntry {
        config: McpServerConfig {
            transport: McpServerTransportConfig::StreamableHttp {
                url: url.to_string(),
                bearer_token_env_var: token.map(str::to_string),
                http_headers: None,
                env_http_headers: None,
            },
            enabled: true,
            startup_timeout_sec: startup.map(|secs| Timeout { secs, nanos: 0 }),
            tool_timeout_sec: None,
            enabled_tools: None,
            disabled_tools: None,
        },
        auth_status: "unsupported".to_string(),
    }
}

#[test]
fn mcp_init_error_display_prompts_for_github_pat() {
    let server_name = "github";
    let entry = entry("https://api.githubcopilot.com/mcp/", None, None);
    let err = client_error("OAuth is unsupported");

    let display = mcp_init_error_display(server_name, Some(&entry), &err);

    let expected = format!(
        "GitHub MCP does not support OAuth. Log in by adding a personal access token (https://github.com/settings/personal-access-tokens) to your environment and config.toml:\n[mcp_servers.{server_name}]\nbearer_token_env_var = CODEX_GITHUB_PERSONAL_ACCESS_TOKEN"
    );

    assert_eq!(expected, display);
}

#[test]
fn mcp_init_error_display_prompts_for_login_when_auth_required() {
    let server_name = "example";
    let err = client_error("Auth required for server");

    let display = mcp_init_error_display(server_name, None, &err);

    let expected = format!(
        "The {server_name} MCP server is not logged in. Run `codex mcp login {server_name}`."
    );

    assert_eq!(expected, display);
}

#[test]
fn mcp_init_error_display_reports_generic_errors() {
    let server_name = "custom";
    let entry = entry("https://example.com", Some("TOKEN"), None);
    let err = client_error("boom");

    let display = mcp_init_error_display(server_name, Some(&entry), &err);

    let expected = format!("MCP client for `{server_name}` failed to start: {}", err.chain);

    assert_eq!(expected, display);
}

#[test]
fn mcp_init_error_display_includes_startup_timeout_hint() {
    let server_name = "slow";
    let err = client_error("request timed out");

    let display = mcp_init_error_display(server_name, None, &err);

    assert_eq!(
        "MCP client for `slow` timed out after 10 seconds. Add or adjust `startup_timeout_sec` in your config.toml:\n[mcp_servers.slow]\nstartup_timeout_sec = XX",
        display
    );
    let configured = entry("https://example.com", Some("T"), Some(42));
    let err = client_error("timed out handshaking with MCP server");
    assert!(mcp_init_error_display(server_name, Some(&configured), &err)
        .starts_with("MCP client for `slow` timed out after 42 seconds."));
}

fn known() -> KnownModel {
    KnownModel {
        family: None,
        info: None,
    }
}

fn as_item(input: &Vec<UserInput>) -> ResponseInputItem {
    ResponseInputItem::Message {
        role: "user".to_string(),
        content: input
            .iter()
            .map(|i| match i {
                UserInput::Text { text } => ContentItem::InputText { text: text.clone() },
                other => panic!("unexpected {other:?}"),
            })
            .collect(),
    }
}

#[test]
fn settings_of_a_session_can_be_changed_between_turns() {
    let mut session = session();
    let earlier = session.configuration.model.clone();
    session.update_settings(SessionSettingsUpdate {
        cwd: Some("/elsewhere".to_string()),
        approval_policy: Some(AskForApproval::Never),
        ..SessionSettingsUpdate::default()
    });
    assert_eq!(session.configuration.cwd, "/elsewhere");
    assert_eq!(session.configuration.approval_policy, AskForApproval::Never);
    assert_eq!(session.configuration.model, earlier);
}

#[test]
fn settings_of_a_turn_last_even_if_a_task_takes_the_input() {
    let mut session = session();
    let updates = || SessionSettingsUpdate {
        model: Some("other".to_string()),
        ..SessionSettingsUpdate::default()
    };
    let items = text_input("hello");
    let item = as_item(&items);
    let (context, left) = begin_user_turn(
        &mut session,
        "1".to_string(),
        items,
        item,
        updates(),
        known(),
    );
    assert_eq!(left, Err(text_input("hello")));
    assert_eq!(context.sub_id, "1");
    assert_eq!(context.client.get_model(), "other");

    session.begin_turn();
    let items = text_input("more");
    let item = as_item(&items);
    let (context, left) = begin_user_turn(
        &mut session,
        "2".to_string(),
        items,
        item,
        SessionSettingsUpdate {
            model: Some("third".to_string()),
            ..SessionSettingsUpdate::default()
        },
        known(),
    );
    assert_eq!(left, Ok(()));
    assert_eq!(context.client.get_model(), "third");
    assert_eq!(session.configuration.model, "third");
    assert_eq!(session.get_pending_input(), vec![as_item(&text_input("more"))]);
}

#[test]
fn tasks_are_started_for_the_user() {
    let mut session = session();
    let start = run_user_shell_command(
        &mut session,
        "3".to_string(),
        "ls -la".to_string(),
        known(),
    );
    assert_eq!(start.context.sub_id, "3");
    assert_eq!(start.items, vec![]);
    assert!(matches!(
        start.task,
        SpawnedTask::UserShellCommand(task) if task.command == "ls -la"
    ));
    let start = undo(&mut session, "4".to_string(), known());
    assert_eq!(start.context.sub_id, "4");
    assert!(matches!(start.task, SpawnedTask::Undo));

    let usual = "usual".to_string();
    let start = compact(&mut session, "5".to_string(), &usual, as_item, known())
        .expect("no task runs");
    let expected = text_input(&start.context.compact_prompt(&usual));
    assert_eq!(start.items, expected);
    assert!(matches!(start.task, SpawnedTask::Compact(_)));
    session.begin_turn();
    assert!(compact(&mut session, "6".to_string(), &usual, as_item, known()).is_none());
    assert_eq!(session.get_pending_input(), vec![as_item(&expected)]);

    let thread = review(
        &mut session,
        &config(),
        "7".to_string(),
        known(),
        known(),
        &"instructions".to_string(),
        "look at this".to_string(),
    );
    assert_eq!(thread.context.sub_id, "7");
    assert_eq!(thread.input, text_input("look at this"));
    assert_eq!(
        thread.context.base_instructions,
        Some("instructions".to_string())
    );
}

#[test]
fn requests_for_lists_are_answered() {
    let added = add_to_history(&session(), "typed".to_string());
    assert_eq!(added.conversation_id, "conv");
    assert_eq!(added.text, "typed");

    let answer = get_history_entry_request(
        "8".to_string(),
        3,
        77,
        Some(KeptEntry {
            session_id: "earlier".to_string(),
            ts: 12,
            text: "typed".to_string(),
        }),
    );
    assert_eq!(answer.id, "8");
    assert_eq!((answer.offset, answer.log_id), (3, 77));
    assert!(matches!(
        answer.entry,
        Some(HistoryEntry { conversation_id, ts: 12, text })
            if conversation_id == "earlier" && text == "typed"
    ));
    assert!(get_history_entry_request("8".to_string(), 3, 77, None).entry.is_none());

    let mut manager = McpConnectionManager::empty();
    manager.tools.push((
        "mcp__s__t".to_string(),
        ToolInfo {
            server_name: "s".to_string(),
            tool_name: "t".to_string(),
            tool: "{}".to_string(),
        },
    ));
    let answer = list_mcp_tools(
        "9".to_string(),
        &manager,
        vec![
            ("s".to_string(), Some("[1]".to_string())),
            ("broken".to_string(), None),
        ],
        vec![("s".to_string(), Some("[2]".to_string()))],
        &vec![("s".to_string(), entry("https://example.com", None, None))],
    );
    assert_eq!(answer.id, "9");
    assert_eq!(answer.tools, vec![("mcp__s__t".to_string(), "{}".to_string())]);
    assert_eq!(answer.resources, vec![("s".to_string(), "[1]".to_string())]);
    assert_eq!(
        answer.resource_templates,
        vec![("s".to_string(), "[2]".to_string())]
    );
    assert_eq!(
        answer.auth_statuses,
        vec![("s".to_string(), "unsupported".to_string())]
    );

    let answer = list_custom_prompts("10".to_string(), Some(vec!["{}".to_string()]));
    assert_eq!(answer.custom_prompts, vec!["{}".to_string()]);
    assert!(list_custom_prompts("10".to_string(), None).custom_prompts.is_empty());
}

#[test]
fn the_user_is_told_of_changed_files() {
    assert_eq!(turn_diff(Ok(Some("diff".to_string()))), Some("diff".to_string()));
    assert_eq!(turn_diff(Ok(None)), None);
    assert_eq!(turn_diff(Err("no repository".to_string())), None);
}

#[test]
fn an_agent_is_gone_where_its_session_cannot_begin() {
    let spawned = Codex::spawn(
        configuration(),
        &InitialHistory::New,
        &"conv".to_string(),
        setup(),
        false,
    )
    .expect("a session");
    assert_eq!(spawned.conversation_id, "conv");
    assert_eq!(spawned.session.conversation_id, "conv");
    assert_eq!(spawned.codex.next_id, 0);
    assert!(matches!(spawned.events[0], StartupEvent::SessionConfigured(_)));
    assert!(matches!(
        Codex::spawn(
            configuration(),
            &InitialHistory::New,
            &"conv".to_string(),
            SessionSetup {
                rollout: Err("disk full".to_string()),
                ..setup()
            },
            false,
        ),
        Err(CodexErr::InternalAgentDied)
    ));
}
