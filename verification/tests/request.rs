use codex_core::client::model_client::{
    fixture_stream, ModelClient, ModelConfig, ModelFamily, ModelInfo, ModelProviderInfo, Prompt,
    SessionSource, StreamPlan, WireApi,
};
use codex_core::client::request::{
    attach_item_ids, compact_headers, effective_context_window,
    request_options, stream_headers, CompactReply, ModelOptions, RequestAuth, SubAgentSource,
    Verbosity,
};
use codex_core::error::CodexErr;
use codex_core::json::JsonValue;
use codex_core::protocol::{ReasoningEffort, ReasoningSummary, ResponseItem};

fn options(supports_reasoning_summaries: bool, azure: bool) -> ModelOptions {
    ModelOptions {
        supports_reasoning_summaries,
        default_reasoning_effort: Some(ReasoningEffort::Medium),
        support_verbosity: true,
        default_verbosity: Some(Verbosity::Low),
        effort: None,
        summary: ReasoningSummary::Auto,
        model_verbosity: None,
        is_azure_responses_endpoint: azure,
    }
}

#[test]
fn reasoning_is_asked_for_where_the_model_summarises_it() {
    let with = request_options(&options(true, false));
    let reasoning = with.reasoning.expect("reasoning");
    assert_eq!(reasoning.effort, Some(ReasoningEffort::Medium));
    assert_eq!(with.extra_output, vec!["reasoning.encrypted_content"]);
    assert_eq!(with.verbosity, Some(Verbosity::Low));
    assert!(!with.store);
    assert!(with.stream);
    assert_eq!(with.tool_choice, "auto");
    let without = request_options(&options(false, true));
    assert!(without.reasoning.is_none());
    assert!(without.extra_output.is_empty());
    assert!(without.store);
}

#[test]
fn headers_tell_conversation_and_account() {
    let auth = || {
        Some(RequestAuth {
            is_chatgpt: true,
            account_id: Some("acc".to_string()),
        })
    };
    let headers = stream_headers(Some(SubAgentSource::Other("mine".to_string())), "conv", auth());
    assert!(headers.contains(&("conversation_id".to_string(), "conv".to_string())));
    assert!(headers.contains(&("x-openai-subagent".to_string(), "mine".to_string())));
    assert!(headers.contains(&("chatgpt-account-id".to_string(), "acc".to_string())));
    let headers = compact_headers(Some(SubAgentSource::Known(None)), auth());
    assert!(headers.contains(&("x-openai-subagent".to_string(), "other".to_string())));
}

#[test]
fn the_context_window_is_a_part_of_the_whole() {
    assert_eq!(effective_context_window(None, None, 95), None);
    assert_eq!(effective_context_window(None, Some(1000), 95), Some(950));
    assert_eq!(effective_context_window(Some(200), Some(1000), 95), Some(190));
    assert_eq!(
        effective_context_window(Some(i64::MAX), None, 95),
        Some(i64::MAX.saturating_mul(95) / 100)
    );
}

#[test]
fn a_compacted_history_is_read_from_the_reply() {
    assert_eq!(
        ModelClient::compact_conversation_history(CompactReply::NothingToCompact).expect("no items"),
        vec![]
    );
    assert!(ModelClient::compact_conversation_history(CompactReply::Answered {
        status: 200,
        body: "{}".to_string(),
        output: Ok(vec![ResponseItem::Other]),
    })
    .is_ok());
    assert!(matches!(
        ModelClient::compact_conversation_history(CompactReply::Answered {
            status: 400,
            body: "bad".to_string(),
            output: Err("x".to_string()),
        }),
        Err(CodexErr::UnexpectedStatus { status: 400, .. })
    ));
    assert!(matches!(
        ModelClient::compact_conversation_history(CompactReply::ConnectionFailed("down".to_string())),
        Err(CodexErr::ConnectionFailed { .. })
    ));
}

#[test]
fn ids_are_attached_to_the_items_of_a_request() {
    let items = vec![
        ResponseItem::Message {
            id: Some("m1".to_string()),
            role: "user".to_string(),
            content: vec![],
        },
        ResponseItem::Other,
    ];
    let object = || JsonValue::Object(vec![("type".to_string(), JsonValue::Text("x".to_string()))]);
    let payload = JsonValue::Object(vec![(
        "input".to_string(),
        JsonValue::Array(vec![object(), object()]),
    )]);
    let with_ids = attach_item_ids(payload, &items);
    let JsonValue::Object(members) = with_ids else {
        panic!("an object");
    };
    let JsonValue::Array(list) = &members[0].1 else {
        panic!("an array");
    };
    let JsonValue::Object(first) = &list[0] else {
        panic!("an object");
    };
    assert!(first
        .iter()
        .any(|(name, value)| name == "id" && matches!(value, JsonValue::Text(t) if t == "m1")));
    let JsonValue::Object(second) = &list[1] else {
        panic!("an object");
    };
    assert!(second.iter().all(|(name, _)| name != "id"));
}

fn client(wire_api: WireApi, raw: bool) -> ModelClient {
    ModelClient::new(
        ModelConfig {
            model: "gpt-test".to_string(),
            model_family: ModelFamily {
                slug: "gpt".to_string(),
                effective_context_window_percent: 95,
                supports_reasoning_summaries: true,
                default_reasoning_effort: None,
                support_verbosity: false,
                default_verbosity: None,
                supports_parallel_tool_calls: true,
            },
            model_info: Some(ModelInfo {
                context_window: 1000,
                auto_compact_token_limit: Some(900),
            }),
            model_context_window: None,
            model_auto_compact_token_limit: None,
            model_verbosity: None,
            show_raw_agent_reasoning: raw,
        },
        ModelProviderInfo {
            name: "test".to_string(),
            wire_api,
            request_max_retries: 0,
            stream_max_retries: 0,
            stream_idle_timeout_ms: 1000,
            is_azure_responses_endpoint: false,
        },
        Some(ReasoningEffort::High),
        ReasoningSummary::Concise,
        "conv".to_string(),
        SessionSource::FrontEnd("cli".to_string()),
    )
}

#[test]
fn a_client_answers_for_its_settings() {
    let client = client(WireApi::Responses, false);
    assert_eq!(client.get_model(), "gpt-test");
    assert_eq!(client.get_model_family().slug, "gpt");
    assert_eq!(client.get_model_context_window(), Some(950));
    assert_eq!(client.get_auto_compact_token_limit(), Some(900));
    assert_eq!(client.get_reasoning_effort(), Some(ReasoningEffort::High));
    assert_eq!(client.get_reasoning_summary(), ReasoningSummary::Concise);
    assert_eq!(client.get_provider().name, "test");
    assert_eq!(client.config().model, client.get_model());
    assert_eq!(client.provider().stream_idle_timeout_ms, 1000);
    assert!(matches!(
        client.get_session_source(),
        SessionSource::FrontEnd(name) if name == "cli"
    ));
}

fn prompt(input: Vec<ResponseItem>) -> Prompt {
    Prompt {
        instructions: "be brief".to_string(),
        input,
        tools: "[]".to_string(),
        parallel_tool_calls: true,
        output_schema: None,
    }
}

#[test]
fn an_empty_history_is_not_compacted() {
    let client = client(WireApi::Responses, false);
    assert!(client.compact_request(prompt(vec![])).is_none());
    let request = client
        .compact_request(prompt(vec![ResponseItem::Other]))
        .expect("a history");
    assert_eq!(request.model, "gpt-test");
    assert_eq!(request.instructions, "be brief");
    assert_eq!(request.input, vec![ResponseItem::Other]);
}

#[test]
fn the_provider_decides_how_an_answer_is_streamed() {
    let StreamPlan::Responses(request) =
        client(WireApi::Responses, false).stream(prompt(vec![ResponseItem::Other]), None)
    else {
        panic!("the responses interface");
    };
    assert_eq!(request.model, "gpt-test");
    assert_eq!(request.prompt_cache_key, "conv");
    assert_eq!(request.prompt.instructions, "be brief");
    assert_eq!(request.prompt.input, vec![ResponseItem::Other]);
    assert!(request.prompt.parallel_tool_calls);
    assert!(request.options.reasoning.is_some());
    assert!(matches!(
        client(WireApi::Responses, false).stream(prompt(vec![]), Some("f".to_string())),
        StreamPlan::Fixture(path) if path == "f"
    ));
    assert!(matches!(
        client(WireApi::Chat, true).stream(prompt(vec![]), None),
        StreamPlan::ChatStreaming(_)
    ));
    assert!(matches!(
        client(WireApi::Chat, false).stream(prompt(vec![]), Some("f".to_string())),
        StreamPlan::ChatAggregated(p) if p.instructions == "be brief"
    ));
    assert_eq!(fixture_stream(&vec!["a".to_string(), "b".to_string()]), "a\n\nb\n\n");
}
