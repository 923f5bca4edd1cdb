use codex_core::client::sse::{
    delay_from_groups, is_context_window_error, is_quota_exceeded_error, process_sse,
    try_parse_retry_after, ApiError, ItemPayload, ResponseCompleted, ResponseCompletedUsage,
    ResponseEvent, ResponsePayload, SseAction, SseEvent, SseInput, SseState,
};
use codex_core::error::{CodexErr, RetryAfter, RetryUnit};
use codex_core::protocol::{ContentItem, ResponseItem, TokenUsage};
use serde_json::Value;
use std::time::Duration;

fn text(value: &Value, name: &str) -> Option<String> {
    value.get(name).and_then(Value::as_str).map(str::to_string)
}

fn api_error(value: &Value) -> ApiError {
    ApiError {
        kind: text(value, "type"),
        code: text(value, "code"),
        message: text(value, "message"),
        plan_type: text(value, "plan_type"),
        resets_at: value.get("resets_at").and_then(Value::as_i64),
    }
}

fn completed(value: &Value) -> Result<ResponseCompleted, String> {
    let id = text(value, "id").ok_or_else(|| "missing field `id`".to_string())?;
    let usage = value.get("usage").filter(|u| !u.is_null()).map(|u| {
        let number = |v: Option<&Value>| v.and_then(Value::as_i64);
        ResponseCompletedUsage {
            input_tokens: number(u.get("input_tokens")).unwrap_or(0),
            cached_tokens: number(u.get("input_tokens_details").and_then(|d| d.get("cached_tokens"))),
            output_tokens: number(u.get("output_tokens")).unwrap_or(0),
            reasoning_tokens: number(
                u.get("output_tokens_details").and_then(|d| d.get("reasoning_tokens")),
            ),
            total_tokens: number(u.get("total_tokens")).unwrap_or(0),
        }
    });
    Ok(ResponseCompleted { id, usage })
}

fn item(value: &Value) -> ItemPayload {
    let content = value
        .get("content")
        .and_then(Value::as_array)
        .map(|parts| {
            parts
                .iter()
                .map(|part| ContentItem::OutputText {
                    text: text(part, "text").unwrap_or_default(),
                })
                .collect()
        })
        .unwrap_or_default();
    match (text(value, "type").as_deref(), text(value, "role")) {
        (Some("message"), Some(role)) => ItemPayload::Item(ResponseItem::Message {
            id: text(value, "id"),
            role,
            content,
        }),
        _ => ItemPayload::Unreadable,
    }
}

fn input(data: &str) -> SseInput {
    let value: Value = match serde_json::from_str(data) {
        Ok(value) => value,
        Err(_) => return SseInput::Unreadable,
    };
    let kind = match text(&value, "type") {
        Some(kind) => kind,
        None => return SseInput::Unreadable,
    };
    SseInput::Event(SseEvent {
        kind,
        response: value.get("response").map(|r| ResponsePayload {
            error: r.get("error").map(|e| Ok(api_error(e))),
            completed: completed(r),
        }),
        item: match value.get("item") {
            Some(i) => item(i),
            None => ItemPayload::Absent,
        },
        delta: text(&value, "delta"),
        summary_index: value.get("summary_index").and_then(Value::as_i64),
        content_index: value.get("content_index").and_then(Value::as_i64),
    })
}

fn collect_inputs(inputs: Vec<SseInput>) -> Vec<Result<ResponseEvent, CodexErr>> {
    let mut state = SseState::new();
    let mut events = vec![];
    for next in inputs {
        let (after, action) = process_sse(state, next);
        state = after;
        match action {
            SseAction::Wait => {}
            SseAction::Send(event) | SseAction::SendAndIgnore(event) => events.push(Ok(event)),
            SseAction::Finish(outcome) => {
                events.push(outcome);
                break;
            }
        }
    }
    events
}

/// Runs the parser on the data of events, followed by the end of the stream.
fn collect_events(data: &[&str]) -> Vec<Result<ResponseEvent, CodexErr>> {
    let mut inputs: Vec<SseInput> = data.iter().map(|d| input(d)).collect();
    inputs.push(SseInput::Closed);
    collect_inputs(inputs)
}

const ITEM1: &str = r#"{"type":"response.output_item.done","item":{"type":"message","role":"assistant","content":[{"type":"output_text","text":"Hello"}]}}"#;
const ITEM2: &str = r#"{"type":"response.output_item.done","item":{"type":"message","role":"assistant","content":[{"type":"output_text","text":"World"}]}}"#;
const COMPLETED: &str = r#"{"type":"response.completed","response":{"id":"resp1"}}"#;

#[test]
fn parses_items_and_completed() {
    let events = collect_events(&[ITEM1, ITEM2, COMPLETED]);

    assert_eq!(events.len(), 3);

    assert!(matches!(
        &events[0],
        Ok(ResponseEvent::OutputItemDone(ResponseItem::Message { role, .. }))
            if role == "assistant"
    ));

    assert!(matches!(
        &events[1],
        Ok(ResponseEvent::OutputItemDone(ResponseItem::Message { role, .. }))
            if role == "assistant"
    ));

    match &events[2] {
        Ok(ResponseEvent::Completed {
            response_id,
            token_usage,
        }) => {
            assert_eq!(response_id, "resp1");
            assert!(token_usage.is_none());
        }
        other => panic!("unexpected third event: {other:?}"),
    }
}

#[test]
fn error_when_missing_completed() {
    let events = collect_events(&[ITEM1]);

    assert_eq!(events.len(), 2);

    assert!(matches!(events[0], Ok(ResponseEvent::OutputItemDone(_))));

    match &events[1] {
        Err(CodexErr::Stream(msg, _)) => {
            assert_eq!(msg, "stream closed before response.completed")
        }
        other => panic!("unexpected second event: {other:?}"),
    }
}

fn duration(delay: &RetryAfter) -> Duration {
    let value: f64 = delay.value.parse().expect("a numeral");
    match delay.unit {
        RetryUnit::Seconds => Duration::from_secs_f64(value),
        RetryUnit::Milliseconds => Duration::from_millis(value as u64),
    }
}

#[test]
fn error_when_error_event() {
    let raw_error = r#"{"type":"response.failed","sequence_number":3,"response":{"id":"resp_689bcf18d7f08194bf3440ba62fe05d803fee0cdac429894","object":"response","created_at":1755041560,"status":"failed","background":false,"error":{"code":"rate_limit_exceeded","message":"Rate limit reached for gpt-5.1 in organization org-AAA on tokens per min (TPM): Limit 30000, Used 22999, Requested 12528. Please try again in 11.054s. Visit https://platform.openai.com/account/rate-limits to learn more."}, "usage":null,"user":null,"metadata":{}}}"#;

    let events = collect_events(&[raw_error]);

    assert_eq!(events.len(), 1);

    match &events[0] {
        Err(CodexErr::Stream(msg, delay)) => {
            assert_eq!(
                msg,
                "Rate limit reached for gpt-5.1 in organization org-AAA on tokens per min (TPM): Limit 30000, Used 22999, Requested 12528. Please try again in 11.054s. Visit https://platform.openai.com/account/rate-limits to learn more."
            );
            assert_eq!(
                delay.as_ref().map(duration),
                Some(Duration::from_secs_f64(11.054))
            );
        }
        other => panic!("unexpected second event: {other:?}"),
    }
}

#[test]
fn context_window_error_is_fatal() {
    let raw_error = r#"{"type":"response.failed","sequence_number":3,"response":{"id":"resp_5c66275b97b9baef1ed95550adb3b7ec13b17aafd1d2f11b","object":"response","created_at":1759510079,"status":"failed","background":false,"error":{"code":"context_length_exceeded","message":"Your input exceeds the context window of this model. Please adjust your input and try again."},"usage":null,"user":null,"metadata":{}}}"#;

    let events = collect_events(&[raw_error]);

    assert_eq!(events.len(), 1);
    assert!(matches!(&events[0], Err(CodexErr::ContextWindowExceeded)));
}

#[test]
fn context_window_error_with_newline_is_fatal() {
    let raw_error = r#"{"type":"response.failed","sequence_number":4,"response":{"id":"resp_fatal_newline","object":"response","created_at":1759510080,"status":"failed","background":false,"error":{"code":"context_length_exceeded","message":"Your input exceeds the context window of this model. Please adjust your input and try\nagain."},"usage":null,"user":null,"metadata":{}}}"#;

    let events = collect_events(&[raw_error]);

    assert_eq!(events.len(), 1);
    assert!(matches!(&events[0], Err(CodexErr::ContextWindowExceeded)));
}

#[test]
fn quota_exceeded_error_is_fatal() {
    let raw_error = r#"{"type":"response.failed","sequence_number":3,"response":{"id":"resp_fatal_quota","object":"response","created_at":1759771626,"status":"failed","background":false,"error":{"code":"insufficient_quota","message":"You exceeded your current quota, please check your plan and billing details. For more information on this error, read the docs: https://platform.openai.com/docs/guides/error-codes/api-errors."},"incomplete_details":null}}"#;

    let events = collect_events(&[raw_error]);

    assert_eq!(events.len(), 1);
    assert!(matches!(&events[0], Err(CodexErr::QuotaExceeded)));
}

/// Verifies that the adapter produces the right `ResponseEvent` for a variety of incoming `type`
/// values.
#[test]
fn table_driven_event_kinds() {
    let completed = r#"{"type":"response.completed","response":{"id":"c","usage":{"input_tokens":0,"input_tokens_details":null,"output_tokens":0,"output_tokens_details":null,"total_tokens":0},"output":[]}}"#;
    let is_created = |ev: &ResponseEvent| matches!(ev, ResponseEvent::Created);
    let is_output = |ev: &ResponseEvent| matches!(ev, ResponseEvent::OutputItemDone(_));
    let is_completed = |ev: &ResponseEvent| matches!(ev, ResponseEvent::Completed { .. });
    let cases: Vec<(&str, &str, &dyn Fn(&ResponseEvent) -> bool, usize)> = vec![
        (
            "created",
            r#"{"type":"response.created","response":{}}"#,
            &is_created,
            2,
        ),
        (
            "output_item.done",
            r#"{"type":"response.output_item.done","item":{"type":"message","role":"assistant","content":[{"type":"output_text","text":"hi"}]}}"#,
            &is_output,
            2,
        ),
        (
            "unknown",
            r#"{"type":"response.new_tool_event"}"#,
            &is_completed,
            1,
        ),
    ];

    for (name, event, expect_first, expected_len) in cases {
        let out: Vec<ResponseEvent> = collect_events(&[event, completed])
            .into_iter()
            .map(|ev| ev.expect("no error"))
            .collect();
        assert_eq!(out.len(), expected_len, "case {name}");
        assert!(expect_first(&out[0]), "first event mismatch in case {name}");
    }
}

fn error_with(message: &str, code: &str) -> ApiError {
    ApiError {
        kind: None,
        message: Some(message.to_string()),
        code: Some(code.to_string()),
        plan_type: None,
        resets_at: None,
    }
}

#[test]
fn test_try_parse_retry_after() {
    let err = error_with("Rate limit reached for gpt-5.1 in organization org- on tokens per min (TPM): Limit 1, Used 1, Requested 19304. Please try again in 28ms. Visit https://platform.openai.com/account/rate-limits to learn more.", "rate_limit_exceeded");

    let delay = try_parse_retry_after(&err);
    assert_eq!(delay.as_ref().map(duration), Some(Duration::from_millis(28)));
}

#[test]
fn test_try_parse_retry_after_no_delay() {
    let err = error_with("Rate limit reached for gpt-5.1 in organization <ORG> on tokens per min (TPM): Limit 30000, Used 6899, Requested 24050. Please try again in 1.898s. Visit https://platform.openai.com/account/rate-limits to learn more.", "rate_limit_exceeded");
    let delay = try_parse_retry_after(&err);
    assert_eq!(delay.as_ref().map(duration), Some(Duration::from_secs_f64(1.898)));
}

#[test]
fn test_try_parse_retry_after_azure() {
    let err = error_with("Rate limit exceeded. Try again in 35 seconds.", "rate_limit_exceeded");
    let delay = try_parse_retry_after(&err);
    assert_eq!(delay.as_ref().map(duration), Some(Duration::from_secs(35)));
}

#[test]
fn no_delay_is_read_from_other_errors() {
    assert_eq!(try_parse_retry_after(&error_with("Try again in 35 seconds.", "other")), None);
    assert_eq!(try_parse_retry_after(&error_with("Slow down.", "rate_limit_exceeded")), None);
    assert_eq!(delay_from_groups(None), None);
    assert_eq!(
        delay_from_groups(Some(("1.5".to_string(), "MS".to_string()))),
        Some(RetryAfter {
            value: "1.5".to_string(),
            unit: RetryUnit::Milliseconds
        })
    );
}

#[test]
fn errors_are_told_apart_by_their_code() {
    assert!(is_context_window_error(&error_with("", "context_length_exceeded")));
    assert!(!is_context_window_error(&error_with("", "insufficient_quota")));
    assert!(is_quota_exceeded_error(&error_with("", "insufficient_quota")));
    assert!(!is_quota_exceeded_error(&error_with("", "context_length_exceeded")));
}

#[test]
fn usage_is_carried_over() {
    let usage = TokenUsage::from(ResponseCompletedUsage {
        input_tokens: 10,
        cached_tokens: Some(3),
        output_tokens: 5,
        reasoning_tokens: None,
        total_tokens: 15,
    });
    assert_eq!(
        usage,
        TokenUsage {
            input_tokens: 10,
            cached_input_tokens: 3,
            output_tokens: 5,
            reasoning_output_tokens: 0,
            total_tokens: 15
        }
    );
}

#[test]
fn deltas_are_passed_on() {
    let events = collect_events(&[
        r#"{"type":"response.output_text.delta","delta":"a"}"#,
        r#"{"type":"response.reasoning_summary_text.delta","delta":"b","summary_index":1}"#,
        r#"{"type":"response.reasoning_text.delta","delta":"c","content_index":2}"#,
        r#"{"type":"response.reasoning_summary_part.added","summary_index":3}"#,
        "no json",
        COMPLETED,
    ]);
    assert_eq!(events.len(), 5);
    assert!(matches!(&events[0], Ok(ResponseEvent::OutputTextDelta(d)) if d == "a"));
    assert!(matches!(
        &events[1],
        Ok(ResponseEvent::ReasoningSummaryDelta { delta, summary_index: 1 }) if delta == "b"
    ));
    assert!(matches!(
        &events[2],
        Ok(ResponseEvent::ReasoningContentDelta { delta, content_index: 2 }) if delta == "c"
    ));
    assert!(matches!(
        &events[3],
        Ok(ResponseEvent::ReasoningSummaryPartAdded { summary_index: 3 })
    ));
}

#[test]
fn failures_of_the_stream_are_errors() {
    match &collect_inputs(vec![SseInput::Failed("broken pipe".to_string())])[0] {
        Err(CodexErr::Stream(m, None)) => assert_eq!(m, "broken pipe"),
        other => panic!("unexpected {other:?}"),
    }
    match &collect_inputs(vec![SseInput::IdleTimeout])[0] {
        Err(CodexErr::Stream(m, None)) => assert_eq!(m, "idle timeout waiting for SSE"),
        other => panic!("unexpected {other:?}"),
    }
}
