//! The stream of events in which the model answers.
use vstd::prelude::*;

use crate::error;
use crate::error::{CodexErr, RetryAfter, RetryUnit};
use crate::protocol::{RateLimitSnapshot, ResponseItem, TokenUsage};
use crate::text;

verus! {

/// An error that the service reports.
#[derive(Debug)]
pub struct ApiError {
    pub kind: Option<String>,
    pub code: Option<String>,
    pub message: Option<String>,
    /// The user's plan, on errors about the limits of use.
    pub plan_type: Option<String>,
    /// When the limit is lifted, in seconds since 1970, on errors about the limits of use.
    pub resets_at: Option<i64>,
}

/// The tokens of a response, as the service counts them.
#[derive(Debug, Clone, Copy)]
pub struct ResponseCompletedUsage {
    pub input_tokens: i64,
    pub cached_tokens: Option<i64>,
    pub output_tokens: i64,
    pub reasoning_tokens: Option<i64>,
    pub total_tokens: i64,
}

/// The end of a response.
#[derive(Debug)]
pub struct ResponseCompleted {
    pub id: String,
    pub usage: Option<ResponseCompletedUsage>,
}

/// What the `response` of an event holds, read as each event kind reads it.
#[derive(Debug)]
pub struct ResponsePayload {
    /// Its `error`, where it has one, or why that cannot be read.
    pub error: Option<Result<ApiError, String>>,
    /// The response as one that is completed, or why it cannot be read so.
    pub completed: Result<ResponseCompleted, String>,
}

/// What the `item` of an event holds.
#[derive(Debug)]
pub enum ItemPayload {
    Absent,
    Unreadable,
    Item(ResponseItem),
}

/// An event of the stream.
#[derive(Debug)]
pub struct SseEvent {
    pub kind: String,
    pub response: Option<ResponsePayload>,
    pub item: ItemPayload,
    pub delta: Option<String>,
    pub summary_index: Option<i64>,
    pub content_index: Option<i64>,
}

/// What comes out of the stream next.
#[derive(Debug)]
pub enum SseInput {
    Event(SseEvent),
    /// An event whose data cannot be read.
    Unreadable,
    /// The transport failed.
    Failed(String),
    /// The stream is at its end.
    Closed,
    /// Nothing came for too long.
    IdleTimeout,
}

/// What the agent is told of the answer.
#[derive(Debug)]
pub enum ResponseEvent {
    Created,
    OutputItemDone(ResponseItem),
    OutputItemAdded(ResponseItem),
    Completed { response_id: String, token_usage: Option<TokenUsage> },
    OutputTextDelta(String),
    ReasoningSummaryDelta { delta: String, summary_index: i64 },
    ReasoningContentDelta { delta: String, content_index: i64 },
    ReasoningSummaryPartAdded { summary_index: i64 },
    RateLimits(RateLimitSnapshot),
}

/// What has been learnt of the response so far.
#[derive(Debug)]
pub struct SseState {
    pub response_completed: Option<ResponseCompleted>,
    pub response_error: Option<CodexErr>,
}

/// What to do after an input.
#[derive(Debug)]
pub enum SseAction {
    /// Go on.
    Wait,
    /// Send the event; go on unless nobody listens any more.
    Send(ResponseEvent),
    /// Send the event and go on, whether or not anybody listens.
    SendAndIgnore(ResponseEvent),
    /// Send the outcome and stop.
    Finish(Result<ResponseEvent, CodexErr>),
}

/// The tokens of a response.
pub open spec fn usage_model(val: ResponseCompletedUsage) -> TokenUsage {
    TokenUsage {
        input_tokens: val.input_tokens,
        cached_input_tokens: match val.cached_tokens {
            Some(n) => n,
            None => 0,
        },
        output_tokens: val.output_tokens,
        reasoning_output_tokens: match val.reasoning_tokens {
            Some(n) => n,
            None => 0,
        },
        total_tokens: val.total_tokens,
    }
}

impl From<ResponseCompletedUsage> for TokenUsage {
    fn from(val: ResponseCompletedUsage) -> (r: TokenUsage) {
        TokenUsage {
            input_tokens: val.input_tokens,
            cached_input_tokens: val.cached_tokens.unwrap_or(0),
            output_tokens: val.output_tokens,
            reasoning_output_tokens: val.reasoning_tokens.unwrap_or(0),
            total_tokens: val.total_tokens,
        }
    }
}

impl vstd::std_specs::convert::FromSpecImpl<ResponseCompletedUsage> for TokenUsage {
    open spec fn obeys_from_spec() -> bool {
        true
    }

    open spec fn from_spec(val: ResponseCompletedUsage) -> TokenUsage {
        usage_model(val)
    }
}

/// The first two groups of the leftmost match that `regex_lite` finds of a pattern in a text.
pub uninterp spec fn regex_groups(pattern: Seq<char>, hay: Seq<char>) -> Option<
    (Seq<char>, Seq<char>),
>;

/// Two optional strings over characters.
pub open spec fn pair_text(pair: Option<(String, String)>) -> Option<(Seq<char>, Seq<char>)> {
    match pair {
        Some((a, b)) => Some((a@, b@)),
        None => None,
    }
}

/// `regex_lite::Regex::new`, then `captures` and the groups 1 and 2, depend on the pattern and the
/// text alone; nothing else is claimed of what they return.
#[verifier::external_body]
fn captured_groups(pattern: &str, hay: &str) -> (r: Option<(String, String)>)
    ensures
        pair_text(r) == regex_groups(pattern@, hay@),
{
    let captures = regex_lite::Regex::new(pattern).ok()?.captures(hay)?;
    Some((captures.get(1)?.as_str().to_string(), captures.get(2)?.as_str().to_string()))
}

/// The pattern of a retry hint, such as "Please try again in 1.898s" or "Try again in 35 seconds".
pub open spec fn retry_pattern() -> Seq<char> {
    "(?i)try again in\\s*(\\d+(?:\\.\\d+)?)\\s*(s|ms|seconds?)"@
}

/// Whether an error has a code.
pub open spec fn has_code(error: ApiError, code: Seq<char>) -> bool {
    match error.code {
        Some(c) => c@ == code,
        None => false,
    }
}

/// The delay that a numeral and the text of its unit give.
pub open spec fn hinted_delay(groups: Option<(Seq<char>, Seq<char>)>) -> Option<
    (Seq<char>, RetryUnit),
> {
    match groups {
        Some((value, unit)) => {
            let lower = text::ascii_lower(unit);
            if lower == "s"@ || text::begins(lower, "second"@) {
                Some((value, RetryUnit::Seconds))
            } else if lower == "ms"@ {
                Some((value, RetryUnit::Milliseconds))
            } else {
                None
            }
        },
        None => None,
    }
}

/// A delay over characters.
pub open spec fn delay_text(delay: Option<RetryAfter>) -> Option<(Seq<char>, RetryUnit)> {
    match delay {
        Some(d) => Some((d.value@, d.unit)),
        None => None,
    }
}

/// The delay that an error asks for: only where it says that the rate limit is exceeded, and its
/// message holds a hint.
pub open spec fn retry_after_of(error: ApiError) -> Option<(Seq<char>, RetryUnit)> {
    if !has_code(error, "rate_limit_exceeded"@) {
        None
    } else {
        match error.message {
            Some(m) => hinted_delay(regex_groups(retry_pattern(), m@)),
            None => None,
        }
    }
}

/// The error that a failed response stands for.
pub open spec fn is_failure_of(e: CodexErr, reported: Option<Result<ApiError, String>>) -> bool {
    match reported {
        None => error::is_stream_error(e, "response.failed event received"@),
        Some(Err(why)) => error::is_stream_error(e, "failed to parse ErrorResponse: "@ + why@),
        Some(Ok(error)) => if has_code(error, "context_length_exceeded"@) {
            e == CodexErr::ContextWindowExceeded
        } else if has_code(error, "insufficient_quota"@) {
            e == CodexErr::QuotaExceeded
        } else {
            e matches CodexErr::Stream(message, delay) && message@ == (match error.message {
                Some(m) => m@,
                None => Seq::<char>::empty(),
            }) && delay_text(delay) == retry_after_of(error)
        },
    }
}

/// Whether `action` sends an event, or waits where there is none.
pub open spec fn sends(action: SseAction, event: Option<ResponseEvent>) -> bool {
    match event {
        Some(e) => action == SseAction::Send(e),
        None => action == SseAction::Wait,
    }
}

/// The event that a kind of stream event stands for, where it stands for one by itself.
pub open spec fn forwarded(event: SseEvent) -> Option<ResponseEvent> {
    let kind = event.kind@;
    if kind == "response.output_item.done"@ {
        match event.item {
            ItemPayload::Item(item) => Some(ResponseEvent::OutputItemDone(item)),
            _ => None,
        }
    } else if kind == "response.output_item.added"@ {
        match event.item {
            ItemPayload::Item(item) => Some(ResponseEvent::OutputItemAdded(item)),
            _ => None,
        }
    } else if kind == "response.output_text.delta"@ {
        match event.delta {
            Some(delta) => Some(ResponseEvent::OutputTextDelta(delta)),
            None => None,
        }
    } else if kind == "response.reasoning_summary_text.delta"@ {
        match (event.delta, event.summary_index) {
            (Some(delta), Some(summary_index)) => Some(
                ResponseEvent::ReasoningSummaryDelta { delta, summary_index },
            ),
            _ => None,
        }
    } else if kind == "response.reasoning_text.delta"@ {
        match (event.delta, event.content_index) {
            (Some(delta), Some(content_index)) => Some(
                ResponseEvent::ReasoningContentDelta { delta, content_index },
            ),
            _ => None,
        }
    } else if kind == "response.reasoning_summary_part.added"@ {
        match event.summary_index {
            Some(summary_index) => Some(ResponseEvent::ReasoningSummaryPartAdded { summary_index }),
            None => None,
        }
    } else {
        None
    }
}

/// The events of which the state takes note.
pub open spec fn is_state_kind(kind: Seq<char>) -> bool {
    kind == "response.created"@ || kind == "response.failed"@ || kind == "response.completed"@
}

/// What an event of the stream leads to.
pub open spec fn event_step(
    state: SseState,
    event: SseEvent,
    next: SseState,
    action: SseAction,
) -> bool {
    let kind = event.kind@;
    if kind == "response.created"@ {
        &&& next == state
        &&& action == if event.response is Some {
            SseAction::SendAndIgnore(ResponseEvent::Created)
        } else {
            SseAction::Wait
        }
    } else if kind == "response.failed"@ {
        &&& action == SseAction::Wait
        &&& next.response_completed == state.response_completed
        &&& match event.response {
            Some(payload) => next.response_error matches Some(e) && is_failure_of(e, payload.error),
            None => next.response_error == state.response_error,
        }
    } else if kind == "response.completed"@ {
        &&& action == SseAction::Wait
        &&& match event.response {
            Some(payload) => match payload.completed {
                Ok(completed) => next.response_completed == Some(completed) && next.response_error
                    == state.response_error,
                Err(why) => {
                    &&& next.response_completed == state.response_completed
                    &&& next.response_error matches Some(e)
                    &&& error::is_stream_error(e, "failed to parse ResponseCompleted: "@ + why@)
                },
            },
            None => next == state,
        }
    } else {
        &&& next == state
        &&& sends(action, forwarded(event))
    }
}

/// The outcome when the stream is at its end: the completed response; else the error that was
/// reported; else that the stream ended too early.
pub open spec fn closing_outcome(state: SseState, outcome: Result<ResponseEvent, CodexErr>) -> bool {
    match state.response_completed {
        Some(completed) => outcome == Ok::<ResponseEvent, CodexErr>(
            ResponseEvent::Completed {
                response_id: completed.id,
                token_usage: match completed.usage {
                    Some(usage) => Some(usage_model(usage)),
                    None => None,
                },
            },
        ),
        None => match state.response_error {
            Some(e) => outcome == Err::<ResponseEvent, CodexErr>(e),
            None => outcome matches Err(e) && error::is_stream_error(
                e,
                "stream closed before response.completed"@,
            ),
        },
    }
}

/// What an input leads to.
pub open spec fn sse_step(
    state: SseState,
    input: SseInput,
    next: SseState,
    action: SseAction,
) -> bool {
    match input {
        SseInput::Event(event) => event_step(state, event, next, action),
        SseInput::Unreadable => next == state && action == SseAction::Wait,
        SseInput::Failed(why) => action matches SseAction::Finish(Err(e)) && error::is_stream_error(
            e,
            why@,
        ),
        SseInput::Closed => action matches SseAction::Finish(outcome) && closing_outcome(
            state,
            outcome,
        ),
        SseInput::IdleTimeout => action matches SseAction::Finish(Err(e)) && error::is_stream_error(
            e,
            "idle timeout waiting for SSE"@,
        ),
    }
}

impl SseState {
    pub fn new() -> (r: Self)
        ensures
            r.response_completed is None,
            r.response_error is None,
    {
        SseState { response_completed: None, response_error: None }
    }
}

/// Whether an error says that the input is larger than the model's context window.
pub fn is_context_window_error(error: &ApiError) -> (r: bool)
    ensures
        r == has_code(*error, "context_length_exceeded"@),
{
    match &error.code {
        Some(code) => text::same(code.as_str(), "context_length_exceeded"),
        None => false,
    }
}

/// Whether an error says that the quota is used up.
pub fn is_quota_exceeded_error(error: &ApiError) -> (r: bool)
    ensures
        r == has_code(*error, "insufficient_quota"@),
{
    match &error.code {
        Some(code) => text::same(code.as_str(), "insufficient_quota"),
        None => false,
    }
}

/// The delay that a numeral and the text of its unit give.
pub fn delay_from_groups(groups: Option<(String, String)>) -> (r: Option<RetryAfter>)
    ensures
        delay_text(r) == hinted_delay(pair_text(groups)),
{
    match groups {
        Some((value, unit)) => {
            let lower = text::to_ascii_lowercase(unit.as_str());
            if text::same(lower.as_str(), "s") || text::starts_with(lower.as_str(), "second") {
                Some(RetryAfter { value, unit: RetryUnit::Seconds })
            } else if text::same(lower.as_str(), "ms") {
                Some(RetryAfter { value, unit: RetryUnit::Milliseconds })
            } else {
                None
            }
        },
        None => None,
    }
}

/// The delay that an error asks for, from hints like "try again in 1.898s" or "Try again in 35
/// seconds" in its message.
pub fn try_parse_retry_after(err: &ApiError) -> (r: Option<RetryAfter>)
    ensures
        delay_text(r) == retry_after_of(*err),
{
    let limited = match &err.code {
        Some(code) => text::same(code.as_str(), "rate_limit_exceeded"),
        None => false,
    };
    if !limited {
        return None;
    }
    match &err.message {
        Some(message) => delay_from_groups(
            captured_groups(
                "(?i)try again in\\s*(\\d+(?:\\.\\d+)?)\\s*(s|ms|seconds?)",
                message.as_str(),
            ),
        ),
        None => None,
    }
}

/// The error that a failed response stands for.
fn failure_of(reported: Option<Result<ApiError, String>>) -> (e: CodexErr)
    ensures
        is_failure_of(e, reported),
{
    match reported {
        None => CodexErr::Stream("response.failed event received".to_owned(), None),
        Some(Err(why)) => {
            let mut message = "failed to parse ErrorResponse: ".to_owned();
            message.append(why.as_str());
            CodexErr::Stream(message, None)
        },
        Some(Ok(error)) => {
            if is_context_window_error(&error) {
                CodexErr::ContextWindowExceeded
            } else if is_quota_exceeded_error(&error) {
                CodexErr::QuotaExceeded
            } else {
                let delay = try_parse_retry_after(&error);
                let message = match error.message {
                    Some(m) => m,
                    None => String::new(),
                };
                CodexErr::Stream(message, delay)
            }
        },
    }
}

/// The event that a kind of stream event stands for, where it stands for one by itself.
fn forward(event: SseEvent) -> (r: Option<ResponseEvent>)
    ensures
        r == forwarded(event),
{
    let kind = event.kind.as_str();
    if text::same(kind, "response.output_item.done") {
        match event.item {
            ItemPayload::Item(item) => Some(ResponseEvent::OutputItemDone(item)),
            _ => None,
        }
    } else if text::same(kind, "response.output_item.added") {
        match event.item {
            ItemPayload::Item(item) => Some(ResponseEvent::OutputItemAdded(item)),
            _ => None,
        }
    } else if text::same(kind, "response.output_text.delta") {
        match event.delta {
            Some(delta) => Some(ResponseEvent::OutputTextDelta(delta)),
            None => None,
        }
    } else if text::same(kind, "response.reasoning_summary_text.delta") {
        match (event.delta, event.summary_index) {
            (Some(delta), Some(summary_index)) => Some(
                ResponseEvent::ReasoningSummaryDelta { delta, summary_index },
            ),
            _ => None,
        }
    } else if text::same(kind, "response.reasoning_text.delta") {
        match (event.delta, event.content_index) {
            (Some(delta), Some(content_index)) => Some(
                ResponseEvent::ReasoningContentDelta { delta, content_index },
            ),
            _ => None,
        }
    } else if text::same(kind, "response.reasoning_summary_part.added") {
        match event.summary_index {
            Some(summary_index) => Some(ResponseEvent::ReasoningSummaryPartAdded { summary_index }),
            None => None,
        }
    } else {
        None
    }
}

/// What an input of the stream leads to. Individual output items are forwarded as they come; the
/// list of them inside `response.completed` is dropped.
pub fn process_sse(state: SseState, input: SseInput) -> (r: (SseState, SseAction))
    ensures
        sse_step(state, input, r.0, r.1),
{
    match input {
        SseInput::Event(event) => {
            let kind = event.kind.as_str();
            if text::same(kind, "response.created") {
                if event.response.is_some() {
                    (state, SseAction::SendAndIgnore(ResponseEvent::Created))
                } else {
                    (state, SseAction::Wait)
                }
            } else if text::same(kind, "response.failed") {
                match event.response {
                    Some(payload) => (
                        SseState {
                            response_completed: state.response_completed,
                            response_error: Some(failure_of(payload.error)),
                        },
                        SseAction::Wait,
                    ),
                    None => (state, SseAction::Wait),
                }
            } else if text::same(kind, "response.completed") {
                match event.response {
                    Some(payload) => match payload.completed {
                        Ok(completed) => (
                            SseState {
                                response_completed: Some(completed),
                                response_error: state.response_error,
                            },
                            SseAction::Wait,
                        ),
                        Err(why) => {
                            let mut message = "failed to parse ResponseCompleted: ".to_owned();
                            message.append(why.as_str());
                            (
                                SseState {
                                    response_completed: state.response_completed,
                                    response_error: Some(CodexErr::Stream(message, None)),
                                },
                                SseAction::Wait,
                            )
                        },
                    },
                    None => (state, SseAction::Wait),
                }
            } else {
                match forward(event) {
                    Some(e) => (state, SseAction::Send(e)),
                    None => (state, SseAction::Wait),
                }
            }
        },
        SseInput::Unreadable => (state, SseAction::Wait),
        SseInput::Failed(why) => (state, SseAction::Finish(Err(CodexErr::Stream(why, None)))),
        SseInput::Closed => {
            let outcome = match state.response_completed {
                Some(completed) => Ok(
                    ResponseEvent::Completed {
                        response_id: completed.id,
                        token_usage: match completed.usage {
                            Some(usage) => Some(TokenUsage::from(usage)),
                            None => None,
                        },
                    },
                ),
                None => Err(
                    match state.response_error {
                        Some(e) => e,
                        None => CodexErr::Stream(
                            "stream closed before response.completed".to_owned(),
                            None,
                        ),
                    },
                ),
            };
            (SseState::new(), SseAction::Finish(outcome))
        },
        SseInput::IdleTimeout => (
            state,
            SseAction::Finish(
                Err(CodexErr::Stream("idle timeout waiting for SSE".to_owned(), None)),
            ),
        ),
    }
}

/// A response that was completed stays so: nothing that comes after it takes that back.
pub proof fn law_completion_is_kept(
    state: SseState,
    input: SseInput,
    next: SseState,
    action: SseAction,
)
    requires
        sse_step(state, input, next, action),
        state.response_completed is Some,
        action !is Finish,
    ensures
        next.response_completed is Some,
{
}

/// A stream that ends after a completed response ends well, whatever errors it reported.
pub proof fn law_completed_stream_ends_well(state: SseState, next: SseState, action: SseAction)
    requires
        state.response_completed is Some,
        sse_step(state, SseInput::Closed, next, action),
    ensures
        action matches SseAction::Finish(Ok(ResponseEvent::Completed { .. })),
{
}

/// A stream that ends without a completed response ends in an error.
pub proof fn law_incomplete_stream_ends_in_error(
    state: SseState,
    next: SseState,
    action: SseAction,
)
    requires
        state.response_completed is None,
        sse_step(state, SseInput::Closed, next, action),
    ensures
        action matches SseAction::Finish(Err(_)),
{
}

/// A failure for a full context window or a used-up quota, with nothing after it, is what the
/// stream ends in.
pub proof fn law_fatal_failure_is_the_outcome(
    state: SseState,
    event: SseEvent,
    failed: SseState,
    failed_action: SseAction,
    closed: SseState,
    closed_action: SseAction,
)
    requires
        state.response_completed is None,
        event.kind@ == "response.failed"@,
        event.response matches Some(payload) && payload.error matches Some(Ok(error)) && (has_code(
            error,
            "context_length_exceeded"@,
        ) || has_code(error, "insufficient_quota"@)),
        sse_step(state, SseInput::Event(event), failed, failed_action),
        sse_step(failed, SseInput::Closed, closed, closed_action),
    ensures
        closed_action == SseAction::Finish(Err(CodexErr::ContextWindowExceeded)) || closed_action
            == SseAction::Finish(Err(CodexErr::QuotaExceeded)),
{
    reveal_strlit("response.failed");
    reveal_strlit("response.created");
    assert("response.failed"@.len() != "response.created"@.len());
}

/// Events of a kind that is not known change nothing and tell the agent nothing.
pub proof fn law_unknown_events_are_ignored(
    state: SseState,
    event: SseEvent,
    next: SseState,
    action: SseAction,
)
    requires
        sse_step(state, SseInput::Event(event), next, action),
        !is_state_kind(event.kind@),
        forwarded(event) is None,
    ensures
        next == state,
        action == SseAction::Wait,
{
}

/// No two kinds of events have the same name.
proof fn lemma_kinds_differ()
    ensures
        ({
            let created = "response.created"@;
            let failed = "response.failed"@;
            let completed = "response.completed"@;
            let done = "response.output_item.done"@;
            let added = "response.output_item.added"@;
            let text = "response.output_text.delta"@;
            let summary = "response.reasoning_summary_text.delta"@;
            let content = "response.reasoning_text.delta"@;
            let part = "response.reasoning_summary_part.added"@;
            &&& created.len() == 16 && failed.len() == 15 && completed.len() == 18
            &&& done.len() == 25 && added.len() == 26 && text.len() == 26
            &&& summary.len() == 37 && content.len() == 29 && part.len() == 37
            &&& added != text
            &&& summary != part
        }),
{
    reveal_strlit("response.created");
    reveal_strlit("response.failed");
    reveal_strlit("response.completed");
    reveal_strlit("response.output_item.done");
    reveal_strlit("response.output_item.added");
    reveal_strlit("response.output_text.delta");
    reveal_strlit("response.reasoning_summary_text.delta");
    reveal_strlit("response.reasoning_text.delta");
    reveal_strlit("response.reasoning_summary_part.added");
    assert("response.output_item.added"@[16] != "response.output_text.delta"@[16]);
    assert("response.reasoning_summary_text.delta"@[27]
        != "response.reasoning_summary_part.added"@[27]);
}

/// An event about an item is passed on as what it is: one that says that an item has begun as an
/// item that has begun, one that says that an item is done as an item that is done, each with its
/// item; and where its item cannot be had, nothing is passed on.
pub proof fn law_item_events_are_passed_on(
    state: SseState,
    event: SseEvent,
    next: SseState,
    action: SseAction,
)
    requires
        sse_step(state, SseInput::Event(event), next, action),
    ensures
        event.kind@ == "response.output_item.added"@ ==> next == state && match event.item {
            ItemPayload::Item(item) => action == SseAction::Send(
                ResponseEvent::OutputItemAdded(item),
            ),
            _ => action == SseAction::Wait,
        },
        event.kind@ == "response.output_item.done"@ ==> next == state && match event.item {
            ItemPayload::Item(item) => action == SseAction::Send(
                ResponseEvent::OutputItemDone(item),
            ),
            _ => action == SseAction::Wait,
        },
{
    lemma_kinds_differ();
}

/// A piece of text or of reasoning is passed on as what it is, with the place that it belongs to,
/// and nothing is passed on where a part of it is missing.
pub proof fn law_deltas_are_passed_on(
    state: SseState,
    event: SseEvent,
    next: SseState,
    action: SseAction,
)
    requires
        sse_step(state, SseInput::Event(event), next, action),
    ensures
        event.kind@ == "response.output_text.delta"@ ==> next == state && match event.delta {
            Some(delta) => action == SseAction::Send(ResponseEvent::OutputTextDelta(delta)),
            None => action == SseAction::Wait,
        },
        event.kind@ == "response.reasoning_summary_text.delta"@ ==> next == state && match (
            event.delta,
            event.summary_index,
        ) {
            (Some(delta), Some(summary_index)) => action == SseAction::Send(
                ResponseEvent::ReasoningSummaryDelta { delta, summary_index },
            ),
            _ => action == SseAction::Wait,
        },
        event.kind@ == "response.reasoning_text.delta"@ ==> next == state && match (
            event.delta,
            event.content_index,
        ) {
            (Some(delta), Some(content_index)) => action == SseAction::Send(
                ResponseEvent::ReasoningContentDelta { delta, content_index },
            ),
            _ => action == SseAction::Wait,
        },
        event.kind@ == "response.reasoning_summary_part.added"@ ==> next == state
            && match event.summary_index {
            Some(summary_index) => action == SseAction::Send(
                ResponseEvent::ReasoningSummaryPartAdded { summary_index },
            ),
            None => action == SseAction::Wait,
        },
{
    lemma_kinds_differ();
}

/// What is sent while the stream goes on tells what kind of event it came from: an item that is done
/// comes from no event but the one that says so, and so for every other kind. A response is never
/// said to be completed while the stream goes on.
pub proof fn law_sent_event_tells_its_kind(
    state: SseState,
    event: SseEvent,
    next: SseState,
    action: SseAction,
)
    requires
        sse_step(state, SseInput::Event(event), next, action),
    ensures
        match action {
            SseAction::Send(sent) => match sent {
                ResponseEvent::OutputItemDone(_) => event.kind@ == "response.output_item.done"@,
                ResponseEvent::OutputItemAdded(_) => event.kind@ == "response.output_item.added"@,
                ResponseEvent::OutputTextDelta(_) => event.kind@ == "response.output_text.delta"@,
                ResponseEvent::ReasoningSummaryDelta { .. } => event.kind@
                    == "response.reasoning_summary_text.delta"@,
                ResponseEvent::ReasoningContentDelta { .. } => event.kind@
                    == "response.reasoning_text.delta"@,
                ResponseEvent::ReasoningSummaryPartAdded { .. } => event.kind@
                    == "response.reasoning_summary_part.added"@,
                _ => false,
            },
            SseAction::SendAndIgnore(sent) => sent == ResponseEvent::Created && event.kind@
                == "response.created"@ && event.response is Some,
            SseAction::Wait => true,
            SseAction::Finish(_) => false,
        },
{
    lemma_kinds_differ();
}

/// The beginning of a response is told, and changes nothing that is known of it.
pub proof fn law_beginning_is_told(
    state: SseState,
    event: SseEvent,
    next: SseState,
    action: SseAction,
)
    requires
        sse_step(state, SseInput::Event(event), next, action),
        event.kind@ == "response.created"@,
        event.response is Some,
    ensures
        next == state,
        action == SseAction::SendAndIgnore(ResponseEvent::Created),
{
    lemma_kinds_differ();
}

/// A response that is completed is taken note of, with its identity and its tokens, and told at the
/// end of the stream and not before; input tokens stay input tokens, and so for each count.
pub proof fn law_completion_is_told_at_the_end(
    state: SseState,
    event: SseEvent,
    completed: ResponseCompleted,
    next: SseState,
    action: SseAction,
    last: SseState,
    end: SseAction,
)
    requires
        event.kind@ == "response.completed"@,
        event.response matches Some(payload) && payload.completed == Ok::<
            ResponseCompleted,
            String,
        >(completed),
        sse_step(state, SseInput::Event(event), next, action),
        sse_step(next, SseInput::Closed, last, end),
    ensures
        action == SseAction::Wait,
        end matches SseAction::Finish(Ok(ResponseEvent::Completed { response_id, token_usage }))
            && response_id == completed.id && match (token_usage, completed.usage) {
            (None, None) => true,
            (Some(told), Some(counted)) => {
                &&& told.input_tokens == counted.input_tokens
                &&& told.cached_input_tokens == (if counted.cached_tokens is Some {
                    counted.cached_tokens->0
                } else {
                    0i64
                })
                &&& told.output_tokens == counted.output_tokens
                &&& told.reasoning_output_tokens == (if counted.reasoning_tokens is Some {
                    counted.reasoning_tokens->0
                } else {
                    0i64
                })
                &&& told.total_tokens == counted.total_tokens
            },
            _ => false,
        },
{
    lemma_kinds_differ();
}

/// Whether an error carries a code.
pub open spec fn carries_code(error: ApiError, code: Seq<char>) -> bool {
    error.code is Some && (error.code->0)@ == code
}

/// A failure that the service reports is taken note of as what it is: a context window that is too
/// small, a quota that is used up, or an error of the stream with the service's own words, which
/// alone may be tried again; only where the rate is limited does a delay come with it. What was
/// completed before stays so, and nothing is sent.
pub proof fn law_failure_is_noted_as_what_it_is(
    state: SseState,
    event: SseEvent,
    payload: ResponsePayload,
    next: SseState,
    action: SseAction,
)
    requires
        event.kind@ == "response.failed"@,
        event.response == Some(payload),
        sse_step(state, SseInput::Event(event), next, action),
    ensures
        action == SseAction::Wait,
        next.response_completed == state.response_completed,
        next.response_error is Some,
        match payload.error {
            Some(Ok(error)) => {
                let noted = next.response_error->0;
                &&& noted == CodexErr::ContextWindowExceeded <==> carries_code(
                    error,
                    "context_length_exceeded"@,
                )
                &&& noted == CodexErr::QuotaExceeded <==> carries_code(error, "insufficient_quota"@)
                &&& !carries_code(error, "context_length_exceeded"@) && !carries_code(
                    error,
                    "insufficient_quota"@,
                ) ==> {
                    &&& noted matches CodexErr::Stream(message, delay)
                    &&& error.message is Some ==> message@ == (error.message->0)@
                    &&& error.message is None ==> message@.len() == 0
                    &&& !carries_code(error, "rate_limit_exceeded"@) ==> delay is None
                    &&& match retry_after_of(error) {
                        Some(hint) => delay is Some && (delay->0).value@ == hint.0
                            && (delay->0).unit == hint.1,
                        None => delay is None,
                    }
                }
            },
            Some(Err(why)) => {
                &&& next.response_error matches Some(CodexErr::Stream(message, None))
                &&& message@ == "failed to parse ErrorResponse: "@ + why@
            },
            None => {
                &&& next.response_error matches Some(CodexErr::Stream(message, None))
                &&& message@ == "response.failed event received"@
            },
        },
{
    lemma_kinds_differ();
    reveal_strlit("context_length_exceeded");
    reveal_strlit("insufficient_quota");
    assert("context_length_exceeded"@.len() != "insufficient_quota"@.len());
    if let Some(Ok(error)) = payload.error {
        assert(has_code(error, "rate_limit_exceeded"@) == carries_code(
            error,
            "rate_limit_exceeded"@,
        ));
        assert(has_code(error, "insufficient_quota"@) == carries_code(error, "insufficient_quota"@));
        assert(has_code(error, "context_length_exceeded"@) == carries_code(
            error,
            "context_length_exceeded"@,
        ));
    }
}

/// A stream that breaks off, falls silent or ends too early ends in an error that says which it
/// was, and never in a completed response; an event that cannot be read changes nothing.
pub proof fn law_broken_stream_says_why(
    state: SseState,
    input: SseInput,
    next: SseState,
    action: SseAction,
)
    requires
        sse_step(state, input, next, action),
    ensures
        match input {
            SseInput::Event(_) => action !is Finish,
            SseInput::Unreadable => next == state && action == SseAction::Wait,
            SseInput::Failed(why) => action matches SseAction::Finish(
                Err(CodexErr::Stream(message, None)),
            ) && message@ == why@,
            SseInput::IdleTimeout => action matches SseAction::Finish(
                Err(CodexErr::Stream(message, None)),
            ) && message@ == "idle timeout waiting for SSE"@,
            SseInput::Closed => {
                &&& state.response_completed is None && state.response_error is None ==> (
                action matches SseAction::Finish(Err(CodexErr::Stream(message, None))) && message@
                    == "stream closed before response.completed"@)
                &&& state.response_completed is None && state.response_error is Some ==> action
                    == SseAction::Finish(Err(state.response_error->0))
            },
        },
{
    lemma_kinds_differ();
}

/// A hint in the words of an error is read in the unit that it is given in: seconds as seconds, and
/// milliseconds as milliseconds, whatever the case of the letters; the number is taken as it is.
pub proof fn law_delay_keeps_its_unit(value: Seq<char>, unit: Seq<char>)
    ensures
        unit == "s"@ || unit == "second"@ || unit == "seconds"@ ==> hinted_delay(
            Some((value, unit)),
        ) == Some((value, RetryUnit::Seconds)),
        unit == "ms"@ ==> hinted_delay(Some((value, unit))) == Some(
            (value, RetryUnit::Milliseconds),
        ),
        hinted_delay(Some((value, unit))) matches Some(delay) ==> delay.0 == value,
{
    reveal_strlit("s");
    reveal_strlit("ms");
    reveal_strlit("second");
    reveal_strlit("seconds");
    assert(text::ascii_lower("s"@) =~= "s"@);
    assert(text::ascii_lower("ms"@) =~= "ms"@);
    assert(text::ascii_lower("second"@) =~= "second"@);
    assert(text::ascii_lower("seconds"@) =~= "seconds"@);
    assert("seconds"@.subrange(0, 6) =~= "second"@);
    assert("second"@.subrange(0, 6) =~= "second"@);
    assert("ms"@.len() != "s"@.len());
}

/// A delay is read only from the message of an error that says that the rate is limited, and there
/// from the first place where it says when to try again.
pub proof fn law_only_rate_limits_have_delays(error: ApiError)
    ensures
        !carries_code(error, "rate_limit_exceeded"@) || error.message is None ==> retry_after_of(
            error,
        ) is None,
        carries_code(error, "rate_limit_exceeded"@) && error.message is Some ==> retry_after_of(
            error,
        ) == hinted_delay(
            regex_groups(
                "(?i)try again in\\s*(\\d+(?:\\.\\d+)?)\\s*(s|ms|seconds?)"@,
                (error.message->0)@,
            ),
        ),
{
}

/// Nothing but a failure or a completion changes what is known of the response, and of those only
/// one that comes with the response; a completion that cannot be read is an error with the reason.
pub proof fn law_only_ends_are_noted(
    state: SseState,
    event: SseEvent,
    next: SseState,
    action: SseAction,
)
    requires
        sse_step(state, SseInput::Event(event), next, action),
    ensures
        event.kind@ != "response.failed"@ && event.kind@ != "response.completed"@ ==> next == state,
        event.response is None ==> next == state,
        event.kind@ == "response.completed"@ || event.kind@ == "response.failed"@ ==> action
            == SseAction::Wait,
        event.kind@ == "response.completed"@ && event.response is Some ==> match (
        event.response->0).completed {
            Ok(completed) => next.response_completed == Some(completed) && next.response_error
                == state.response_error,
            Err(why) => next.response_completed == state.response_completed && (
            next.response_error matches Some(CodexErr::Stream(message, None)) && message@
                == "failed to parse ResponseCompleted: "@ + why@),
        },
{
    lemma_kinds_differ();
}

} // verus!
