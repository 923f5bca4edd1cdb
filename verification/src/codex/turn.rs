//! One turn of the conversation with the model.
use vstd::prelude::*;

use crate::client::sse::ResponseEvent;
use crate::error;
use crate::error::{CodexErr, RetryAfter};
use crate::protocol::{
    FunctionCallOutputPayload, RateLimitSnapshot, ResponseInputItem, ResponseItem, TokenUsage,
};
use crate::text;
use crate::tools::handlers::call::FunctionCallError;

verus! {

/// An item of the model's answer, with what is to be sent back to the model for it. When the model
/// is prompted, it returns a stream of events. Some of these events map to a `ResponseItem`. A
/// `ResponseItem` may need to be "handled" such that it produces a `ResponseInputItem` that needs
/// to be sent back to the model on the next turn.
#[derive(Debug)]
pub struct ProcessedResponseItem {
    pub item: ResponseItem,
    pub response: Option<ResponseInputItem>,
}

/// What a turn came to.
#[derive(Debug)]
pub struct TurnRunResult {
    pub processed_items: Vec<ProcessedResponseItem>,
    pub total_token_usage: Option<TokenUsage>,
}

/// An item as the user sees it: its identity and, as JSON text, everything else.
#[derive(Debug)]
pub struct TurnItem {
    pub id: String,
    pub body: String,
}

impl TurnItem {
    /// A copy of the item.
    pub fn copy(&self) -> (r: Self)
        ensures
            r == *self,
    {
        TurnItem { id: self.id.clone(), body: self.body.clone() }
    }
}

/// An item whose response is there, or is the outcome of a call that runs.
#[derive(Debug)]
pub enum OutputSlot {
    Ready(ProcessedResponseItem),
    Call(ResponseItem),
}

/// An item whose call, if it has one, is over.
#[derive(Debug)]
pub enum SettledSlot {
    Ready(ProcessedResponseItem),
    Called { item: ResponseItem, outcome: Result<ResponseInputItem, CodexErr> },
}

/// What is made of an item that the model sends: whether it calls a tool, and what the user sees
/// of it.
#[derive(Debug)]
pub struct ItemReading {
    pub is_tool_call: Result<bool, FunctionCallError>,
    pub turn_item: Option<TurnItem>,
}

/// What happens in a turn.
#[derive(Debug)]
pub enum TurnEvent {
    /// The turn was cancelled.
    Cancelled,
    /// The stream is over.
    Closed,
    /// The stream failed.
    Failed(CodexErr),
    /// The model sent something; where it is an item, this is what is made of it.
    Received { event: ResponseEvent, reading: ItemReading },
}

/// A piece of text that the model sends while it works on an item.
#[derive(Debug, Clone, Copy, PartialEq, Eq, Structural)]
pub enum DeltaKind {
    AgentMessage,
    ReasoningSummary,
    ReasoningRaw,
}

/// What to do next in a turn.
#[derive(Debug)]
pub enum TurnAction {
    /// Wait for the next event.
    Wait,
    /// Run the tool call of the item; its outcome fills the slot that was added for it.
    StartCall,
    /// Tell the user of an item: that it began, where it did not before, and that it is complete.
    Show { started: Option<TurnItem>, completed: Option<TurnItem> },
    /// Take note of the rate limits.
    UpdateRateLimits(RateLimitSnapshot),
    /// Take note of the tokens that were used, and end the turn once its calls are over.
    Complete { token_usage: Option<TokenUsage> },
    /// Abort the turn once its calls are over.
    Abort,
    /// End the turn with an error.
    Fail(CodexErr),
    /// Tell the user of a piece of an item.
    Delta { kind: DeltaKind, item_id: String, delta: String },
    /// Tell the user that a new section of the reasoning begins.
    SectionBreak,
    /// The model broke the protocol.
    Broken(String),
}

/// How far a turn has come.
#[derive(Debug)]
pub struct TurnState {
    /// The item that the model works on.
    pub active_item: Option<TurnItem>,
    /// The items that the model sent, in order.
    pub output: Vec<OutputSlot>,
}

/// Whether an item is one that the user is shown.
pub open spec fn is_shown(item: ResponseItem) -> bool {
    item is Message || item is Reasoning || item is WebSearchCall
}

/// What the user sees of an item that calls no tool.
pub open spec fn shown(item: ResponseItem, turn_item: Option<TurnItem>) -> Option<TurnItem> {
    if is_shown(item) {
        turn_item
    } else {
        None
    }
}

/// Whether a response tells the model, without naming a call, that its call failed.
pub open spec fn is_nameless_failure(response: ResponseInputItem, message: Seq<char>) -> bool {
    match response {
        ResponseInputItem::FunctionCallOutput { call_id, output } => {
            &&& call_id@ == Seq::<char>::empty()
            &&& output.content@ == message
            &&& output.content_items is None
            &&& output.success is None
        },
        _ => false,
    }
}

/// Whether `slot` holds an item and tells the model why its call failed.
pub open spec fn is_failed_slot(slot: OutputSlot, item: ResponseItem, message: Seq<char>) -> bool {
    match slot {
        OutputSlot::Ready(p) => {
            &&& p.item == item
            &&& p.response matches Some(response)
            &&& is_nameless_failure(response, message)
        },
        _ => false,
    }
}

/// What an item that the model completed leads to.
pub open spec fn done_step(
    pre: TurnState,
    item: ResponseItem,
    reading: ItemReading,
    post: TurnState,
    action: TurnAction,
) -> bool {
    &&& post.active_item is None
    &&& match reading.is_tool_call {
        Ok(true) => {
            &&& post.output@ == pre.output@.push(OutputSlot::Call(item))
            &&& action == TurnAction::StartCall
        },
        Ok(false) => {
            &&& post.output@ == pre.output@.push(
                OutputSlot::Ready(ProcessedResponseItem { item, response: None }),
            )
            &&& action == match shown(item, reading.turn_item) {
                Some(turn_item) => TurnAction::Show {
                    started: if pre.active_item is None {
                        Some(turn_item)
                    } else {
                        None
                    },
                    completed: Some(turn_item),
                },
                None => TurnAction::Wait,
            }
        },
        Err(FunctionCallError::MissingLocalShellCallId) => {
            &&& post.output@.len() == pre.output@.len() + 1
            &&& post.output@.drop_last() == pre.output@
            &&& is_failed_slot(post.output@.last(), item, "LocalShellCall without call_id or id"@)
            &&& action == TurnAction::Wait
        },
        Err(FunctionCallError::RespondToModel(message)) | Err(FunctionCallError::Denied(message)) => {
            &&& post.output@.len() == pre.output@.len() + 1
            &&& post.output@.drop_last() == pre.output@
            &&& is_failed_slot(post.output@.last(), item, message@)
            &&& action == TurnAction::Wait
        },
        Err(FunctionCallError::Fatal(message)) => {
            &&& post.output@ == pre.output@
            &&& action == TurnAction::Fail(CodexErr::Fatal(message))
        },
    }
}

/// What a piece of text leads to.
pub open spec fn delta_step(
    pre: TurnState,
    kind: DeltaKind,
    delta: String,
    complaint: Seq<char>,
    action: TurnAction,
) -> bool {
    match pre.active_item {
        Some(active) => action == (TurnAction::Delta { kind, item_id: active.id, delta }),
        None => action matches TurnAction::Broken(m) && m@ == complaint,
    }
}

/// What an event leads to.
pub open spec fn turn_step(
    pre: TurnState,
    event: TurnEvent,
    post: TurnState,
    action: TurnAction,
) -> bool {
    match event {
        TurnEvent::Cancelled => post == pre && action == TurnAction::Abort,
        TurnEvent::Closed => post == pre && (action matches TurnAction::Fail(e)
            && error::is_stream_error(e, "stream closed before response.completed"@)),
        TurnEvent::Failed(e) => post == pre && action == TurnAction::Fail(e),
        TurnEvent::Received { event, reading } => match event {
            ResponseEvent::Created => post == pre && action == TurnAction::Wait,
            ResponseEvent::OutputItemDone(item) => done_step(pre, item, reading, post, action),
            ResponseEvent::OutputItemAdded(item) => {
                &&& post.output == pre.output
                &&& match shown(item, reading.turn_item) {
                    Some(turn_item) => {
                        &&& post.active_item == Some(turn_item)
                        &&& action == (TurnAction::Show {
                            started: Some(turn_item),
                            completed: None,
                        })
                    },
                    None => post.active_item == pre.active_item && action == TurnAction::Wait,
                }
            },
            ResponseEvent::RateLimits(snapshot) => post == pre && action
                == TurnAction::UpdateRateLimits(snapshot),
            ResponseEvent::Completed { token_usage, .. } => post == pre && action
                == (TurnAction::Complete { token_usage }),
            ResponseEvent::OutputTextDelta(delta) => post == pre && delta_step(
                pre,
                DeltaKind::AgentMessage,
                delta,
                "ReasoningSummaryDelta without active item"@,
                action,
            ),
            ResponseEvent::ReasoningSummaryDelta { delta, .. } => post == pre && delta_step(
                pre,
                DeltaKind::ReasoningSummary,
                delta,
                "ReasoningSummaryDelta without active item"@,
                action,
            ),
            ResponseEvent::ReasoningSummaryPartAdded { .. } => post == pre && action
                == TurnAction::SectionBreak,
            ResponseEvent::ReasoningContentDelta { delta, .. } => post == pre && delta_step(
                pre,
                DeltaKind::ReasoningRaw,
                delta,
                "ReasoningRawContentDelta without active item"@,
                action,
            ),
        },
    }
}

/// What the user sees of an item that calls no tool; `turn_item` is what it reads as.
pub fn handle_non_tool_response_item(item: &ResponseItem, turn_item: Option<TurnItem>) -> (r: Option<
    TurnItem,
>)
    ensures
        r == shown(*item, turn_item),
{
    match item {
        ResponseItem::Message { .. }
        | ResponseItem::Reasoning { .. }
        | ResponseItem::WebSearchCall { .. } => turn_item,
        _ => None,
    }
}

/// An item whose call failed before it began.
fn failed_slot(item: ResponseItem, message: String) -> (r: OutputSlot)
    ensures
        is_failed_slot(r, item, message@),
{
    OutputSlot::Ready(
        ProcessedResponseItem {
            item,
            response: Some(
                ResponseInputItem::FunctionCallOutput {
                    call_id: String::new(),
                    output: FunctionCallOutputPayload {
                        content: message,
                        content_items: None,
                        success: None,
                    },
                },
            ),
        },
    )
}

impl TurnState {
    pub fn new() -> (r: Self)
        ensures
            r.active_item is None,
            r.output@.len() == 0,
    {
        TurnState { active_item: None, output: Vec::new() }
    }

    /// Takes note of an event and says what to do next.
    pub fn try_run_turn(&mut self, event: TurnEvent) -> (action: TurnAction)
        ensures
            turn_step(*old(self), event, *final(self), action),
    {
        match event {
            TurnEvent::Cancelled => TurnAction::Abort,
            TurnEvent::Closed => TurnAction::Fail(
                CodexErr::Stream("stream closed before response.completed".to_owned(), None),
            ),
            TurnEvent::Failed(e) => TurnAction::Fail(e),
            TurnEvent::Received { event, reading } => match event {
                ResponseEvent::Created => TurnAction::Wait,
                ResponseEvent::OutputItemDone(item) => self.item_done(item, reading),
                ResponseEvent::OutputItemAdded(item) => {
                    match handle_non_tool_response_item(&item, reading.turn_item) {
                        Some(turn_item) => {
                            self.active_item = Some(turn_item.copy());
                            TurnAction::Show { started: Some(turn_item), completed: None }
                        },
                        None => TurnAction::Wait,
                    }
                },
                ResponseEvent::RateLimits(snapshot) => TurnAction::UpdateRateLimits(snapshot),
                ResponseEvent::Completed { token_usage, .. } => TurnAction::Complete {
                    token_usage,
                },
                ResponseEvent::OutputTextDelta(delta) => self.piece(
                    DeltaKind::AgentMessage,
                    delta,
                    "ReasoningSummaryDelta without active item",
                ),
                ResponseEvent::ReasoningSummaryDelta { delta, .. } => self.piece(
                    DeltaKind::ReasoningSummary,
                    delta,
                    "ReasoningSummaryDelta without active item",
                ),
                ResponseEvent::ReasoningSummaryPartAdded { .. } => TurnAction::SectionBreak,
                ResponseEvent::ReasoningContentDelta { delta, .. } => self.piece(
                    DeltaKind::ReasoningRaw,
                    delta,
                    "ReasoningRawContentDelta without active item",
                ),
            },
        }
    }

    /// What an item that the model completed leads to.
    fn item_done(&mut self, item: ResponseItem, reading: ItemReading) -> (action: TurnAction)
        ensures
            done_step(*old(self), item, reading, *final(self), action),
    {
        let previously_active_item = self.active_item.take();
        match reading.is_tool_call {
            Ok(true) => {
                self.output.push(OutputSlot::Call(item));
                TurnAction::StartCall
            },
            Ok(false) => {
                let turn_item = handle_non_tool_response_item(&item, reading.turn_item);
                self.output.push(
                    OutputSlot::Ready(ProcessedResponseItem { item, response: None }),
                );
                match turn_item {
                    Some(turn_item) => {
                        let started = match previously_active_item {
                            None => Some(turn_item.copy()),
                            Some(_) => None,
                        };
                        TurnAction::Show { started, completed: Some(turn_item) }
                    },
                    None => TurnAction::Wait,
                }
            },
            Err(FunctionCallError::MissingLocalShellCallId) => {
                self.output.push(
                    failed_slot(item, "LocalShellCall without call_id or id".to_owned()),
                );
                assert(self.output@.drop_last() =~= old(self).output@);
                TurnAction::Wait
            },
            Err(FunctionCallError::RespondToModel(message)) | Err(
                FunctionCallError::Denied(message),
            ) => {
                self.output.push(failed_slot(item, message));
                assert(self.output@.drop_last() =~= old(self).output@);
                TurnAction::Wait
            },
            Err(FunctionCallError::Fatal(message)) => TurnAction::Fail(CodexErr::Fatal(message)),
        }
    }

    /// What a piece of text leads to.
    fn piece(&self, kind: DeltaKind, delta: String, complaint: &str) -> (action: TurnAction)
        ensures
            delta_step(*self, kind, delta, complaint@, action),
    {
        match &self.active_item {
            Some(active) => TurnAction::Delta { kind, item_id: active.id.clone(), delta },
            None => TurnAction::Broken(complaint.to_owned()),
        }
    }
}

/// The item of a slot.
pub open spec fn slot_item(slot: OutputSlot) -> ResponseItem {
    match slot {
        OutputSlot::Ready(p) => p.item,
        OutputSlot::Call(item) => item,
    }
}

/// The error of a slot whose call failed.
pub open spec fn slot_error(slot: SettledSlot) -> Option<CodexErr> {
    match slot {
        SettledSlot::Called { outcome: Err(e), .. } => Some(e),
        _ => None,
    }
}

/// What a slot came to.
pub open spec fn slot_outcome(slot: SettledSlot) -> ProcessedResponseItem {
    match slot {
        SettledSlot::Ready(p) => p,
        SettledSlot::Called { item, outcome } => ProcessedResponseItem {
            item,
            response: match outcome {
                Ok(response) => Some(response),
                Err(_) => None,
            },
        },
    }
}

/// Whether the slots from the first to the one before `k` hold no error.
pub open spec fn no_error_before(slots: Seq<SettledSlot>, k: int) -> bool {
    forall|i: int| 0 <= i < k ==> slot_error(#[trigger] slots[i]) is None
}

/// Whether `r` is what the slots came to: all items in their order, or the first error.
pub open spec fn is_collected(
    slots: Seq<SettledSlot>,
    r: Result<Vec<ProcessedResponseItem>, CodexErr>,
) -> bool {
    match r {
        Ok(items) => {
            &&& no_error_before(slots, slots.len() as int)
            &&& items@ == slots.map_values(|s: SettledSlot| slot_outcome(s))
        },
        Err(e) => exists|k: int|
            0 <= k < slots.len() && no_error_before(slots, k) && slot_error(#[trigger] slots[k])
                == Some(e),
    }
}

/// What the slots came to, in the order in which the model sent the items.
pub fn collect_output(slots: Vec<SettledSlot>) -> (r: Result<Vec<ProcessedResponseItem>, CodexErr>)
    ensures
        is_collected(slots@, r),
{
    let ghost all = slots@;
    let ghost outcomes = all.map_values(|s: SettledSlot| slot_outcome(s));
    let mut rest = slots;
    let mut items: Vec<ProcessedResponseItem> = Vec::new();
    let ghost mut k: int = 0;
    assert(rest@ =~= all.skip(0));
    while rest.len() > 0
        invariant
            all == slots@,
            0 <= k <= all.len(),
            rest@ == all.skip(k),
            outcomes == all.map_values(|s: SettledSlot| slot_outcome(s)),
            items@ == outcomes.take(k),
            no_error_before(all, k),
        decreases rest@.len(),
    {
        let slot = rest.remove(0);
        proof {
            assert(slot == all[k]);
            assert(rest@ =~= all.skip(k + 1));
            assert(outcomes.take(k + 1) =~= outcomes.take(k).push(slot_outcome(all[k])));
        }
        match slot {
            SettledSlot::Ready(p) => items.push(p),
            SettledSlot::Called { item, outcome } => match outcome {
                Ok(response) => items.push(
                    ProcessedResponseItem { item, response: Some(response) },
                ),
                Err(e) => {
                    assert(slot_error(all[k]) == Some(e));
                    return Err(e);
                },
            },
        }
        proof {
            k = k + 1;
        }
    }
    assert(outcomes.take(k) =~= outcomes);
    Ok(items)
}

/// The result of a turn that the model completed.
pub fn completed_turn(slots: Vec<SettledSlot>, token_usage: Option<TokenUsage>) -> (r: Result<
    TurnRunResult,
    CodexErr,
>)
    ensures
        match r {
            Ok(result) => result.total_token_usage == token_usage && is_collected(
                slots@,
                Ok(result.processed_items),
            ),
            Err(e) => is_collected(slots@, Err(e)),
        },
{
    match collect_output(slots) {
        Ok(processed_items) => Ok(TurnRunResult { processed_items, total_token_usage: token_usage }),
        Err(e) => Err(e),
    }
}

/// What the user is told of the files that a turn changed: their differences, where there are any
/// and they could be found.
pub fn turn_diff(unified_diff: Result<Option<String>, String>) -> (r: Option<String>)
    ensures
        r == match unified_diff {
            Ok(diff) => diff,
            Err(_) => None,
        },
{
    match unified_diff {
        Ok(diff) => diff,
        Err(_) => None,
    }
}

/// The error of a turn that was cancelled: it keeps what the calls came to.
pub fn aborted_turn(slots: Vec<SettledSlot>) -> (r: CodexErr)
    ensures
        if no_error_before(slots@, slots@.len() as int) {
            r matches CodexErr::TurnAborted { dangling_artifacts } && is_collected(
                slots@,
                Ok(dangling_artifacts),
            )
        } else {
            is_collected(slots@, Err(r))
        },
{
    match collect_output(slots) {
        Ok(items) => CodexErr::TurnAborted { dangling_artifacts: items },
        Err(e) => e,
    }
}

/// What follows an attempt at a turn.
#[derive(Debug)]
pub enum TurnVerdict {
    /// The turn is over.
    Return(Result<TurnRunResult, CodexErr>),
    /// The conversation no longer fits: take note that it is full; the turn is over.
    ReturnFull(CodexErr),
    /// Take note of the rate limits; the turn is over.
    ReturnLimited { rate_limits: RateLimitSnapshot, err: CodexErr },
    /// Tell the user, wait, and try again. Where the server asked for no delay, it grows with the
    /// number of retries.
    Retry { message: String, delay: Option<RetryAfter>, retries: u64 },
}

/// Whether an error ends a turn at once.
pub open spec fn ends_turn(e: CodexErr) -> bool {
    ||| e is TurnAborted
    ||| e is Interrupted
    ||| e is EnvVar
    ||| e is Fatal
    ||| e is ContextWindowExceeded
    ||| e is UsageLimitReached
    ||| e is UsageNotIncluded
    ||| e is QuotaExceeded
    ||| e is RefreshTokenFailed
}

/// The delay that an error asks for.
pub open spec fn asked_delay(e: CodexErr) -> Option<RetryAfter> {
    match e {
        CodexErr::Stream(_, delay) => delay,
        _ => None,
    }
}

/// The words in which the user is told of a retry.
pub open spec fn retry_message(retries: int, max_retries: int) -> Seq<char> {
    "Reconnecting... "@ + text::decimal(retries as nat) + "/"@ + text::decimal(max_retries as nat)
}

/// What follows an attempt at a turn.
pub open spec fn verdict(
    outcome: Result<TurnRunResult, CodexErr>,
    retries: u64,
    max_retries: u64,
    r: TurnVerdict,
) -> bool {
    match outcome {
        Ok(_) => r == TurnVerdict::Return(outcome),
        Err(e) => match e {
            CodexErr::ContextWindowExceeded => r == TurnVerdict::ReturnFull(e),
            CodexErr::UsageLimitReached { rate_limits, .. } => match rate_limits {
                Some(limits) => r == (TurnVerdict::ReturnLimited { rate_limits: limits, err: e }),
                None => r == TurnVerdict::Return(outcome),
            },
            _ => if ends_turn(e) || retries >= max_retries {
                r == TurnVerdict::Return(outcome)
            } else {
                &&& r matches TurnVerdict::Retry { message, delay, retries: n }
                &&& n == retries + 1
                &&& delay == asked_delay(e)
                &&& message@ == retry_message(retries + 1, max_retries as int)
            },
        },
    }
}

impl RateLimitSnapshot {
    /// A copy of the limits.
    pub fn copy(&self) -> (r: Self)
        ensures
            r == *self,
    {
        RateLimitSnapshot {
            primary: self.primary,
            secondary: self.secondary,
            credits: match &self.credits {
                Some(c) => Some(
                    crate::protocol::CreditsSnapshot {
                        has_credits: c.has_credits,
                        unlimited: c.unlimited,
                        balance: match &c.balance {
                            Some(b) => Some(b.clone()),
                            None => None,
                        },
                    },
                ),
                None => None,
            },
        }
    }
}

/// What follows an attempt at a turn after which `retries` retries were made: success and errors
/// that a retry cannot mend end the turn; any other error is retried for as long as the provider
/// allows.
pub fn run_turn(outcome: Result<TurnRunResult, CodexErr>, retries: u64, max_retries: u64) -> (r:
    TurnVerdict)
    ensures
        verdict(outcome, retries, max_retries, r),
{
    let e = match outcome {
        Ok(output) => return TurnVerdict::Return(Ok(output)),
        Err(e) => e,
    };
    match e {
        CodexErr::TurnAborted { .. }
        | CodexErr::Interrupted
        | CodexErr::EnvVar(_)
        | CodexErr::Fatal(_)
        | CodexErr::UsageNotIncluded
        | CodexErr::QuotaExceeded
        | CodexErr::RefreshTokenFailed(_) => TurnVerdict::Return(Err(e)),
        CodexErr::ContextWindowExceeded => TurnVerdict::ReturnFull(e),
        CodexErr::UsageLimitReached { plan_type, resets_at, rate_limits } => {
            let copy = match &rate_limits {
                Some(limits) => Some(limits.copy()),
                None => None,
            };
            let err = CodexErr::UsageLimitReached { plan_type, resets_at, rate_limits };
            match copy {
                Some(rate_limits) => TurnVerdict::ReturnLimited { rate_limits, err },
                None => TurnVerdict::Return(Err(err)),
            }
        },
        e => {
            if retries < max_retries {
                let retries: u64 = retries + 1;
                let delay = match e {
                    CodexErr::Stream(_, delay) => delay,
                    _ => None,
                };
                let mut message = "Reconnecting... ".to_owned();
                text::push_decimal(&mut message, retries);
                message.append("/");
                text::push_decimal(&mut message, max_retries);
                TurnVerdict::Retry { message, delay, retries }
            } else {
                TurnVerdict::Return(Err(e))
            }
        },
    }
}

/// A turn that is retried has been retried no more often than the provider allows, and a retry
/// takes one of the retries that are left.
pub proof fn law_retries_are_bounded(
    outcome: Result<TurnRunResult, CodexErr>,
    retries: u64,
    max_retries: u64,
    r: TurnVerdict,
)
    requires
        verdict(outcome, retries, max_retries, r),
    ensures
        r matches TurnVerdict::Retry { retries: n, .. } ==> {
            &&& retries < n <= max_retries
            &&& outcome matches Err(e)
            &&& !ends_turn(e)
        },
{
}

/// The items of a turn are never dropped or reordered while it runs: an event adds at most one item
/// at the end.
pub proof fn law_items_stay_in_order(
    pre: TurnState,
    event: TurnEvent,
    post: TurnState,
    action: TurnAction,
    i: int,
)
    requires
        turn_step(pre, event, post, action),
        0 <= i < pre.output@.len(),
    ensures
        pre.output@.len() <= post.output@.len() <= pre.output@.len() + 1,
        post.output@[i] == pre.output@[i],
{
    if post.output@.len() == pre.output@.len() + 1 {
        assert(post.output@.drop_last()[i] == post.output@[i]);
    }
}

/// Every item that the model completes is kept, unless its call fails beyond repair; then the turn
/// ends.
pub proof fn law_completed_item_is_kept(
    pre: TurnState,
    item: ResponseItem,
    reading: ItemReading,
    post: TurnState,
    action: TurnAction,
)
    requires
        turn_step(
            pre,
            TurnEvent::Received { event: ResponseEvent::OutputItemDone(item), reading },
            post,
            action,
        ),
    ensures
        reading.is_tool_call matches Err(FunctionCallError::Fatal(_)) || (post.output@.len() > 0
            && slot_item(post.output@.last()) == item),
        reading.is_tool_call matches Err(FunctionCallError::Fatal(m)) ==> action
            == TurnAction::Fail(CodexErr::Fatal(m)),
{
}

/// An item that the user is shown as complete was shown as begun before, or is now.
pub proof fn law_completed_item_was_started(
    pre: TurnState,
    event: TurnEvent,
    post: TurnState,
    action: TurnAction,
)
    requires
        turn_step(pre, event, post, action),
        action matches TurnAction::Show { completed: Some(_), .. },
    ensures
        action matches TurnAction::Show { started, completed: Some(c) } && match started {
            Some(s) => s == c,
            None => pre.active_item is Some,
        },
{
}

/// A piece of text or reasoning is told of the item that the model works on, as what it is; without
/// such an item the protocol is broken. Nothing changes either way.
pub proof fn law_pieces_belong_to_the_active_item(
    pre: TurnState,
    event: ResponseEvent,
    reading: ItemReading,
    post: TurnState,
    action: TurnAction,
)
    requires
        turn_step(pre, TurnEvent::Received { event, reading }, post, action),
        event is OutputTextDelta || event is ReasoningSummaryDelta || event
            is ReasoningContentDelta,
    ensures
        post == pre,
        pre.active_item is Some ==> match event {
            ResponseEvent::OutputTextDelta(delta) => action == (TurnAction::Delta {
                kind: DeltaKind::AgentMessage,
                item_id: (pre.active_item->0).id,
                delta,
            }),
            ResponseEvent::ReasoningSummaryDelta { delta, .. } => action == (TurnAction::Delta {
                kind: DeltaKind::ReasoningSummary,
                item_id: (pre.active_item->0).id,
                delta,
            }),
            ResponseEvent::ReasoningContentDelta { delta, .. } => action == (TurnAction::Delta {
                kind: DeltaKind::ReasoningRaw,
                item_id: (pre.active_item->0).id,
                delta,
            }),
            _ => false,
        },
        pre.active_item is None ==> (action matches TurnAction::Broken(m) && m@ == if event
            is ReasoningContentDelta {
            "ReasoningRawContentDelta without active item"@
        } else {
            "ReasoningSummaryDelta without active item"@
        }),
{
}

/// An item that the model begins becomes the one it works on, and is told of, where it is a message,
/// reasoning or a web search that can be shown; any other changes nothing.
pub proof fn law_begun_item_becomes_active(
    pre: TurnState,
    item: ResponseItem,
    reading: ItemReading,
    post: TurnState,
    action: TurnAction,
)
    requires
        turn_step(
            pre,
            TurnEvent::Received { event: ResponseEvent::OutputItemAdded(item), reading },
            post,
            action,
        ),
    ensures
        post.output == pre.output,
        (item is Message || item is Reasoning || item is WebSearchCall) && reading.turn_item is Some
            ==> post.active_item == reading.turn_item && action == (TurnAction::Show {
            started: reading.turn_item,
            completed: None,
        }),
        !(item is Message || item is Reasoning || item is WebSearchCall) || reading.turn_item
            is None ==> post.active_item == pre.active_item && action == TurnAction::Wait,
{
}

/// An item that is done is no longer worked on. A tool call is started and waits for its outcome;
/// another item is kept as it is, and told of where it can be shown; and one whose call cannot be
/// understood is kept with the reason as its output, which goes back to the model. Only a fatal
/// reason ends the turn.
pub proof fn law_done_item_is_dealt_with(
    pre: TurnState,
    item: ResponseItem,
    reading: ItemReading,
    post: TurnState,
    action: TurnAction,
)
    requires
        turn_step(
            pre,
            TurnEvent::Received { event: ResponseEvent::OutputItemDone(item), reading },
            post,
            action,
        ),
    ensures
        post.active_item is None,
        match reading.is_tool_call {
            Ok(true) => action == TurnAction::StartCall && post.output@ == pre.output@.push(
                OutputSlot::Call(item),
            ),
            Ok(false) => post.output@ == pre.output@.push(
                OutputSlot::Ready(ProcessedResponseItem { item, response: None }),
            ) && if (item is Message || item is Reasoning || item is WebSearchCall)
                && reading.turn_item is Some {
                action == (TurnAction::Show {
                    started: if pre.active_item is None {
                        reading.turn_item
                    } else {
                        None
                    },
                    completed: reading.turn_item,
                })
            } else {
                action == TurnAction::Wait
            },
            Err(FunctionCallError::Fatal(m)) => action == TurnAction::Fail(CodexErr::Fatal(m))
                && post.output@ == pre.output@,
            Err(why) => {
                &&& action == TurnAction::Wait
                &&& post.output@.len() == pre.output@.len() + 1
                &&& post.output@.drop_last() == pre.output@
                &&& post.output@.last() matches OutputSlot::Ready(kept)
                &&& kept.item == item
                &&& kept.response matches Some(
                    ResponseInputItem::FunctionCallOutput { call_id, output },
                )
                &&& call_id@.len() == 0
                &&& output.content_items is None
                &&& output.success is None
                &&& match why {
                    FunctionCallError::MissingLocalShellCallId => output.content@
                        == "LocalShellCall without call_id or id"@,
                    FunctionCallError::RespondToModel(m) => output.content@ == m@,
                    FunctionCallError::Denied(m) => output.content@ == m@,
                    FunctionCallError::Fatal(_) => false,
                }
            },
        },
{
}

/// The other events change nothing that is kept: a cancelled turn is aborted, a stream that fails or
/// closes too early fails the turn, and a completed one ends it with its tokens.
pub proof fn law_other_events_change_nothing(
    pre: TurnState,
    event: TurnEvent,
    post: TurnState,
    action: TurnAction,
)
    requires
        turn_step(pre, event, post, action),
    ensures
        match event {
            TurnEvent::Cancelled => post == pre && action == TurnAction::Abort,
            TurnEvent::Closed => post == pre && (action matches TurnAction::Fail(
                CodexErr::Stream(m, None),
            ) && m@ == "stream closed before response.completed"@),
            TurnEvent::Failed(e) => post == pre && action == TurnAction::Fail(e),
            TurnEvent::Received { event: received, .. } => match received {
                ResponseEvent::Created => post == pre && action == TurnAction::Wait,
                ResponseEvent::RateLimits(limits) => post == pre && action
                    == TurnAction::UpdateRateLimits(limits),
                ResponseEvent::Completed { token_usage, .. } => post == pre && action
                    == (TurnAction::Complete { token_usage }),
                ResponseEvent::ReasoningSummaryPartAdded { .. } => post == pre && action
                    == TurnAction::SectionBreak,
                _ => true,
            },
        },
{
}

/// What is collected of a turn is its items in order, each with what its call gave; an error of a
/// call is the outcome of the whole, and the first such error is the one.
pub proof fn law_outcomes_are_collected(
    slots: Seq<SettledSlot>,
    r: Result<Vec<ProcessedResponseItem>, CodexErr>,
    i: int,
)
    requires
        is_collected(slots, r),
        0 <= i < slots.len(),
    ensures
        match r {
            Ok(items) => items@.len() == slots.len() && match slots[i] {
                SettledSlot::Ready(p) => items@[i] == p,
                SettledSlot::Called { item, outcome: Ok(response) } => items@[i] == (
                ProcessedResponseItem { item, response: Some(response) }),
                SettledSlot::Called { outcome: Err(_), .. } => false,
            },
            Err(_) => true,
        },
        (slots[i] matches SettledSlot::Called { outcome: Err(e), .. } && forall|j: int|
            0 <= j < i ==> !((#[trigger] slots[j]) is Called && slots[j]->outcome is Err)) ==> r
            is Err && r->Err_0 == slots[i]->outcome->Err_0,
{
    if slots[i] is Called && slots[i]->outcome is Err {
        assert(slot_error(slots[i]) is Some);
        if r is Err && forall|j: int|
            0 <= j < i ==> !((#[trigger] slots[j]) is Called && slots[j]->outcome is Err) {
            let k = choose|k: int|
                0 <= k < slots.len() && no_error_before(slots, k) && slot_error(#[trigger] slots[k])
                    == Some(r->Err_0);
            assert(k <= i);
            assert(slots[k] is Called && slots[k]->outcome is Err);
        }
    } else {
        assert(slot_error(slots[i]) is None);
    }
}

/// A turn that failed is tried again exactly where attempts are left and the error is none of those
/// that trying again cannot help; the user is told how many there were, and the delay is the one
/// that the service asked for.
pub proof fn law_failed_turn_is_tried_again(
    e: CodexErr,
    retries: u64,
    max_retries: u64,
    r: TurnVerdict,
)
    requires
        verdict(Err(e), retries, max_retries, r),
    ensures
        ({
            let hopeless = match e {
                CodexErr::TurnAborted { .. } => true,
                CodexErr::Interrupted => true,
                CodexErr::EnvVar(_) => true,
                CodexErr::Fatal(_) => true,
                CodexErr::ContextWindowExceeded => true,
                CodexErr::UsageLimitReached { .. } => true,
                CodexErr::UsageNotIncluded => true,
                CodexErr::QuotaExceeded => true,
                CodexErr::RefreshTokenFailed(_) => true,
                _ => false,
            };
            &&& r is Retry <==> !hopeless && retries < max_retries
            &&& r matches TurnVerdict::Retry { message, delay, retries: n } ==> {
                &&& n == retries + 1
                &&& message@ == "Reconnecting... "@ + text::decimal((retries + 1) as nat) + "/"@
                    + text::decimal(max_retries as nat)
                &&& match e {
                    CodexErr::Stream(_, asked) => delay == asked,
                    _ => delay is None,
                }
            }
            &&& r is ReturnFull <==> e == CodexErr::ContextWindowExceeded
            &&& r is ReturnLimited <==> (e is UsageLimitReached && e->rate_limits is Some)
            &&& r matches TurnVerdict::ReturnLimited { rate_limits, err } ==> err == e && Some(
                rate_limits,
            ) == e->rate_limits
            &&& r matches TurnVerdict::ReturnFull(err) ==> err == e
            &&& r matches TurnVerdict::Return(outcome) ==> outcome == Err::<
                TurnRunResult,
                CodexErr,
            >(e)
        }),
{
}

/// A turn that went well is over.
pub proof fn law_good_turn_is_over(
    result: TurnRunResult,
    retries: u64,
    max_retries: u64,
    r: TurnVerdict,
)
    requires
        verdict(Ok(result), retries, max_retries, r),
    ensures
        r == TurnVerdict::Return(Ok(result)),
{
}

/// A turn that is complete has its tokens and its items; one that was aborted keeps what it had, as
/// long as none of its calls failed.
pub proof fn law_turn_ends_with_its_items(
    slots: Vec<SettledSlot>,
    usage: Option<TokenUsage>,
    done: Result<TurnRunResult, CodexErr>,
    aborted: CodexErr,
)
    requires
        call_ensures(completed_turn, (slots, usage), done),
        call_ensures(aborted_turn, (slots,), aborted),
    ensures
        ({
            let failed = exists|i: int|
                0 <= i < slots@.len() && (#[trigger] slots@[i]) is Called && slots@[i]->outcome
                    is Err;
            &&& failed <==> done is Err
            &&& done matches Ok(result) ==> result.total_token_usage == usage
                && result.processed_items@.len() == slots@.len()
            &&& !failed ==> (aborted matches CodexErr::TurnAborted { dangling_artifacts }
                && dangling_artifacts@.len() == slots@.len())
        }),
{
    assert forall|i: int| 0 <= i < slots@.len() implies (slot_error(#[trigger] slots@[i]) is Some) == (
    slots@[i] is Called && slots@[i]->outcome is Err) by {}
    if done is Err {
        let k = choose|k: int|
            0 <= k < slots@.len() && no_error_before(slots@, k) && slot_error(#[trigger] slots@[k])
                == Some(done->Err_0);
        assert(slots@[k] is Called);
    }
}

/// Changes are shown where there are any and they can be told.
pub proof fn law_changes_are_shown(diff: Result<Option<String>, String>, r: Option<String>)
    requires
        call_ensures(turn_diff, (diff,), r),
    ensures
        diff is Ok ==> r == diff->Ok_0,
        diff is Err ==> r is None,
{
}

} // verus!
