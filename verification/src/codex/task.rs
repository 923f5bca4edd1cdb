//! A task: turns of the conversation until the model has nothing more to do.
use vstd::prelude::*;

use crate::codex::turn::{ProcessedResponseItem, TurnRunResult};
use crate::error::CodexErr;
use crate::protocol::{ContentItem, ResponseItem, UserInput};
use crate::response_processing;
use crate::text;

verus! {

/// What follows a turn of a task.
#[derive(Debug)]
pub enum TaskNext {
    /// Another turn.
    GoOn,
    /// Summarise the conversation, and then another turn.
    AutoCompact,
    /// The model is done; this is its last message. The user is notified.
    Done(Option<String>),
    /// The task is over, with this error message.
    StillAboveLimit(String),
    /// The task was aborted, which is reported elsewhere.
    Aborted,
    /// The task is over; the user is told of the error and may continue the conversation.
    Failed(CodexErr),
}

/// What a turn of a task leads to: the items that the conversation keeps of it, and what follows.
#[derive(Debug)]
pub struct TaskStep {
    pub to_record: Vec<ResponseItem>,
    pub next: TaskNext,
}

/// How far a task has come.
#[derive(Debug)]
pub struct TaskState {
    /// Whether the conversation was summarised right before the last turn.
    pub auto_compact_recently_attempted: bool,
}

/// The text of a content item of an assistant's message.
pub open spec fn output_text(item: ContentItem) -> Option<String> {
    match item {
        ContentItem::OutputText { text } => Some(text),
        _ => None,
    }
}

/// The last text of a message.
pub open spec fn last_output_text(content: Seq<ContentItem>) -> Option<String>
    decreases content.len(),
{
    if content.len() == 0 {
        None
    } else {
        match output_text(content.last()) {
            Some(text) => Some(text),
            None => last_output_text(content.drop_last()),
        }
    }
}

/// The last text of an item that is a message of the assistant.
pub open spec fn assistant_text(item: ResponseItem) -> Option<String> {
    match item {
        ResponseItem::Message { role, content, .. } => if role@ == "assistant"@ {
            last_output_text(content@)
        } else {
            None
        },
        _ => None,
    }
}

/// The last text of the last message of the assistant that holds one.
pub open spec fn last_assistant_message(items: Seq<ResponseItem>) -> Option<String>
    decreases items.len(),
{
    if items.len() == 0 {
        None
    } else {
        match assistant_text(items.last()) {
            Some(text) => Some(text),
            None => last_assistant_message(items.drop_last()),
        }
    }
}

/// The last text of a message.
fn find_last_output_text(content: &Vec<ContentItem>) -> (r: Option<String>)
    ensures
        r == last_output_text(content@),
{
    let mut i: usize = content.len();
    assert(content@.take(i as int) =~= content@);
    while i > 0
        invariant
            i <= content@.len(),
            last_output_text(content@) == last_output_text(content@.take(i as int)),
        decreases i,
    {
        assert(content@.take(i as int).drop_last() =~= content@.take(i - 1));
        assert(content@.take(i as int).last() == content@[i - 1]);
        i -= 1;
        if let ContentItem::OutputText { text } = &content[i] {
            return Some(text.clone());
        }
    }
    None
}

/// What the assistant said last in a turn.
pub fn get_last_assistant_message_from_turn(responses: &Vec<ResponseItem>) -> (r: Option<String>)
    ensures
        r == last_assistant_message(responses@),
{
    let mut i: usize = responses.len();
    assert(responses@.take(i as int) =~= responses@);
    while i > 0
        invariant
            i <= responses@.len(),
            last_assistant_message(responses@) == last_assistant_message(
                responses@.take(i as int),
            ),
        decreases i,
    {
        assert(responses@.take(i as int).drop_last() =~= responses@.take(i - 1));
        assert(responses@.take(i as int).last() == responses@[i - 1]);
        i -= 1;
        if let ResponseItem::Message { role, content, .. } = &responses[i] {
            if text::same(role.as_str(), "assistant") {
                let found = find_last_output_text(content);
                if found.is_some() {
                    return found;
                }
            }
        }
    }
    None
}

/// The limit of tokens that a task runs under.
pub open spec fn token_limit(auto_compact_token_limit: Option<i64>) -> i64 {
    match auto_compact_token_limit {
        Some(limit) => limit,
        None => i64::MAX,
    }
}

/// Whether the conversation has come to the limit.
pub open spec fn limit_reached(total_usage_tokens: Option<i64>, limit: i64) -> bool {
    total_usage_tokens matches Some(tokens) && tokens >= limit
}

/// The words in which the user is told that a summary was not enough.
pub open spec fn limit_message(limit: i64, tokens: i64) -> Seq<char> {
    "Conversation is still above the token limit after automatic summarization (limit "@
        + text::signed_decimal(limit as int) + ", current "@ + text::signed_decimal(tokens as int)
        + "). Please start a new session or trim your input."@
}

/// What a turn that came to an end leads to.
pub open spec fn turn_done_step(
    pre: TaskState,
    items: Seq<ProcessedResponseItem>,
    limit: i64,
    total_usage_tokens: Option<i64>,
    post: TaskState,
    next: TaskNext,
) -> bool {
    if limit_reached(total_usage_tokens, limit) {
        if pre.auto_compact_recently_attempted {
            &&& post == pre
            &&& next matches TaskNext::StillAboveLimit(message)
            &&& message@ == limit_message(limit, total_usage_tokens->0)
        } else {
            post.auto_compact_recently_attempted && next == TaskNext::AutoCompact
        }
    } else {
        &&& !post.auto_compact_recently_attempted
        &&& if response_processing::responses_of(items).len() == 0 {
            next == TaskNext::Done(last_assistant_message(response_processing::recorded(items)))
        } else {
            next == TaskNext::GoOn
        }
    }
}

/// What a turn leads to.
pub open spec fn task_step(
    pre: TaskState,
    outcome: Result<TurnRunResult, CodexErr>,
    limit: i64,
    total_usage_tokens: Option<i64>,
    post: TaskState,
    step: TaskStep,
) -> bool {
    match outcome {
        Ok(output) => {
            &&& step.to_record@ == response_processing::recorded(output.processed_items@)
            &&& turn_done_step(
                pre,
                output.processed_items@,
                limit,
                total_usage_tokens,
                post,
                step.next,
            )
        },
        Err(CodexErr::TurnAborted { dangling_artifacts }) => {
            &&& post == pre
            &&& step.to_record@ == response_processing::recorded(dangling_artifacts@)
            &&& step.next == TaskNext::Aborted
        },
        Err(e) => {
            &&& post == pre
            &&& step.to_record@.len() == 0
            &&& step.next == TaskNext::Failed(e)
        },
    }
}

/// Whether there is anything to do: a task without input is none.
pub fn has_task(input: &Vec<UserInput>) -> (r: bool)
    ensures
        r == (input@.len() > 0),
{
    input.len() > 0
}

impl TaskState {
    pub fn new() -> (r: Self)
        ensures
            !r.auto_compact_recently_attempted,
    {
        TaskState { auto_compact_recently_attempted: false }
    }

    /// Takes note of what a turn came to and says what follows. `total_usage_tokens` is the number
    /// of tokens that the conversation takes up after the turn, where the model gave it.
    ///
    /// - If the model requests a function call, its output is sent back to the model in the next
    ///   turn.
    /// - If the model sends only an assistant message, it is recorded in the conversation history
    ///   and the task is complete.
    pub fn run_task(
        &mut self,
        outcome: Result<TurnRunResult, CodexErr>,
        auto_compact_token_limit: Option<i64>,
        total_usage_tokens: Option<i64>,
    ) -> (step: TaskStep)
        ensures
            task_step(
                *old(self),
                outcome,
                token_limit(auto_compact_token_limit),
                total_usage_tokens,
                *final(self),
                step,
            ),
    {
        match outcome {
            Ok(output) => {
                let limit: i64 = match auto_compact_token_limit {
                    Some(limit) => limit,
                    None => i64::MAX,
                };
                let (responses, to_record) = response_processing::process_items(
                    output.processed_items,
                );
                if let Some(tokens) = total_usage_tokens {
                    if tokens >= limit {
                        if self.auto_compact_recently_attempted {
                            let mut message =
                                "Conversation is still above the token limit after automatic summarization (limit ".to_owned();
                            text::push_signed(&mut message, limit);
                            message.append(", current ");
                            text::push_signed(&mut message, tokens);
                            message.append("). Please start a new session or trim your input.");
                            return TaskStep { to_record, next: TaskNext::StillAboveLimit(message) };
                        }
                        self.auto_compact_recently_attempted = true;
                        return TaskStep { to_record, next: TaskNext::AutoCompact };
                    }
                }
                self.auto_compact_recently_attempted = false;
                if responses.len() == 0 {
                    let last = get_last_assistant_message_from_turn(&to_record);
                    return TaskStep { to_record, next: TaskNext::Done(last) };
                }
                TaskStep { to_record, next: TaskNext::GoOn }
            },
            Err(CodexErr::TurnAborted { dangling_artifacts }) => {
                let (_, to_record) = response_processing::process_items(dangling_artifacts);
                TaskStep { to_record, next: TaskNext::Aborted }
            },
            Err(e) => TaskStep { to_record: Vec::new(), next: TaskNext::Failed(e) },
        }
    }
}

/// Whether a task goes on after a turn.
pub open spec fn goes_on(next: TaskNext) -> bool {
    next is GoOn || next is AutoCompact
}

/// A conversation is never summarised twice in a row: a turn right after a summary that still comes
/// to the limit ends the task.
pub proof fn law_no_two_summaries_in_a_row(
    first: TaskState,
    outcome1: Result<TurnRunResult, CodexErr>,
    outcome2: Result<TurnRunResult, CodexErr>,
    limit: i64,
    tokens1: Option<i64>,
    tokens2: Option<i64>,
    second: TaskState,
    third: TaskState,
    step1: TaskStep,
    step2: TaskStep,
)
    requires
        task_step(first, outcome1, limit, tokens1, second, step1),
        task_step(second, outcome2, limit, tokens2, third, step2),
        step1.next is AutoCompact,
    ensures
        step2.next !is AutoCompact,
        outcome2 is Ok && limit_reached(tokens2, limit) ==> !goes_on(step2.next),
{
}

/// Below the limit, a task goes on exactly as long as the model asks for something to be sent back
/// to it.
pub proof fn law_task_ends_when_nothing_is_sent_back(
    pre: TaskState,
    output: TurnRunResult,
    limit: i64,
    tokens: Option<i64>,
    post: TaskState,
    step: TaskStep,
)
    requires
        task_step(pre, Ok(output), limit, tokens, post, step),
        !limit_reached(tokens, limit),
    ensures
        goes_on(step.next) == (response_processing::responses_of(
            output.processed_items@,
        ).len() > 0),
        step.next is Done == (response_processing::responses_of(
            output.processed_items@,
        ).len() == 0),
{
}

/// Without a limit, no conversation is summarised, short of one that takes up all the tokens there
/// are.
pub proof fn law_no_limit_no_summary(
    pre: TaskState,
    outcome: Result<TurnRunResult, CodexErr>,
    tokens: Option<i64>,
    post: TaskState,
    step: TaskStep,
)
    requires
        task_step(pre, outcome, token_limit(None), tokens, post, step),
        tokens matches Some(n) ==> n < i64::MAX,
    ensures
        step.next !is AutoCompact,
        step.next !is StillAboveLimit,
{
}

/// The text of a message is its last output text.
pub proof fn law_last_text_counts(content: Seq<ContentItem>, i: int, text: String)
    requires
        0 <= i < content.len(),
        content[i] == (ContentItem::OutputText { text }),
        forall|j: int| i < j < content.len() ==> !(#[trigger] content[j] is OutputText),
    ensures
        last_output_text(content) == Some(text),
    decreases content.len(),
{
    if i < content.len() - 1 {
        let shorter = content.drop_last();
        assert(!(content[content.len() - 1] is OutputText));
        assert forall|j: int| i < j < shorter.len() implies !(#[trigger] shorter[j]
            is OutputText) by {
            assert(shorter[j] == content[j]);
        }
        law_last_text_counts(shorter, i, text);
    }
}

/// A message without output text has none.
pub proof fn law_no_text_no_message(content: Seq<ContentItem>)
    requires
        forall|j: int| 0 <= j < content.len() ==> !(#[trigger] content[j] is OutputText),
    ensures
        last_output_text(content) is None,
    decreases content.len(),
{
    if content.len() > 0 {
        let shorter = content.drop_last();
        assert(!(content[content.len() - 1] is OutputText));
        assert forall|j: int| 0 <= j < shorter.len() implies !(#[trigger] shorter[j]
            is OutputText) by {
            assert(shorter[j] == content[j]);
        }
        law_no_text_no_message(shorter);
    }
}

/// Whether an item is a message of the assistant with output text.
pub open spec fn speaks(item: ResponseItem) -> bool {
    match item {
        ResponseItem::Message { role, content, .. } => role@ == "assistant"@ && exists|k: int|
            0 <= k < content@.len() && (#[trigger] content@[k]) is OutputText,
        _ => false,
    }
}

proof fn lemma_speaks(item: ResponseItem)
    ensures
        speaks(item) <==> assistant_text(item) is Some,
{
    if let ResponseItem::Message { role, content, .. } = item {
        if exists|k: int| 0 <= k < content@.len() && (#[trigger] content@[k]) is OutputText {
            lemma_some_text(content@);
        } else {
            law_no_text_no_message(content@);
        }
    }
}

proof fn lemma_some_text(content: Seq<ContentItem>)
    requires
        exists|k: int| 0 <= k < content.len() && (#[trigger] content[k]) is OutputText,
    ensures
        last_output_text(content) is Some,
    decreases content.len(),
{
    let k = choose|k: int| 0 <= k < content.len() && (#[trigger] content[k]) is OutputText;
    if k < content.len() - 1 {
        assert(content.drop_last()[k] == content[k]);
        lemma_some_text(content.drop_last());
    }
}

/// The last message of a turn is the text of the last message of the assistant that has any; what
/// others say, and what tools give, does not count.
pub proof fn law_assistant_has_the_last_word(items: Seq<ResponseItem>, i: int)
    requires
        0 <= i < items.len(),
        speaks(items[i]),
        forall|j: int| i < j < items.len() ==> !speaks(#[trigger] items[j]),
    ensures
        items[i] matches ResponseItem::Message { content, .. } && last_assistant_message(items)
            == last_output_text(content@),
        last_assistant_message(items) is Some,
    decreases items.len(),
{
    lemma_speaks(items.last());
    lemma_speaks(items[i]);
    if i < items.len() - 1 {
        let shorter = items.drop_last();
        assert(!speaks(items[items.len() - 1]));
        assert forall|j: int| i < j < shorter.len() implies !speaks(#[trigger] shorter[j]) by {
            assert(shorter[j] == items[j]);
        }
        law_assistant_has_the_last_word(shorter, i);
    }
}

/// Without such a message there is no last message.
pub proof fn law_silent_turn_has_no_message(items: Seq<ResponseItem>)
    requires
        forall|j: int| 0 <= j < items.len() ==> !speaks(#[trigger] items[j]),
    ensures
        last_assistant_message(items) is None,
    decreases items.len(),
{
    if items.len() > 0 {
        let shorter = items.drop_last();
        assert(!speaks(items[items.len() - 1]));
        lemma_speaks(items.last());
        assert forall|j: int| 0 <= j < shorter.len() implies !speaks(#[trigger] shorter[j]) by {
            assert(shorter[j] == items[j]);
        }
        law_silent_turn_has_no_message(shorter);
    }
}

/// What follows a turn that went well. Where the tokens have reached the limit the conversation is
/// summarised, or, if that was done just before, the task ends and the user is told both numbers;
/// else it goes on exactly where there is something to send back, and ends with the last message of
/// the assistant. What the turn gave is recorded in every case.
pub proof fn law_tokens_and_answers_decide(
    pre: TaskState,
    output: TurnRunResult,
    configured: Option<i64>,
    tokens: Option<i64>,
    post: TaskState,
    step: TaskStep,
)
    requires
        task_step(pre, Ok(output), token_limit(configured), tokens, post, step),
    ensures
        ({
            let items = output.processed_items@;
            let limit = if configured is Some {
                configured->0
            } else {
                0x7fff_ffff_ffff_ffffi64
            };
            let above = tokens is Some && tokens->0 >= limit;
            &&& step.to_record@ == response_processing::recorded(items)
            &&& above && !pre.auto_compact_recently_attempted ==> step.next == TaskNext::AutoCompact
                && post.auto_compact_recently_attempted
            &&& above && pre.auto_compact_recently_attempted ==> (
            step.next matches TaskNext::StillAboveLimit(message) && message@
                == "Conversation is still above the token limit after automatic summarization (limit "@
                + text::signed_decimal(limit as int) + ", current "@ + text::signed_decimal(
                tokens->0 as int,
            ) + "). Please start a new session or trim your input."@)
            &&& above && pre.auto_compact_recently_attempted ==> post == pre
            &&& !above ==> !post.auto_compact_recently_attempted
            &&& !above && (exists|i: int| 0 <= i < items.len() && (#[trigger] items[i]).response
                is Some) ==> step.next == TaskNext::GoOn
            &&& !above && (forall|i: int|
                0 <= i < items.len() ==> (#[trigger] items[i]).response is None) ==> step.next
                == TaskNext::Done(last_assistant_message(response_processing::recorded(items)))
        }),
{
    let items = output.processed_items@;
    response_processing::lemma_responses_count(items);
}

/// A turn that was aborted is recorded as far as it went, and ends the task; any other error ends it
/// with the error and records nothing.
pub proof fn law_errors_end_the_task(
    pre: TaskState,
    e: CodexErr,
    limit: i64,
    tokens: Option<i64>,
    post: TaskState,
    step: TaskStep,
)
    requires
        task_step(pre, Err(e), limit, tokens, post, step),
    ensures
        post == pre,
        match e {
            CodexErr::TurnAborted { dangling_artifacts } => step.next == TaskNext::Aborted
                && step.to_record@ == response_processing::recorded(dangling_artifacts@),
            _ => step.next == TaskNext::Failed(e) && step.to_record@.len() == 0,
        },
{
}

/// There is something to do exactly where there is input.
pub proof fn law_input_is_a_task(input: Vec<UserInput>, r: bool)
    requires
        call_ensures(has_task, (&input,), r),
    ensures
        r <==> input@.len() > 0,
{
}

} // verus!
