//! The request that asks the model for an answer.
use vstd::prelude::*;

use crate::json::JsonValue;
use crate::named;
use crate::protocol::{ReasoningEffort, ReasoningSummary, ResponseItem};
use crate::text;

verus! {

/// How much the model says.
#[derive(Debug, PartialEq, Eq, Clone, Copy, Structural)]
pub enum Verbosity {
    Low,
    Medium,
    High,
}

/// What a request asks of the model's reasoning.
#[derive(Debug, PartialEq, Eq, Clone, Copy, Structural)]
pub struct Reasoning {
    pub effort: Option<ReasoningEffort>,
    pub summary: Option<ReasoningSummary>,
}

/// What the choice of a request's options depends on.
#[derive(Debug, PartialEq, Eq, Clone, Copy, Structural)]
pub struct ModelOptions {
    pub supports_reasoning_summaries: bool,
    pub default_reasoning_effort: Option<ReasoningEffort>,
    pub support_verbosity: bool,
    pub default_verbosity: Option<Verbosity>,
    pub effort: Option<ReasoningEffort>,
    pub summary: ReasoningSummary,
    pub model_verbosity: Option<Verbosity>,
    /// Whether the endpoint is one that rejects requests which are not to be stored.
    pub is_azure_responses_endpoint: bool,
}

/// The options of a request.
#[derive(Debug)]
pub struct RequestOptions {
    pub reasoning: Option<Reasoning>,
    /// What else the answer is to hold.
    pub extra_output: Vec<String>,
    pub verbosity: Option<Verbosity>,
    pub store: bool,
    pub stream: bool,
    pub tool_choice: String,
}

/// The first of two values that is there.
pub open spec fn either<T>(a: Option<T>, b: Option<T>) -> Option<T> {
    if a is Some {
        a
    } else {
        b
    }
}

/// Whether `r` are the options of a request: reasoning is asked for only where the model
/// summarises it, and its encrypted content with it; the verbosity only where the model knows it.
pub open spec fn are_options_of(r: RequestOptions, model: ModelOptions) -> bool {
    &&& r.reasoning == if model.supports_reasoning_summaries {
        Some(
            Reasoning {
                effort: either(model.effort, model.default_reasoning_effort),
                summary: Some(model.summary),
            },
        )
    } else {
        None
    }
    &&& text::texts(r.extra_output@) == if model.supports_reasoning_summaries {
        seq!["reasoning.encrypted_content"@]
    } else {
        Seq::<Seq<char>>::empty()
    }
    &&& r.verbosity == if model.support_verbosity {
        either(model.model_verbosity, model.default_verbosity)
    } else {
        None
    }
    &&& r.store == model.is_azure_responses_endpoint
    &&& r.stream
    &&& r.tool_choice@ == "auto"@
}

/// Chooses the options of a request.
pub fn request_options(model: &ModelOptions) -> (r: RequestOptions)
    ensures
        are_options_of(r, *model),
{
    let mut extra_output: Vec<String> = Vec::new();
    let reasoning = if model.supports_reasoning_summaries {
        extra_output.push("reasoning.encrypted_content".to_owned());
        let effort = match model.effort {
            Some(effort) => Some(effort),
            None => model.default_reasoning_effort,
        };
        Some(Reasoning { effort, summary: Some(model.summary) })
    } else {
        None
    };
    assert(text::texts(extra_output@) =~= if model.supports_reasoning_summaries {
        seq!["reasoning.encrypted_content"@]
    } else {
        Seq::<Seq<char>>::empty()
    });
    let verbosity = if model.support_verbosity {
        match model.model_verbosity {
            Some(verbosity) => Some(verbosity),
            None => model.default_verbosity,
        }
    } else {
        None
    };
    RequestOptions {
        reasoning,
        extra_output,
        verbosity,
        store: model.is_azure_responses_endpoint,
        stream: true,
        tool_choice: "auto".to_owned(),
    }
}

/// Where a session was started from, where that was another agent.
#[derive(Debug)]
pub enum SubAgentSource {
    /// An agent with a label of its own.
    Other(String),
    /// One of the known agents, by the name it is written with, where that is a text.
    Known(Option<String>),
}

/// The label of an agent that started a session.
pub open spec fn subagent_label(sub: SubAgentSource) -> Seq<char> {
    match sub {
        SubAgentSource::Other(label) => label@,
        SubAgentSource::Known(Some(name)) => name@,
        SubAgentSource::Known(None) => "other"@,
    }
}

/// The credentials that a request is made with.
#[derive(Debug)]
pub struct RequestAuth {
    pub is_chatgpt: bool,
    pub account_id: Option<String>,
}

/// Names and values over characters.
pub open spec fn header_texts(list: Seq<(String, String)>) -> Seq<(Seq<char>, Seq<char>)> {
    Seq::new(list.len(), |i: int| (list[i].0@, list[i].1@))
}

/// The header that tells which agent started the session.
pub open spec fn subagent_headers(source: Option<SubAgentSource>) -> Seq<(Seq<char>, Seq<char>)> {
    match source {
        Some(sub) => seq![("x-openai-subagent"@, subagent_label(sub))],
        None => Seq::empty(),
    }
}

/// The header that tells the account, for users who are logged in.
pub open spec fn account_headers(auth: Option<RequestAuth>) -> Seq<(Seq<char>, Seq<char>)> {
    match auth {
        Some(a) => match a.account_id {
            Some(id) => if a.is_chatgpt {
                seq![("chatgpt-account-id"@, id@)]
            } else {
                Seq::empty()
            },
            None => Seq::empty(),
        },
        None => Seq::empty(),
    }
}

/// Appends the header that tells which agent started the session.
fn push_subagent(list: &mut Vec<(String, String)>, source: Option<SubAgentSource>)
    ensures
        header_texts(final(list)@) == header_texts(old(list)@) + subagent_headers(source),
{
    if let Some(sub) = source {
        let ghost label = subagent_label(sub);
        let name = match sub {
            SubAgentSource::Other(label) => label,
            SubAgentSource::Known(Some(name)) => name,
            SubAgentSource::Known(None) => "other".to_owned(),
        };
        list.push(("x-openai-subagent".to_owned(), name));
        assert(header_texts(list@) =~= header_texts(old(list)@).push(
            ("x-openai-subagent"@, label),
        ));
    }
    assert(header_texts(list@) =~= header_texts(old(list)@) + subagent_headers(source));
}

/// Appends the header that tells the account, for users who are logged in.
fn push_account(list: &mut Vec<(String, String)>, auth: Option<RequestAuth>)
    ensures
        header_texts(final(list)@) == header_texts(old(list)@) + account_headers(auth),
{
    if let Some(a) = auth {
        if a.is_chatgpt {
            if let Some(id) = a.account_id {
                let ghost text = id@;
                list.push(("chatgpt-account-id".to_owned(), id));
                assert(header_texts(list@) =~= header_texts(old(list)@).push(
                    ("chatgpt-account-id"@, text),
                ));
            }
        }
    }
    assert(header_texts(list@) =~= header_texts(old(list)@) + account_headers(auth));
}

/// The headers of a request for a streamed answer.
pub fn stream_headers(
    source: Option<SubAgentSource>,
    conversation_id: &str,
    auth: Option<RequestAuth>,
) -> (r: Vec<(String, String)>)
    ensures
        header_texts(r@) == subagent_headers(source) + seq![
            ("conversation_id"@, conversation_id@),
            ("session_id"@, conversation_id@),
            ("accept"@, "text/event-stream"@),
        ] + account_headers(auth),
{
    let mut list: Vec<(String, String)> = Vec::new();
    push_subagent(&mut list, source);
    let ghost first = header_texts(list@);
    assert(first =~= subagent_headers(source));
    list.push(("conversation_id".to_owned(), conversation_id.to_owned()));
    list.push(("session_id".to_owned(), conversation_id.to_owned()));
    list.push(("accept".to_owned(), "text/event-stream".to_owned()));
    assert(header_texts(list@) =~= first + seq![
        ("conversation_id"@, conversation_id@),
        ("session_id"@, conversation_id@),
        ("accept"@, "text/event-stream"@),
    ]);
    push_account(&mut list, auth);
    list
}

/// The headers of a request for a compacted history.
pub fn compact_headers(source: Option<SubAgentSource>, auth: Option<RequestAuth>) -> (r: Vec<
    (String, String),
>)
    ensures
        header_texts(r@) == subagent_headers(source) + account_headers(auth),
{
    let mut list: Vec<(String, String)> = Vec::new();
    push_subagent(&mut list, source);
    assert(header_texts(list@) =~= subagent_headers(source));
    push_account(&mut list, auth);
    list
}

/// What a request for a compacted history came to.
#[derive(Debug)]
pub enum CompactReply {
    /// There is no history; nothing was asked.
    NothingToCompact,
    /// The service could not be reached, or its answer not be read.
    ConnectionFailed(String),
    /// The service answered with a status and a body; the body read as a list of items, or why it
    /// cannot be read so.
    Answered { status: u16, body: String, output: Result<Vec<ResponseItem>, String> },
}

/// The product of two numbers, held to the range of an `i64`.
pub open spec fn saturated_product(a: int, b: int) -> int {
    if a * b > i64::MAX {
        i64::MAX as int
    } else if a * b < i64::MIN {
        i64::MIN as int
    } else {
        a * b
    }
}

/// A number divided by 100, rounded towards zero.
pub open spec fn hundredth(n: int) -> int {
    if n >= 0 {
        n / 100
    } else {
        -((-n) / 100)
    }
}

/// The part of the context window that may be used.
pub open spec fn effective_window(window: Option<i64>, percent: i64) -> Option<int> {
    match window {
        Some(w) => Some(hundredth(saturated_product(w as int, percent as int))),
        None => None,
    }
}

/// The part of the context window that may be used: the configured window, else the model's, by
/// the percentage of the model's family.
pub fn effective_context_window(
    configured: Option<i64>,
    known: Option<i64>,
    effective_context_window_percent: i64,
) -> (r: Option<i64>)
    ensures
        match r {
            Some(n) => effective_window(
                either(configured, known),
                effective_context_window_percent,
            ) == Some(n as int),
            None => configured is None && known is None,
        },
{
    let window = match configured {
        Some(w) => Some(w),
        None => known,
    };
    match window {
        Some(w) => {
            let p: i64 = effective_context_window_percent;
            assert(-0x4000_0000_0000_0000_0000_0000_0000_0000 <= w * p
                <= 0x4000_0000_0000_0000_0000_0000_0000_0000) by (nonlinear_arith)
                requires
                    -0x8000_0000_0000_0000 <= w <= 0x7fff_ffff_ffff_ffff,
                    -0x8000_0000_0000_0000 <= p <= 0x7fff_ffff_ffff_ffff,
            ;
            let product: i128 = (w as i128) * (p as i128);
            let held: i64 = if product > 9223372036854775807 {
                9223372036854775807
            } else if product < -9223372036854775808 {
                i64::MIN
            } else {
                product as i64
            };
            if held >= 0 {
                Some(((held as u64) / 100) as i64)
            } else if held == i64::MIN {
                Some(-92233720368547758)
            } else {
                Some(-((((-held) as u64) / 100) as i64))
            }
        },
        None => None,
    }
}

/// The id that an item keeps when it is sent back: none where it is empty.
pub open spec fn kept_id(item: ResponseItem) -> Option<String> {
    let id = match item {
        ResponseItem::Reasoning { id, .. } => Some(id),
        ResponseItem::Message { id, .. } => id,
        ResponseItem::WebSearchCall { id, .. } => id,
        ResponseItem::FunctionCall { id, .. } => id,
        ResponseItem::LocalShellCall { id, .. } => id,
        ResponseItem::CustomToolCall { id, .. } => id,
        _ => None,
    };
    match id {
        Some(s) => if s@.len() == 0 {
            None
        } else {
            Some(s)
        },
        None => None,
    }
}

/// Whether `new` is `old` with its member `id` set, where `old` is an object and there is an id.
pub open spec fn id_set(old: JsonValue, new: JsonValue, id: Option<String>) -> bool {
    match (old, id) {
        (JsonValue::Object(before), Some(id)) => {
            &&& new matches JsonValue::Object(after)
            &&& named::is_put(before@, after@, "id"@, JsonValue::Text(id))
        },
        _ => new == old,
    }
}

/// The id of the item at `i`, where there is such an item and it keeps one.
pub open spec fn id_at(items: Seq<ResponseItem>, i: int) -> Option<String> {
    if 0 <= i < items.len() {
        kept_id(items[i])
    } else {
        None
    }
}

/// The id that an item keeps when it is sent back.
fn id_to_keep(item: &ResponseItem) -> (r: Option<String>)
    ensures
        r == kept_id(*item),
{
    let id: Option<&String> = match item {
        ResponseItem::Reasoning { id, .. } => Some(id),
        ResponseItem::Message { id: Some(id), .. } => Some(id),
        ResponseItem::WebSearchCall { id: Some(id), .. } => Some(id),
        ResponseItem::FunctionCall { id: Some(id), .. } => Some(id),
        ResponseItem::LocalShellCall { id: Some(id), .. } => Some(id),
        ResponseItem::CustomToolCall { id: Some(id), .. } => Some(id),
        _ => None,
    };
    match id {
        Some(s) => {
            if s.as_str().is_empty() {
                None
            } else {
                Some(s.clone())
            }
        },
        None => None,
    }
}

/// `value` with its member `id` set, where it is an object and there is an id.
fn with_id(value: JsonValue, id: Option<String>) -> (r: JsonValue)
    ensures
        id_set(value, r, id),
{
    match (value, id) {
        (JsonValue::Object(members), Some(id)) => {
            let mut members = members;
            named::put(&mut members, "id".to_owned(), JsonValue::Text(id));
            JsonValue::Object(members)
        },
        (value, _) => value,
    }
}

/// Whether `new` is `old` with the ids of the items set in the array under `input`, where there
/// is one.
pub open spec fn ids_attached(old: JsonValue, new: JsonValue, items: Seq<ResponseItem>) -> bool {
    match input_array(old) {
        Some(values) => {
            &&& old matches JsonValue::Object(before)
            &&& new matches JsonValue::Object(after)
            &&& {
                let k = named::position(before@, "input"@) as int;
                &&& after@.len() == before@.len()
                &&& after@[k].0 == before@[k].0
                &&& forall|j: int| 0 <= j < before@.len() && j != k ==> after@[j] == before@[j]
                &&& after@[k].1 matches JsonValue::Array(set)
                &&& set@.len() == values.len()
                &&& forall|i: int|
                    0 <= i < values.len() ==> id_set(
                        values[i],
                        #[trigger] set@[i],
                        id_at(items, i),
                    )
            }
        },
        None => new == old,
    }
}

/// The array under the member `input` of an object.
pub open spec fn input_array(payload: JsonValue) -> Option<Seq<JsonValue>> {
    match payload {
        JsonValue::Object(members) => {
            let k = named::position(members@, "input"@) as int;
            if k < members@.len() {
                match members@[k].1 {
                    JsonValue::Array(values) => Some(values@),
                    _ => None,
                }
            } else {
                None
            }
        },
        _ => None,
    }
}

/// Sets the ids of the items in the array under `input`, where there is one, so that an endpoint
/// which stores items finds them again.
pub fn attach_item_ids(payload_json: JsonValue, original_items: &Vec<ResponseItem>) -> (r:
    JsonValue)
    ensures
        ids_attached(payload_json, r, original_items@),
{
    match payload_json {
        JsonValue::Object(members) => {
            let mut members = members;
            let ghost before = members@;
            let k = match named::find(&members, "input") {
                Some(k) => k,
                None => return JsonValue::Object(members),
            };
            match &members[k].1 {
                JsonValue::Array(_) => {},
                _ => return JsonValue::Object(members),
            }
            let (name, value) = members.remove(k);
            let mut rest = match value {
                JsonValue::Array(values) => values,
                _ => Vec::new(),
            };
            let ghost values = rest@;
            let mut set: Vec<JsonValue> = Vec::new();
            let mut i: usize = 0;
            let n: usize = rest.len();
            while i < n
                invariant
                    i <= n == values.len(),
                    rest@ == values.skip(i as int),
                    set@.len() == i,
                    forall|j: int|
                        0 <= j < i ==> id_set(
                            values[j],
                            #[trigger] set@[j],
                            id_at(original_items@, j),
                        ),
                decreases n - i,
            {
                let value = rest.remove(0);
                assert(value == values[i as int]);
                let id = if i < original_items.len() {
                    id_to_keep(&original_items[i])
                } else {
                    None
                };
                assert(id == id_at(original_items@, i as int));
                set.push(with_id(value, id));
                assert(rest@ =~= values.skip(i + 1));
                i += 1;
            }
            members.insert(k, (name, JsonValue::Array(set)));
            assert(forall|j: int| 0 <= j < before.len() && j != k ==> members@[j] == before[j]);
            JsonValue::Object(members)
        },
        other => other,
    }
}

/// What a request asks for: reasoning, with its encrypted content, only of a model that can
/// summarise it, and with the effort that was chosen before the usual one; a verbosity only of a
/// model that has one; to be stored only where the endpoint wants that; and always a stream.
pub proof fn law_request_asks_for_what_the_model_can(r: RequestOptions, model: ModelOptions)
    requires
        are_options_of(r, model),
    ensures
        r.reasoning is Some <==> model.supports_reasoning_summaries,
        r.reasoning matches Some(reasoning) ==> reasoning.summary == Some(model.summary)
            && reasoning.effort == if model.effort is Some {
            model.effort
        } else {
            model.default_reasoning_effort
        },
        model.supports_reasoning_summaries ==> text::texts(r.extra_output@) == seq![
            "reasoning.encrypted_content"@,
        ],
        !model.supports_reasoning_summaries ==> r.extra_output@.len() == 0,
        !model.support_verbosity ==> r.verbosity is None,
        model.support_verbosity && model.model_verbosity is Some ==> r.verbosity
            == model.model_verbosity,
        model.support_verbosity && model.model_verbosity is None ==> r.verbosity
            == model.default_verbosity,
        r.store <==> model.is_azure_responses_endpoint,
        r.stream,
        r.tool_choice@ == "auto"@,
{
    assert(text::texts(r.extra_output@).len() == r.extra_output@.len());
}

/// What is chosen comes before what is usual.
pub proof fn law_choice_comes_first<T>(chosen: Option<T>, usual: Option<T>)
    ensures
        chosen is Some ==> either(chosen, usual) == chosen,
        chosen is None ==> either(chosen, usual) == usual,
{
}

/// A request says which agent it comes from, by its label or its name, and whose account it is, where
/// the user is logged in with one.
pub proof fn law_request_says_where_it_comes_from(label: String, id: String, is_chatgpt: bool)
    ensures
        subagent_headers(None).len() == 0,
        subagent_headers(Some(SubAgentSource::Other(label))) == seq![
            ("x-openai-subagent"@, label@),
        ],
        subagent_headers(Some(SubAgentSource::Known(Some(label)))) == seq![
            ("x-openai-subagent"@, label@),
        ],
        subagent_headers(Some(SubAgentSource::Known(None))) == seq![
            ("x-openai-subagent"@, "other"@),
        ],
        account_headers(None).len() == 0,
        account_headers(Some(RequestAuth { is_chatgpt, account_id: None })).len() == 0,
        account_headers(Some(RequestAuth { is_chatgpt: true, account_id: Some(id) })) == seq![
            ("chatgpt-account-id"@, id@),
        ],
        account_headers(Some(RequestAuth { is_chatgpt: false, account_id: Some(id) })).len() == 0,
{
}

/// Of a window the given percentage can be used, rounded down; without a window there is none.
pub proof fn law_share_of_the_window_can_be_used(window: i64, percent: i64)
    requires
        window >= 0,
        0 <= percent <= 100,
        window * percent <= 0x7fff_ffff_ffff_ffff,
    ensures
        effective_window(None, percent) is None,
        effective_window(Some(window), percent) matches Some(n) && n * 100 <= window * percent < n
            * 100 + 100 && 0 <= n <= window,
{
    let product = window * percent;
    assert(0 <= product) by (nonlinear_arith)
        requires
            window >= 0,
            percent >= 0,
            product == window * percent,
    ;
    assert(product <= window * 100) by (nonlinear_arith)
        requires
            window >= 0,
            percent <= 100,
            product == window * percent,
    ;
    let n = product / 100;
    assert(effective_window(Some(window), percent) == Some(n));
}

/// A share that is too large to be counted is cut off at the largest number, before it is taken.
pub proof fn law_large_windows_are_cut_off(window: i64, percent: i64)
    requires
        window * percent > 0x7fff_ffff_ffff_ffff,
    ensures
        effective_window(Some(window), percent) == Some(0x7fff_ffff_ffff_ffffint / 100int),
{
}

/// The identity that goes back with an item is the one it came with, unless that is empty; outputs of
/// tools have none.
pub proof fn law_items_keep_their_identity(item: ResponseItem)
    ensures
        ({
            let own = match item {
                ResponseItem::Reasoning { id, .. } => Some(id),
                ResponseItem::Message { id, .. } => id,
                ResponseItem::WebSearchCall { id, .. } => id,
                ResponseItem::FunctionCall { id, .. } => id,
                ResponseItem::LocalShellCall { id, .. } => id,
                ResponseItem::CustomToolCall { id, .. } => id,
                _ => None,
            };
            &&& own is Some && (own->0)@.len() > 0 ==> kept_id(item) == own
            &&& own is None || (own->0)@.len() == 0 ==> kept_id(item) is None
        }),
{
}

/// Identities are attached to the items of the input, each to the one in its place, and nothing else
/// of the request changes: neither another member nor the number of items, nor an item without an
/// identity, nor anything in a request without a list as its input.
pub proof fn law_identities_are_attached(
    before: Vec<(String, JsonValue)>,
    values: Vec<JsonValue>,
    k: int,
    i: int,
    new: JsonValue,
    items: Seq<ResponseItem>,
)
    requires
        ids_attached(JsonValue::Object(before), new, items),
        0 <= k < before@.len(),
        before@[k].0@ == "input"@,
        before@[k].1 == JsonValue::Array(values),
        forall|j: int| 0 <= j < k ==> (#[trigger] before@[j]).0@ != "input"@,
        0 <= i < values@.len(),
    ensures
        new matches JsonValue::Object(after) && {
            &&& after@.len() == before@.len()
            &&& forall|j: int| 0 <= j < before@.len() && j != k ==> after@[j] == before@[j]
            &&& after@[k].0@ == "input"@
            &&& after@[k].1 matches JsonValue::Array(set)
            &&& set@.len() == values@.len()
            &&& match values@[i] {
                JsonValue::Object(members) => if i < items.len() && kept_id(items[i]) is Some {
                    set@[i] matches JsonValue::Object(now) && named::lookup(now@, "id"@) == Some(
                        JsonValue::Text(kept_id(items[i])->0),
                    ) && forall|name: Seq<char>|
                        name != "id"@ ==> #[trigger] named::lookup(now@, name) == named::lookup(
                            members@,
                            name,
                        )
                } else {
                    set@[i] == values@[i]
                },
                _ => set@[i] == values@[i],
            }
        },
{
    named::lemma_position_is(before@, "input"@, k);
    assert(input_array(JsonValue::Object(before)) == Some(values@));
    let after = new->Object_0;
    let set = after@[k].1->Array_0;
    assert(id_set(values@[i], set@[i], id_at(items, i)));
    if let JsonValue::Object(members) = values@[i] {
        if i < items.len() && kept_id(items[i]) is Some {
            named::lemma_put(
                members@,
                set@[i]->Object_0@,
                "id"@,
                JsonValue::Text(kept_id(items[i])->0),
            );
        }
    }
}

/// A request for a stream carries the conversation twice, asks for events, and says where it comes
/// from; one for a summary says only the last.
pub proof fn law_requests_carry_their_headers(
    source: Option<SubAgentSource>,
    id: &str,
    auth: Option<RequestAuth>,
    stream: Vec<(String, String)>,
    compact: Vec<(String, String)>,
)
    requires
        call_ensures(stream_headers, (source, id, auth), stream),
        call_ensures(compact_headers, (source, auth), compact),
    ensures
        header_texts(stream@) == subagent_headers(source) + seq![
            ("conversation_id"@, id@),
            ("session_id"@, id@),
            ("accept"@, "text/event-stream"@),
        ] + account_headers(auth),
        header_texts(compact@) == subagent_headers(source) + account_headers(auth),
{
}

/// A negative share is rounded towards zero, and cut off at the smallest number.
pub proof fn law_negative_shares_are_rounded_towards_zero(window: i64, percent: i64)
    requires
        window * percent <= 0,
    ensures
        window * percent >= -0x8000_0000_0000_0000 ==> (effective_window(
            Some(window),
            percent,
        ) matches Some(n) && window * percent <= n * 100 < window * percent + 100),
        window * percent < -0x8000_0000_0000_0000 ==> effective_window(Some(window), percent)
            == Some(-(0x8000_0000_0000_0000int / 100int)),
{
}

} // verus!
