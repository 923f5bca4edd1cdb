//! The client of one model.
use vstd::prelude::*;

use crate::client::attempt;
use crate::client::request;
use crate::client::request::{
    CompactReply, ModelOptions, RequestOptions, SubAgentSource, Verbosity,
};
use crate::error::CodexErr;
use crate::protocol::{ReasoningEffort, ReasoningSummary, ResponseItem};
use crate::text;

verus! {

/// The interface through which a model is asked.
#[derive(Debug, PartialEq, Eq, Clone, Copy, Structural)]
pub enum WireApi {
    Responses,
    Chat,
}

/// What models of one family have in common.
#[derive(Debug)]
pub struct ModelFamily {
    pub slug: String,
    pub effective_context_window_percent: i64,
    pub supports_reasoning_summaries: bool,
    pub default_reasoning_effort: Option<ReasoningEffort>,
    pub support_verbosity: bool,
    pub default_verbosity: Option<Verbosity>,
    pub supports_parallel_tool_calls: bool,
}

/// What is known of the limits of a model.
#[derive(Debug, Clone, Copy, PartialEq, Eq, Structural)]
pub struct ModelInfo {
    pub context_window: i64,
    pub auto_compact_token_limit: Option<i64>,
}

/// The settings that a client reads.
#[derive(Debug)]
pub struct ModelConfig {
    pub model: String,
    pub model_family: ModelFamily,
    /// What is known of the family, where it is known.
    pub model_info: Option<ModelInfo>,
    pub model_context_window: Option<i64>,
    pub model_auto_compact_token_limit: Option<i64>,
    pub model_verbosity: Option<Verbosity>,
    pub show_raw_agent_reasoning: bool,
}

/// The service that a model is asked from.
#[derive(Debug)]
pub struct ModelProviderInfo {
    pub name: String,
    pub wire_api: WireApi,
    pub request_max_retries: u64,
    pub stream_max_retries: u64,
    pub stream_idle_timeout_ms: u64,
    pub is_azure_responses_endpoint: bool,
}

/// The client of one model.
#[derive(Debug)]
pub struct ModelClient {
    config: ModelConfig,
    provider: ModelProviderInfo,
    conversation_id: String,
    effort: Option<ReasoningEffort>,
    summary: ReasoningSummary,
    session_source: SessionSource,
}

/// Who started a session.
#[derive(Debug)]
pub enum SessionSource {
    /// Another agent.
    SubAgent(SubAgentSource),
    /// A front end, by its name.
    FrontEnd(String),
}

impl SessionSource {
    /// A copy of the source.
    pub fn copy(&self) -> (r: Self)
        ensures
            r == *self,
    {
        match self {
            SessionSource::SubAgent(SubAgentSource::Other(label)) => SessionSource::SubAgent(
                SubAgentSource::Other(label.clone()),
            ),
            SessionSource::SubAgent(SubAgentSource::Known(Some(name))) => SessionSource::SubAgent(
                SubAgentSource::Known(Some(name.clone())),
            ),
            SessionSource::SubAgent(SubAgentSource::Known(None)) => SessionSource::SubAgent(
                SubAgentSource::Known(None),
            ),
            SessionSource::FrontEnd(name) => SessionSource::FrontEnd(name.clone()),
        }
    }
}

/// What the model is asked: the instructions for its family in full, and the conversation as it is
/// sent. The tools and the schema of the answer are JSON text.
#[derive(Debug)]
pub struct Prompt {
    pub instructions: String,
    pub input: Vec<ResponseItem>,
    pub tools: String,
    pub parallel_tool_calls: bool,
    pub output_schema: Option<String>,
}

/// A request through the responses interface.
#[derive(Debug)]
pub struct ResponsesApiRequest {
    pub model: String,
    pub prompt: Prompt,
    pub options: RequestOptions,
    pub prompt_cache_key: String,
}

/// A request for a compacted history.
#[derive(Debug)]
pub struct CompactHistoryRequest {
    pub model: String,
    pub input: Vec<ResponseItem>,
    pub instructions: String,
}

/// How an answer is streamed.
#[derive(Debug)]
pub enum StreamPlan {
    /// From the lines of a file.
    Fixture(String),
    /// Through the responses interface, with this request.
    Responses(ResponsesApiRequest),
    /// Through the chat interface, each assistant message in one piece.
    ChatAggregated(Prompt),
    /// Through the chat interface, as it comes.
    ChatStreaming(Prompt),
}

impl ModelFamily {
    /// A copy of the family.
    pub fn copy(&self) -> (r: Self)
        ensures
            r == *self,
    {
        ModelFamily {
            slug: self.slug.clone(),
            effective_context_window_percent: self.effective_context_window_percent,
            supports_reasoning_summaries: self.supports_reasoning_summaries,
            default_reasoning_effort: self.default_reasoning_effort,
            support_verbosity: self.support_verbosity,
            default_verbosity: self.default_verbosity,
            supports_parallel_tool_calls: self.supports_parallel_tool_calls,
        }
    }
}

impl ModelProviderInfo {
    /// A copy of the description.
    pub fn copy(&self) -> (r: Self)
        ensures
            r == *self,
    {
        ModelProviderInfo {
            name: self.name.clone(),
            wire_api: self.wire_api,
            request_max_retries: self.request_max_retries,
            stream_max_retries: self.stream_max_retries,
            stream_idle_timeout_ms: self.stream_idle_timeout_ms,
            is_azure_responses_endpoint: self.is_azure_responses_endpoint,
        }
    }
}

impl ModelClient {
    pub closed spec fn config_model(self) -> ModelConfig {
        self.config
    }

    pub closed spec fn provider_model(self) -> ModelProviderInfo {
        self.provider
    }

    pub closed spec fn conversation(self) -> Seq<char> {
        self.conversation_id@
    }

    pub closed spec fn effort_model(self) -> Option<ReasoningEffort> {
        self.effort
    }

    pub closed spec fn summary_model(self) -> ReasoningSummary {
        self.summary
    }

    pub closed spec fn source_model(self) -> SessionSource {
        self.session_source
    }

    /// The context window that is known of the model, where none is configured.
    pub open spec fn known_window(self) -> Option<i64> {
        match self.config_model().model_info {
            Some(info) => Some(info.context_window),
            None => None,
        }
    }

    /// The limit for compaction that is known of the model, where none is configured.
    pub open spec fn known_compact_limit(self) -> Option<i64> {
        match self.config_model().model_info {
            Some(info) => info.auto_compact_token_limit,
            None => None,
        }
    }

    /// What the choice of a request's options depends on.
    pub open spec fn options_model(self) -> ModelOptions {
        ModelOptions {
            supports_reasoning_summaries: self.config_model().model_family.supports_reasoning_summaries,
            default_reasoning_effort: self.config_model().model_family.default_reasoning_effort,
            support_verbosity: self.config_model().model_family.support_verbosity,
            default_verbosity: self.config_model().model_family.default_verbosity,
            effort: self.effort_model(),
            summary: self.summary_model(),
            model_verbosity: self.config_model().model_verbosity,
            is_azure_responses_endpoint: self.provider_model().is_azure_responses_endpoint,
        }
    }

    pub fn new(
        config: ModelConfig,
        provider: ModelProviderInfo,
        effort: Option<ReasoningEffort>,
        summary: ReasoningSummary,
        conversation_id: String,
        session_source: SessionSource,
    ) -> (r: Self)
        ensures
            r.config_model() == config,
            r.provider_model() == provider,
            r.effort_model() == effort,
            r.summary_model() == summary,
            r.conversation() == conversation_id@,
            r.source_model() == session_source,
    {
        ModelClient { config, provider, conversation_id, effort, summary, session_source }
    }

    /// The part of the context window that may be used.
    pub fn get_model_context_window(&self) -> (r: Option<i64>)
        ensures
            match r {
                Some(n) => request::effective_window(
                    request::either(
                        self.config_model().model_context_window,
                        self.known_window(),
                    ),
                    self.config_model().model_family.effective_context_window_percent,
                ) == Some(n as int),
                None => self.config_model().model_context_window is None
                    && self.known_window() is None,
            },
    {
        let known = match self.config.model_info {
            Some(info) => Some(info.context_window),
            None => None,
        };
        request::effective_context_window(
            self.config.model_context_window,
            known,
            self.config.model_family.effective_context_window_percent,
        )
    }

    /// The number of tokens at which the history is compacted.
    pub fn get_auto_compact_token_limit(&self) -> (r: Option<i64>)
        ensures
            r == request::either(
                self.config_model().model_auto_compact_token_limit,
                self.known_compact_limit(),
            ),
    {
        match self.config.model_auto_compact_token_limit {
            Some(limit) => Some(limit),
            None => match self.config.model_info {
                Some(info) => info.auto_compact_token_limit,
                None => None,
            },
        }
    }

    pub fn config(&self) -> (r: &ModelConfig)
        ensures
            *r == self.config_model(),
    {
        &self.config
    }

    pub fn provider(&self) -> (r: &ModelProviderInfo)
        ensures
            *r == self.provider_model(),
    {
        &self.provider
    }

    pub fn get_provider(&self) -> (r: ModelProviderInfo)
        ensures
            r == self.provider_model(),
    {
        self.provider.copy()
    }

    /// The currently configured model slug.
    pub fn get_model(&self) -> (r: String)
        ensures
            r == self.config_model().model,
    {
        self.config.model.clone()
    }

    /// The currently configured model family.
    pub fn get_model_family(&self) -> (r: ModelFamily)
        ensures
            r == self.config_model().model_family,
    {
        self.config.model_family.copy()
    }

    /// The current reasoning effort setting.
    pub fn get_reasoning_effort(&self) -> (r: Option<ReasoningEffort>)
        ensures
            r == self.effort_model(),
    {
        self.effort
    }

    /// The current reasoning summary setting.
    pub fn get_reasoning_summary(&self) -> (r: ReasoningSummary)
        ensures
            r == self.summary_model(),
    {
        self.summary
    }

    /// Who started the session.
    pub fn get_session_source(&self) -> (r: SessionSource)
        ensures
            r == self.source_model(),
    {
        self.session_source.copy()
    }

    /// Whether `r` is the request for a prompt.
    pub open spec fn is_request_of(self, r: ResponsesApiRequest, prompt: Prompt) -> bool {
        &&& r.model == self.config_model().model
        &&& r.prompt == prompt
        &&& request::are_options_of(r.options, self.options_model())
        &&& r.prompt_cache_key@ == self.conversation()
    }

    /// The request for a prompt through the responses interface.
    pub fn stream_responses(&self, prompt: Prompt) -> (r: ResponsesApiRequest)
        ensures
            self.is_request_of(r, prompt),
    {
        let model = ModelOptions {
            supports_reasoning_summaries: self.config.model_family.supports_reasoning_summaries,
            default_reasoning_effort: self.config.model_family.default_reasoning_effort,
            support_verbosity: self.config.model_family.support_verbosity,
            default_verbosity: self.config.model_family.default_verbosity,
            effort: self.effort,
            summary: self.summary,
            model_verbosity: self.config.model_verbosity,
            is_azure_responses_endpoint: self.provider.is_azure_responses_endpoint,
        };
        ResponsesApiRequest {
            model: self.config.model.clone(),
            prompt,
            options: request::request_options(&model),
            prompt_cache_key: self.conversation_id.clone(),
        }
    }

    /// How the answer to a prompt is streamed. A file to stream from takes the place of the
    /// responses interface.
    pub fn stream(&self, prompt: Prompt, fixture: Option<String>) -> (r: StreamPlan)
        ensures
            match self.provider_model().wire_api {
                WireApi::Responses => match fixture {
                    Some(path) => r == StreamPlan::Fixture(path),
                    None => r matches StreamPlan::Responses(request) && self.is_request_of(
                        request,
                        prompt,
                    ),
                },
                WireApi::Chat => r == if self.config_model().show_raw_agent_reasoning {
                    StreamPlan::ChatStreaming(prompt)
                } else {
                    StreamPlan::ChatAggregated(prompt)
                },
            },
    {
        match self.provider.wire_api {
            WireApi::Responses => match fixture {
                Some(path) => StreamPlan::Fixture(path),
                None => StreamPlan::Responses(self.stream_responses(prompt)),
            },
            WireApi::Chat => {
                if self.config.show_raw_agent_reasoning {
                    StreamPlan::ChatStreaming(prompt)
                } else {
                    StreamPlan::ChatAggregated(prompt)
                }
            },
        }
    }

    /// The request for a compacted history; none where there is no history.
    pub fn compact_request(&self, prompt: Prompt) -> (r: Option<CompactHistoryRequest>)
        ensures
            r == if prompt.input@.len() == 0 {
                None
            } else {
                Some(
                    CompactHistoryRequest {
                        model: self.config_model().model,
                        input: prompt.input,
                        instructions: prompt.instructions,
                    },
                )
            },
    {
        if prompt.input.len() == 0 {
            return None;
        }
        Some(
            CompactHistoryRequest {
                model: self.config.model.clone(),
                input: prompt.input,
                instructions: prompt.instructions,
            },
        )
    }

    /// The compacted history that the service gives, or why there is none.
    pub fn compact_conversation_history(reply: CompactReply) -> (r: Result<
        Vec<ResponseItem>,
        CodexErr,
    >)
        ensures
            match reply {
                CompactReply::NothingToCompact => r matches Ok(items) && items@.len() == 0,
                CompactReply::ConnectionFailed(source) => r == Err::<Vec<ResponseItem>, CodexErr>(
                    CodexErr::ConnectionFailed { source },
                ),
                CompactReply::Answered { status, body, output } => if !attempt::is_success(
                    status,
                ) {
                    r == Err::<Vec<ResponseItem>, CodexErr>(
                        CodexErr::UnexpectedStatus { status, body, request_id: None },
                    )
                } else {
                    match output {
                        Ok(items) => r == Ok::<Vec<ResponseItem>, CodexErr>(items),
                        Err(why) => r == Err::<Vec<ResponseItem>, CodexErr>(CodexErr::Json(why)),
                    }
                },
            },
    {
        match reply {
            CompactReply::NothingToCompact => Ok(Vec::new()),
            CompactReply::ConnectionFailed(source) => Err(CodexErr::ConnectionFailed { source }),
            CompactReply::Answered { status, body, output } => {
                if !(200 <= status && status < 300) {
                    Err(CodexErr::UnexpectedStatus { status, body, request_id: None })
                } else {
                    match output {
                        Ok(items) => Ok(items),
                        Err(why) => Err(CodexErr::Json(why)),
                    }
                }
            },
        }
    }
}

/// Each line, ended by a blank line.
pub open spec fn spaced_lines(lines: Seq<Seq<char>>) -> Seq<char>
    decreases lines.len(),
{
    if lines.len() == 0 {
        Seq::empty()
    } else {
        spaced_lines(lines.drop_last()) + lines.last() + "\n\n"@
    }
}

/// The stream that the lines of a file stand for: each is an event of its own.
pub fn fixture_stream(lines: &Vec<String>) -> (r: String)
    ensures
        r@ == spaced_lines(text::texts(lines@)),
{
    let ghost all = text::texts(lines@);
    let mut content = String::new();
    let mut i: usize = 0;
    assert(all.take(0) =~= Seq::empty());
    while i < lines.len()
        invariant
            all == text::texts(lines@),
            i <= lines@.len(),
            content@ == spaced_lines(all.take(i as int)),
        decreases lines@.len() - i,
    {
        content.append(lines[i].as_str());
        content.append("\n\n");
        assert(all.take(i + 1).drop_last() =~= all.take(i as int));
        assert(all.take(i + 1).last() == lines@[i as int]@);
        i += 1;
    }
    assert(all.take(i as int) =~= all);
    content
}

/// The window is the configured one before the known one, and the limit at which the conversation is
/// summarised too.
pub proof fn law_configured_limits_come_first(
    client: ModelClient,
    window: Option<i64>,
    limit: Option<i64>,
)
    requires
        call_ensures(ModelClient::get_model_context_window, (&client,), window),
        call_ensures(ModelClient::get_auto_compact_token_limit, (&client,), limit),
    ensures
        ({
            let config = client.config_model();
            let percent = config.model_family.effective_context_window_percent;
            let known = if config.model_info is Some {
                Some((config.model_info->0).context_window)
            } else {
                None
            };
            let whole = if config.model_context_window is Some {
                config.model_context_window
            } else {
                known
            };
            &&& window is Some <==> whole is Some
            &&& window is Some ==> request::effective_window(whole, percent) == Some(
                window->0 as int,
            )
            &&& limit == if config.model_auto_compact_token_limit is Some {
                config.model_auto_compact_token_limit
            } else if config.model_info is Some {
                (config.model_info->0).auto_compact_token_limit
            } else {
                None
            }
        }),
{
}

/// An answer is streamed through the interface of its provider: through the responses interface from
/// the file that was given, if one was, and else with the request; through the chat interface in
/// whole messages, unless raw reasoning is shown.
pub proof fn law_provider_has_its_interface(
    client: ModelClient,
    prompt: Prompt,
    fixture: Option<String>,
    r: StreamPlan,
)
    requires
        call_ensures(ModelClient::stream, (&client, prompt, fixture), r),
    ensures
        client.provider_model().wire_api == WireApi::Responses && fixture is Some ==> r
            == StreamPlan::Fixture(fixture->0),
        client.provider_model().wire_api == WireApi::Responses && fixture is None ==> (
        r matches StreamPlan::Responses(request) && request.model == client.config_model().model
            && request.prompt == prompt && request.prompt_cache_key@ == client.conversation()
            && request::are_options_of(request.options, client.options_model())),
        client.provider_model().wire_api == WireApi::Chat ==> r
            == if client.config_model().show_raw_agent_reasoning {
            StreamPlan::ChatStreaming(prompt)
        } else {
            StreamPlan::ChatAggregated(prompt)
        },
{
}

/// What a request may ask for is what the family of the model can do, with what was chosen.
pub proof fn law_options_are_those_of_the_family(client: ModelClient)
    ensures
        ({
            let family = client.config_model().model_family;
            let o = client.options_model();
            &&& o.supports_reasoning_summaries == family.supports_reasoning_summaries
            &&& o.default_reasoning_effort == family.default_reasoning_effort
            &&& o.support_verbosity == family.support_verbosity
            &&& o.default_verbosity == family.default_verbosity
            &&& o.effort == client.effort_model()
            &&& o.summary == client.summary_model()
            &&& o.model_verbosity == client.config_model().model_verbosity
            &&& o.is_azure_responses_endpoint == client.provider_model().is_azure_responses_endpoint
        }),
{
}

/// A history is summarised where there is one, with its own instructions and model.
pub proof fn law_history_is_summarised_where_there_is_one(
    client: ModelClient,
    prompt: Prompt,
    r: Option<CompactHistoryRequest>,
)
    requires
        call_ensures(ModelClient::compact_request, (&client, prompt), r),
    ensures
        r is Some <==> prompt.input@.len() > 0,
        r is Some ==> (r->0).input == prompt.input && (r->0).instructions == prompt.instructions
            && (r->0).model == client.config_model().model,
{
}

/// The summary is what the service answers with; an answer with another status than one of success
/// is an error with that status and the body.
pub proof fn law_summary_is_the_answer(
    reply: CompactReply,
    r: Result<Vec<ResponseItem>, CodexErr>,
)
    requires
        call_ensures(ModelClient::compact_conversation_history, (reply,), r),
    ensures
        match reply {
            CompactReply::NothingToCompact => r is Ok && (r->Ok_0)@.len() == 0,
            CompactReply::ConnectionFailed(source) => r == Err::<Vec<ResponseItem>, CodexErr>(
                CodexErr::ConnectionFailed { source },
            ),
            CompactReply::Answered { status, body, output } => {
                &&& !(200 <= status <= 299) ==> r == Err::<Vec<ResponseItem>, CodexErr>(
                    CodexErr::UnexpectedStatus { status, body, request_id: None },
                )
                &&& 200 <= status <= 299 ==> match output {
                    Ok(items) => r == Ok::<Vec<ResponseItem>, CodexErr>(items),
                    Err(why) => r == Err::<Vec<ResponseItem>, CodexErr>(CodexErr::Json(why)),
                }
            },
        },
{
}

/// Each line of a file is an event of its own, ended by a blank line, and they come in order.
pub proof fn law_lines_are_events(a: Seq<Seq<char>>, b: Seq<Seq<char>>, line: Seq<char>)
    ensures
        spaced_lines(a + b) == spaced_lines(a) + spaced_lines(b),
        spaced_lines(seq![line]) == line + "\n\n"@,
    decreases b.len(),
{
    assert(seq![line].drop_last() =~= Seq::<Seq<char>>::empty());
    assert(seq![line].last() == line);
    assert(spaced_lines(Seq::<Seq<char>>::empty()) =~= Seq::<char>::empty());
    assert(spaced_lines(seq![line]) =~= line + "\n\n"@);
    if b.len() == 0 {
        assert(a + b =~= a);
        assert(spaced_lines(a) + spaced_lines(b) =~= spaced_lines(a));
    } else {
        law_lines_are_events(a, b.drop_last(), line);
        assert((a + b).drop_last() =~= a + b.drop_last());
        assert((a + b).last() == b.last());
        assert(spaced_lines(a + b) =~= spaced_lines(a) + spaced_lines(b));
    }
}

} // verus!
