//! The values that the agent, the model and the user exchange, as far as the library reads them.
use vstd::prelude::*;

verus! {

/// When the user is asked before a command runs.
#[derive(Debug, PartialEq, Eq, Clone, Copy, Structural)]
pub enum AskForApproval {
    UnlessTrusted,
    OnFailure,
    OnRequest,
    Never,
}

/// What the user says to a request for approval.
#[derive(Debug, PartialEq, Eq, Clone, Copy, Structural)]
pub enum ReviewDecision {
    Approved,
    ApprovedForSession,
    Denied,
    Abort,
}

/// How commands are confined.
#[derive(Debug, PartialEq, Eq, Clone)]
pub enum SandboxPolicy {
    DangerFullAccess,
    ReadOnly,
    WorkspaceWrite {
        writable_roots: Vec<String>,
        network_access: bool,
        exclude_tmpdir_env_var: bool,
        exclude_slash_tmp: bool,
    },
}

/// How much effort the model spends on reasoning.
#[derive(Debug, PartialEq, Eq, Clone, Copy, Structural)]
pub enum ReasoningEffort {
    Off,
    Minimal,
    Low,
    Medium,
    High,
}

/// How the model summarises its reasoning.
#[derive(Debug, PartialEq, Eq, Clone, Copy, Structural)]
pub enum ReasoningSummary {
    Auto,
    Concise,
    Detailed,
    Off,
}

/// A piece of a message.
#[derive(Debug, PartialEq, Eq, Clone)]
pub enum ContentItem {
    InputText { text: String },
    InputImage { image_url: String },
    OutputText { text: String },
}

/// What a tool returned to the model.
#[derive(Debug, PartialEq, Eq, Clone)]
pub struct FunctionCallOutputPayload {
    pub content: String,
    /// The structured content, as JSON text.
    pub content_items: Option<String>,
    pub success: Option<bool>,
}

/// An item of the conversation. Parts that the library carries and never reads are JSON text.
#[allow(inconsistent_fields)]
#[derive(Debug, PartialEq, Eq, Clone)]
pub enum ResponseItem {
    Message { id: Option<String>, role: String, content: Vec<ContentItem> },
    Reasoning { id: String, body: String },
    LocalShellCall { id: Option<String>, call_id: Option<String>, body: String },
    FunctionCall { id: Option<String>, name: String, arguments: String, call_id: String },
    FunctionCallOutput { call_id: String, output: FunctionCallOutputPayload },
    CustomToolCall {
        id: Option<String>,
        status: Option<String>,
        call_id: String,
        name: String,
        input: String,
    },
    CustomToolCallOutput { call_id: String, output: String },
    WebSearchCall { id: Option<String>, body: String },
    GhostSnapshot { body: String },
    Other,
}

/// The outcome of a call of an external tool: the payload made of its result, or its error.
#[derive(Debug, PartialEq, Eq, Clone)]
pub enum McpCallResult {
    Returned(FunctionCallOutputPayload),
    Failed(String),
}

/// An item that is sent to the model.
#[allow(inconsistent_fields)]
#[derive(Debug, PartialEq, Eq, Clone)]
pub enum ResponseInputItem {
    Message { role: String, content: Vec<ContentItem> },
    FunctionCallOutput { call_id: String, output: FunctionCallOutputPayload },
    McpToolCallOutput { call_id: String, result: McpCallResult },
    CustomToolCallOutput { call_id: String, output: String },
}

/// What the user puts in.
#[derive(Debug, PartialEq, Eq, Clone)]
pub enum UserInput {
    Text { text: String },
    Image { image_url: String },
    LocalImage { path: String },
}

/// The tokens that a request used.
#[derive(Debug, PartialEq, Eq, Clone, Copy, Structural)]
pub struct TokenUsage {
    pub input_tokens: i64,
    pub cached_input_tokens: i64,
    pub output_tokens: i64,
    pub reasoning_output_tokens: i64,
    pub total_tokens: i64,
}

impl Default for TokenUsage {
    fn default() -> (r: Self)
        ensures
            r == (TokenUsage {
                input_tokens: 0,
                cached_input_tokens: 0,
                output_tokens: 0,
                reasoning_output_tokens: 0,
                total_tokens: 0,
            }),
    {
        TokenUsage {
            input_tokens: 0,
            cached_input_tokens: 0,
            output_tokens: 0,
            reasoning_output_tokens: 0,
            total_tokens: 0,
        }
    }
}

/// The tokens that a session used.
#[derive(Debug, PartialEq, Eq, Clone, Copy, Structural)]
pub struct TokenUsageInfo {
    pub total_token_usage: TokenUsage,
    pub last_token_usage: TokenUsage,
    pub model_context_window: Option<i64>,
}

/// One window of a rate limit. The percentage is held by the bits of its binary64 form.
#[derive(Debug, PartialEq, Eq, Clone, Copy, Structural)]
pub struct RateLimitWindow {
    pub used_percent_bits: u64,
    pub window_minutes: Option<i64>,
    pub resets_at: Option<i64>,
}

/// What is left of the credits.
#[derive(Debug, PartialEq, Eq, Clone)]
pub struct CreditsSnapshot {
    pub has_credits: bool,
    pub unlimited: bool,
    pub balance: Option<String>,
}

/// The state of the rate limits.
#[derive(Debug, PartialEq, Eq, Clone)]
pub struct RateLimitSnapshot {
    pub primary: Option<RateLimitWindow>,
    pub secondary: Option<RateLimitWindow>,
    pub credits: Option<CreditsSnapshot>,
}

} // verus!
